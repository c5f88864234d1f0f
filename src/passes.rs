//! The layers of a frame and the order they are drawn in.

use vstd::prelude::*;

verus! {

/// One layer of a frame.
#[derive(Debug, Clone, Copy, PartialEq, Eq)]
pub enum PassKind {
    /// Background stars, as an infinitely distant backdrop.
    Starfield,
    /// One closed orbit line per orbiting body, centred on the star.
    Orbit,
    /// Fading line of recent positions per orbiting body.
    Trail,
    /// The bodies themselves, lit and textured.
    Planet,
    /// Ring annuli of ringed bodies, seen from both sides.
    Ring,
}

/// The draw order: backdrop, static lines, trails, opaque bodies, rings.
pub open spec fn spec_pass_order() -> Seq<PassKind> {
    seq![PassKind::Starfield, PassKind::Orbit, PassKind::Trail, PassKind::Planet, PassKind::Ring]
}

/// The passes of a frame in the order they are drawn, so that depth testing
/// and alpha blending layer them correctly.
pub fn pass_order() -> (r: Vec<PassKind>)
    ensures
        r@ == spec_pass_order(),
{
    let r = vec![PassKind::Starfield, PassKind::Orbit, PassKind::Trail, PassKind::Planet, PassKind::Ring];
    assert(r@ =~= spec_pass_order());
    r
}

impl PassKind {
    /// Whether the pass writes the depth buffer: all but the backdrop, which
    /// must neither hide nor be hidden by the scene at scale.
    pub fn writes_depth(&self) -> (r: bool)
        ensures
            r == !(*self == PassKind::Starfield),
    {
        !matches!(self, PassKind::Starfield)
    }

    /// Whether back faces are culled during the pass: all but the rings,
    /// which are flat and seen from both sides.
    pub fn culls_back_faces(&self) -> (r: bool)
        ensures
            r == !(*self == PassKind::Ring),
    {
        !matches!(self, PassKind::Ring)
    }
}

} // verus!
