//! What the controls and the draw passes need to know of each body of the
//! catalog: whether it is the central star and whether it carries rings.

use vstd::prelude::*;

verus! {

/// The role flags of one catalog body.
#[derive(Debug, Clone, Copy, PartialEq, Eq)]
pub struct BodyFlags {
    /// The body is the central star: it sits at the system's origin.
    pub is_star: bool,
    /// The body is drawn with a ring annulus.
    pub has_rings: bool,
}

/// `r` lists, in increasing order, exactly the indices of `bodies` whose
/// flags satisfy `keep`.
pub open spec fn lists_matching(bodies: Seq<BodyFlags>, r: Seq<usize>, keep: spec_fn(BodyFlags) -> bool) -> bool {
    &&& forall|k: int| 0 <= k < r.len() ==> r[k] < bodies.len() && keep(bodies[r[k] as int])
    &&& forall|k: int, l: int| 0 <= k < l < r.len() ==> r[k] < r[l]
    &&& forall|i: int| 0 <= i < bodies.len() && keep(#[trigger] bodies[i]) ==> r.contains(i as usize)
}

/// Body is drawn with an orbit line and a trail: everything but the star.
pub open spec fn is_orbiting(b: BodyFlags) -> bool {
    !b.is_star
}

/// Body gets a ring pass.
pub open spec fn is_ringed(b: BodyFlags) -> bool {
    b.has_rings
}

/// `r` is the index of the first star in `bodies`, or `None` if there is none.
pub open spec fn is_first_star(bodies: Seq<BodyFlags>, r: Option<usize>) -> bool {
    match r {
        Some(i) => i < bodies.len() && bodies[i as int].is_star && forall|j: int|
            0 <= j < i ==> !(#[trigger] bodies[j]).is_star,
        None => forall|j: int| 0 <= j < bodies.len() ==> !(#[trigger] bodies[j]).is_star,
    }
}

/// The first star at or after index `i`.
pub open spec fn first_star_from(bodies: Seq<BodyFlags>, i: int) -> Option<usize>
    decreases bodies.len() - i,
{
    if i < 0 || i >= bodies.len() {
        None
    } else if bodies[i].is_star {
        Some(i as usize)
    } else {
        first_star_from(bodies, i + 1)
    }
}

/// The index of the first star in `bodies`, if any.
pub fn first_star(bodies: &[BodyFlags]) -> (r: Option<usize>)
    ensures
        is_first_star(bodies@, r),
        r == first_star_from(bodies@, 0),
{
    let mut i: usize = 0;
    while i < bodies.len()
        invariant
            i <= bodies@.len(),
            first_star_from(bodies@, 0) == first_star_from(bodies@, i as int),
            forall|j: int| 0 <= j < i ==> !(#[trigger] bodies@[j]).is_star,
        decreases bodies@.len() - i,
    {
        if bodies[i].is_star {
            return Some(i);
        }
        i = i + 1;
    }
    None
}

/// The indices of the bodies that orbit the star, in catalog order.
pub fn orbiting_bodies(bodies: &[BodyFlags]) -> (r: Vec<usize>)
    ensures
        lists_matching(bodies@, r@, |b: BodyFlags| is_orbiting(b)),
{
    let mut r: Vec<usize> = Vec::new();
    let mut i: usize = 0;
    while i < bodies.len()
        invariant
            i <= bodies@.len(),
            forall|k: int| 0 <= k < r@.len() ==> r@[k] < i && is_orbiting(bodies@[r@[k] as int]),
            forall|k: int, l: int| 0 <= k < l < r@.len() ==> r@[k] < r@[l],
            forall|j: int| 0 <= j < i && is_orbiting(#[trigger] bodies@[j]) ==> r@.contains(j as usize),
        decreases bodies@.len() - i,
    {
        if !bodies[i].is_star {
            let ghost before = r@;
            r.push(i);
            proof {
                assert(r@[r@.len() - 1] == i);
                assert forall|j: int| 0 <= j < i && is_orbiting(#[trigger] bodies@[j]) implies r@.contains(j as usize) by {
                    let k = choose|k: int| 0 <= k < before.len() && before[k] == j as usize;
                    assert(r@[k] == j as usize);
                }
            }
        }
        i = i + 1;
    }
    r
}

/// The indices of the ringed bodies, in catalog order.
pub fn ringed_bodies(bodies: &[BodyFlags]) -> (r: Vec<usize>)
    ensures
        lists_matching(bodies@, r@, |b: BodyFlags| is_ringed(b)),
{
    let mut r: Vec<usize> = Vec::new();
    let mut i: usize = 0;
    while i < bodies.len()
        invariant
            i <= bodies@.len(),
            forall|k: int| 0 <= k < r@.len() ==> r@[k] < i && is_ringed(bodies@[r@[k] as int]),
            forall|k: int, l: int| 0 <= k < l < r@.len() ==> r@[k] < r@[l],
            forall|j: int| 0 <= j < i && is_ringed(#[trigger] bodies@[j]) ==> r@.contains(j as usize),
        decreases bodies@.len() - i,
    {
        if bodies[i].has_rings {
            let ghost before = r@;
            r.push(i);
            proof {
                assert(r@[r@.len() - 1] == i);
                assert forall|j: int| 0 <= j < i && is_ringed(#[trigger] bodies@[j]) implies r@.contains(j as usize) by {
                    let k = choose|k: int| 0 <= k < before.len() && before[k] == j as usize;
                    assert(r@[k] == j as usize);
                }
            }
        }
        i = i + 1;
    }
    r
}

} // verus!
