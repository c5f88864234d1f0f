//! The choice made by pointer picking: among the bodies a ray meets, the one
//! nearest along the ray.
//!
//! The ray-sphere intersection is computed by the renderer, which hands over
//! for each body the distance along the ray to its first hit in front of the
//! eye (`None` for a miss), in millionths of a display unit.

use vstd::prelude::*;

verus! {

/// `r` is the body hit nearest along the ray, the first of equals, or `None`
/// when the ray meets nothing.
pub open spec fn is_nearest_hit(hits: Seq<Option<u64>>, r: Option<usize>) -> bool {
    match r {
        None => forall|j: int| 0 <= j < hits.len() ==> (#[trigger] hits[j]) is None,
        Some(i) => {
            &&& i < hits.len()
            &&& hits[i as int] matches Some(d) && forall|j: int|
                0 <= j < hits.len() ==> match #[trigger] hits[j] {
                    Some(e) => d <= e && (j < i ==> d < e),
                    None => true,
                }
        },
    }
}

/// The body hit nearest along the ray, given each body's hit distance; the
/// first one wins among equal distances.
pub fn nearest_hit(hits: &[Option<u64>]) -> (r: Option<usize>)
    ensures
        is_nearest_hit(hits@, r),
{
    let mut best: Option<usize> = None;
    let mut best_d: u64 = 0;
    let mut i: usize = 0;
    while i < hits.len()
        invariant
            i <= hits@.len(),
            match best {
                None => forall|j: int| 0 <= j < i ==> (#[trigger] hits@[j]) is None,
                Some(b) => b < i && hits@[b as int] == Some(best_d) && forall|j: int|
                    0 <= j < i ==> match #[trigger] hits@[j] {
                        Some(e) => best_d <= e && (j < b ==> best_d < e),
                        None => true,
                    },
            },
        decreases hits@.len() - i,
    {
        if let Some(d) = hits[i] {
            let closer = match best {
                None => true,
                Some(_) => d < best_d,
            };
            if closer {
                best = Some(i);
                best_d = d;
            }
        }
        i = i + 1;
    }
    best
}

} // verus!
