//! Bounded history of recent positions, drawn as a fading line behind each
//! orbiting body. One point is recorded per simulation step.

use vstd::prelude::*;

verus! {

/// Points kept per body.
pub const TRAIL_CAPACITY: usize = 256;

/// The last `n` items of `s` (all of `s` if it is shorter).
pub open spec fn last_n<T>(s: Seq<T>, n: nat) -> Seq<T> {
    if s.len() <= n {
        s
    } else {
        s.subrange(s.len() - n, s.len() as int)
    }
}

/// The most recent points of a path, oldest first, at most `capacity` of
/// them.
pub struct Trail<T> {
    points: Vec<T>,
    capacity: usize,
}

impl<T> View for Trail<T> {
    type V = Seq<T>;

    closed spec fn view(&self) -> Seq<T> {
        self.points@
    }
}

impl<T> Trail<T> {
    /// The number of points the trail keeps.
    pub closed spec fn spec_capacity(&self) -> nat {
        self.capacity as nat
    }

    /// It never holds more than its capacity, which is at least one.
    pub open spec fn wf(&self) -> bool {
        &&& self.spec_capacity() >= 1
        &&& self@.len() <= self.spec_capacity()
    }

    /// An empty trail keeping up to `capacity` points.
    pub fn new(capacity: usize) -> (r: Trail<T>)
        requires
            capacity >= 1,
        ensures
            r.wf(),
            r@ == Seq::<T>::empty(),
            r.spec_capacity() == capacity,
    {
        Trail { points: Vec::new(), capacity }
    }

    /// Record `p` as the newest point, dropping the oldest when full.
    pub fn push(&mut self, p: T)
        requires
            old(self).wf(),
        ensures
            final(self).wf(),
            final(self).spec_capacity() == old(self).spec_capacity(),
            final(self)@ == last_n(old(self)@.push(p), old(self).spec_capacity()),
    {
        self.points.push(p);
        if self.points.len() > self.capacity {
            self.points.remove(0);
            assert(self.points@ =~= last_n(old(self)@.push(p), old(self).spec_capacity()));
        }
    }

    /// The number of points held.
    pub fn len(&self) -> (r: usize)
        ensures
            r == self@.len(),
    {
        self.points.len()
    }

    /// The number of points the trail keeps.
    pub fn capacity(&self) -> (r: usize)
        ensures
            r == self.spec_capacity(),
    {
        self.capacity
    }

    /// Point `i`, counting from the oldest.
    pub fn get(&self, i: usize) -> (r: &T)
        requires
            i < self@.len(),
        ensures
            *r == self@[i as int],
    {
        &self.points[i]
    }

    /// Forget every point.
    pub fn clear(&mut self)
        requires
            old(self).wf(),
        ensures
            final(self).wf(),
            final(self).spec_capacity() == old(self).spec_capacity(),
            final(self)@ == Seq::<T>::empty(),
    {
        self.points.clear();
    }
}

/// The opacity of point `i` of a trail of `len` points, in thousandths: the
/// newest point is opaque and opacity falls off linearly toward the oldest.
pub fn fade_alpha(i: usize, len: usize) -> (r: u64)
    requires
        i < len,
    ensures
        r == (i + 1) * 1000 / len as int,
        r <= 1000,
{
    proof {
        assert((i + 1) * 1000 <= len * 1000) by (nonlinear_arith)
            requires
                i < len,
        ;
        assert((i + 1) * 1000 / len as int <= 1000) by (nonlinear_arith)
            requires
                (i + 1) * 1000 <= len * 1000,
                len > 0,
        ;
    }
    ((i as u128 + 1) * 1000 / len as u128) as u64
}

} // verus!
