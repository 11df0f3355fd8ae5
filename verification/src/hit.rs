//! Where a ray meets one surface: the roots of the intersection equation
//! and the choice among them.

use vstd::prelude::*;
use crate::distance::Distance;

verus! {

/// The solutions of one surface's intersection equation for one ray.
#[derive(Clone, Copy, Debug, PartialEq, Eq, Structural)]
pub enum Roots {
    /// The equation has no real solution: the ray passes the surface by.
    Missed,
    /// The two solutions, equal where the ray only touches the surface.
    Pair(Distance, Distance),
}

impl Roots {
    /// The smaller of the two roots.
    pub open spec fn near(self) -> Distance
        recommends
            self is Pair,
    {
        if self->Pair_0.rank <= self->Pair_1.rank {
            self->Pair_0
        } else {
            self->Pair_1
        }
    }

    /// The larger of the two roots.
    pub open spec fn far(self) -> Distance
        recommends
            self is Pair,
    {
        if self->Pair_0.rank <= self->Pair_1.rank {
            self->Pair_1
        } else {
            self->Pair_0
        }
    }

    /// `t` is one of the roots.
    pub open spec fn has(self, t: Distance) -> bool {
        self is Pair && (t == self->Pair_0 || t == self->Pair_1)
    }

    /// The crossing that counts within the open interval from `t_min` to
    /// `t_max`: the smaller root if it lies strictly inside, else the larger
    /// root if that one does, else none.
    pub open spec fn crossing(self, t_min: Distance, t_max: Distance) -> Option<Distance> {
        if self is Missed {
            None
        } else if self.near().within(t_min, t_max) {
            Some(self.near())
        } else if self.far().within(t_min, t_max) {
            Some(self.far())
        } else {
            None
        }
    }

    /// Tests the surface against the ray: the distance at which the ray
    /// counts as meeting it, if it does between `t_min` and `t_max`.
    pub fn is_hit_by(&self, t_min: Distance, t_max: Distance) -> (hit: Option<Distance>)
        ensures
            hit == self.crossing(t_min, t_max),
    {
        match *self {
            Roots::Missed => None,
            Roots::Pair(a, b) => {
                let (near, far) = if a.rank <= b.rank {
                    (a, b)
                } else {
                    (b, a)
                };
                if near.is_within(t_min, t_max) {
                    Some(near)
                } else if far.is_within(t_min, t_max) {
                    Some(far)
                } else {
                    None
                }
            },
        }
    }
}

/// The meeting of a ray with a surface of the scene.
#[derive(Clone, Copy, Debug, PartialEq, Eq, Structural)]
pub struct Hit {
    /// The distance along the ray at which it meets the surface.
    pub t: Distance,
    /// The place of the surface in the scene's list.
    pub surface: usize,
}

/// The crossing is the least root strictly inside the interval, and there
/// is none exactly when no root lies strictly inside.
pub proof fn lemma_crossing_is_least(roots: Roots, t_min: Distance, t_max: Distance)
    ensures
        match roots.crossing(t_min, t_max) {
            Some(t) => {
                &&& roots.has(t)
                &&& t.within(t_min, t_max)
                &&& forall|u: Distance| roots.has(u) && u.within(t_min, t_max) ==> t.rank <= u.rank
            },
            None => forall|u: Distance| roots.has(u) ==> !u.within(t_min, t_max),
        },
{
}

/// A ray that starts outside a surface in front of it has both roots ahead:
/// the nearer one counts.
pub proof fn lemma_outside_meets_near(roots: Roots, t_min: Distance, t_max: Distance)
    requires
        roots is Pair,
        roots.near().within(t_min, t_max),
    ensures
        roots.crossing(t_min, t_max) == Some(roots.near()),
{
}

/// A ray that starts inside a surface has the nearer root behind it: the
/// farther one counts.
pub proof fn lemma_inside_meets_far(roots: Roots, t_min: Distance, t_max: Distance)
    requires
        roots is Pair,
        roots.near().rank <= t_min.rank,
        roots.far().within(t_min, t_max),
    ensures
        roots.crossing(t_min, t_max) == Some(roots.far()),
{
}

/// A ray from the centre of a sphere has the radius and its negative for
/// roots: it meets the sphere at the radius, wherever that lies inside an
/// interval that starts at or after the ray's origin.
pub proof fn lemma_centred_meets_radius(radius: Distance, t_min: Distance, t_max: Distance)
    requires
        0 <= t_min.rank,
        radius.within(t_min, t_max),
    ensures
        Roots::Pair(Distance { rank: (-radius.rank) as i64 }, radius).crossing(t_min, t_max) == Some(radius),
{
}

/// Narrowing the far end of the interval to `bound` loses no crossing
/// nearer than `bound` and finds no other.
pub proof fn lemma_crossing_narrowed(roots: Roots, t_min: Distance, bound: Distance, t_max: Distance)
    requires
        bound.rank <= t_max.rank,
    ensures
        match roots.crossing(t_min, bound) {
            Some(t) => roots.crossing(t_min, t_max) == Some(t),
            None => roots.crossing(t_min, t_max) matches Some(t) ==> bound.rank <= t.rank,
        },
{
}

} // verus!
