//! Distances along a ray, held by their order.

use vstd::prelude::*;
use crate::binary64::{INFINITY, SIGN, is_number, rank_of};

verus! {

/// A distance along a ray, as a rank.
///
/// Ranks order as the numbers they are made from, and the rank of zero is
/// zero.
#[derive(Clone, Copy, Debug, PartialEq, Eq, Structural)]
pub struct Distance {
    pub rank: i64,
}

impl Distance {
    /// The rank is that of a number.
    pub open spec fn is_number(self) -> bool {
        -INFINITY <= self.rank <= INFINITY
    }

    /// Strictly inside the open interval from `t_min` to `t_max`.
    pub open spec fn within(self, t_min: Distance, t_max: Distance) -> bool {
        t_min.rank < self.rank < t_max.rank
    }

    pub fn is_within(self, t_min: Distance, t_max: Distance) -> (b: bool)
        ensures
            b == self.within(t_min, t_max),
    {
        t_min.rank < self.rank && self.rank < t_max.rank
    }

    /// The distance with the given binary64 pattern; none for a pattern that
    /// is not a number.
    pub fn from_bits(bits: u64) -> (d: Option<Distance>)
        ensures
            d is Some <==> is_number(bits),
            d matches Some(t) ==> t.rank == rank_of(bits) && t.is_number(),
    {
        let negative = bits >= SIGN;
        let m: u64 = if negative {
            bits - SIGN
        } else {
            bits
        };
        if m > INFINITY {
            None
        } else if negative {
            Some(Distance { rank: -(m as i64) })
        } else {
            Some(Distance { rank: m as i64 })
        }
    }

    /// The binary64 pattern of the distance, positive zero for rank zero;
    /// none for a rank that no number has.
    pub fn to_bits(self) -> (bits: Option<u64>)
        ensures
            bits is Some <==> self.is_number(),
            bits matches Some(b) ==> {
                &&& b == (if self.rank < 0 { SIGN - self.rank } else { self.rank as int })
                &&& is_number(b)
                &&& rank_of(b) == self.rank
            },
    {
        if self.rank < -(INFINITY as i64) || self.rank > INFINITY as i64 {
            None
        } else if self.rank < 0 {
            Some(SIGN + ((-self.rank) as u64))
        } else {
            Some(self.rank as u64)
        }
    }
}

} // verus!
