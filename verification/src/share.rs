//! Shares: a part out of a whole, kept as the two whole numbers.
//!
//! Nothing is divided here, so nothing is rounded: whoever shows a share as
//! a percentage divides `part` by `whole` and takes it a hundred times, to
//! whatever precision its numbers have.

use vstd::prelude::*;

verus! {

/// `part` out of `whole`. A share that this library makes never has a
/// `whole` of zero.
#[derive(Clone, Copy, Debug, PartialEq, Eq)]
pub struct Share {
    pub part: u64,
    pub whole: u64,
}

/// The share of `part` in `whole`. Where `whole` is zero there is nothing to
/// have a share of: that is reported as none of one, which is zero percent,
/// whatever `part` says.
pub open spec fn share_of(part: u64, whole: u64) -> Share {
    if whole == 0 {
        Share { part: 0, whole: 1 }
    } else {
        Share { part, whole }
    }
}

impl Share {
    /// The share can be divided out: its `whole` is not zero.
    pub open spec fn divides(self) -> bool {
        self.whole > 0
    }

    /// The share is zero percent.
    pub open spec fn is_nothing(self) -> bool {
        self.part == 0
    }

    /// The share is at most a hundred percent.
    pub open spec fn within_whole(self) -> bool {
        self.part <= self.whole
    }

    /// Computes [`share_of`]. The share is not clamped: a `part` above
    /// `whole` is kept, and is more than a hundred percent.
    pub fn of(part: u64, whole: u64) -> (share: Share)
        ensures
            share == share_of(part, whole),
    {
        if whole == 0 {
            Share { part: 0, whole: 1 }
        } else {
            Share { part, whole }
        }
    }
}

/// What a share stands for. It can always be divided out. Of a whole that
/// is not zero it is exactly `part` out of `whole`, so that as a percentage
/// it is `part / whole * 100`; of a whole of zero it is zero percent.
pub proof fn lemma_share_is_part_of_whole(part: u64, whole: u64)
    ensures
        share_of(part, whole).divides(),
        whole > 0 ==> share_of(part, whole).part == part && share_of(part, whole).whole == whole,
        whole == 0 ==> share_of(part, whole).is_nothing(),
        part <= whole ==> share_of(part, whole).within_whole(),
{
}

} // verus!
