//! Claiming heights and bounding how far fetching may run ahead of commits.

use vstd::prelude::*;

verus! {

/// Hands out heights to fetch workers, each height exactly once.
///
/// The counter only grows. Callers that share it between workers must
/// serialise their calls to [`ClaimCounter::claim`]; under that discipline no
/// two workers ever receive the same height.
#[derive(Debug)]
pub struct ClaimCounter {
    next: usize,
}

impl ClaimCounter {
    /// The lowest height that has not been claimed yet.
    pub closed spec fn next_unclaimed(&self) -> nat {
        self.next as nat
    }

    /// A counter whose first claim yields `start`.
    pub fn new(start: usize) -> (counter: Self)
        ensures
            counter.next_unclaimed() == start,
    {
        ClaimCounter { next: start }
    }

    /// The height the next claim would yield.
    pub fn peek(&self) -> (next: usize)
        ensures
            next == self.next_unclaimed(),
    {
        self.next
    }

    /// Claims the next height and advances the counter past it.
    ///
    /// Returns `None`, leaving the counter as it was, only when the height
    /// space is exhausted: the largest `usize` is never handed out, so that a
    /// claimed height always has a successor.
    pub fn claim(&mut self) -> (claimed: Option<usize>)
        ensures
            match claimed {
                Some(height) => {
                    &&& height == old(self).next_unclaimed()
                    &&& height < usize::MAX
                    &&& final(self).next_unclaimed() == height + 1
                },
                None => {
                    &&& old(self).next_unclaimed() == usize::MAX
                    &&& *final(self) == *old(self)
                },
            },
    {
        if self.next == usize::MAX {
            None
        } else {
            let height: usize = self.next;
            self.next = height + 1;
            Some(height)
        }
    }
}

/// Whether `height` lies within `lookahead` of the last committed height.
///
/// `frontier` is the next height to be committed, so the last committed height
/// is `frontier - 1` and the condition `height <= committed + lookahead`
/// reads `height < frontier + lookahead`.
pub open spec fn within_lookahead(frontier: nat, lookahead: nat, height: nat) -> bool {
    height < frontier + lookahead
}

/// The throttle of the fetch workers: a worker holding `height` may start its
/// fetch once this returns `true` for the published `frontier`.
pub fn may_fetch(frontier: usize, lookahead: usize, height: usize) -> (allowed: bool)
    ensures
        allowed == within_lookahead(frontier as nat, lookahead as nat, height as nat),
{
    height < frontier || height - frontier < lookahead
}

/// Once the throttle lets a height through it stays open for that height:
/// the frontier only moves up.
pub proof fn throttle_stays_open(frontier: nat, later: nat, lookahead: nat, height: nat)
    requires
        frontier <= later,
        within_lookahead(frontier, lookahead, height),
    ensures
        within_lookahead(later, lookahead, height),
{
}

} // verus!
