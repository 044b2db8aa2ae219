//! Per-user usage ledger: how many copy trades have been successfully
//! dispatched for each user, and the fixed quota they are checked against.
//!
//! The count for a user is incremented exactly once per successful
//! dispatched swap and is never decremented here; resetting is an external
//! action. Concurrent dispatch units must funnel their updates through one
//! owner of this ledger, so the increments serialize per user.

use std::collections::HashMap;
use vstd::prelude::*;

verus! {

broadcast use vstd::std_specs::hash::group_hash_axioms;

/// Successful copy trades permitted per user before dispatch is rejected.
pub const QUOTA_LIMIT: u64 = 2;

/// Usage count recorded for `user`: zero until a first success is recorded.
pub open spec fn spec_usage(m: Map<i64, u64>, user: i64) -> u64 {
    if m.contains_key(user) {
        m[user]
    } else {
        0u64
    }
}

/// Number of `true` entries among the first `i` outcomes.
pub open spec fn successes_upto(outcomes: Seq<bool>, i: int) -> int
    decreases i,
{
    if i <= 0 || i > outcomes.len() {
        0
    } else {
        successes_upto(outcomes, i - 1) + if outcomes[i - 1] {
            1int
        } else {
            0int
        }
    }
}

/// Number of successful outcomes in a settlement history.
pub open spec fn count_successes(outcomes: Seq<bool>) -> int {
    successes_upto(outcomes, outcomes.len() as int)
}

/// In-memory image of the per-user usage counts.
#[derive(Debug)]
pub struct UsageLedger {
    counts: HashMap<i64, u64>,
}

impl View for UsageLedger {
    type V = Map<i64, u64>;

    closed spec fn view(&self) -> Map<i64, u64> {
        self.counts@
    }
}

impl UsageLedger {
    /// An empty ledger: every user is at usage zero.
    pub fn new() -> (r: UsageLedger)
        ensures
            r@ == Map::<i64, u64>::empty(),
    {
        UsageLedger { counts: HashMap::new() }
    }

    /// Current usage count of `user`.
    pub fn usage_of(&self, user: i64) -> (r: u64)
        ensures
            r == spec_usage(self@, user),
    {
        match self.counts.get(&user) {
            Some(c) => *c,
            None => 0,
        }
    }

    /// Set the recorded count for `user` outright, as when loading the
    /// ledger from the external store.
    pub fn set_usage(&mut self, user: i64, count: u64)
        ensures
            final(self)@ == old(self)@.insert(user, count),
    {
        self.counts.insert(user, count);
    }

    /// Account one successful dispatched swap: the user's count grows by
    /// exactly one and no other user's count moves.
    pub fn record_success(&mut self, user: i64)
        requires
            spec_usage(old(self)@, user) < u64::MAX,
        ensures
            final(self)@ == old(self)@.insert(user, (spec_usage(old(self)@, user) + 1) as u64),
    {
        let current = self.usage_of(user);
        self.counts.insert(user, current + 1);
    }

    /// Replay a history of dispatch outcomes for one user: afterwards the
    /// count is the initial count plus exactly the number of successes,
    /// and every other user's count is untouched. This is the accounting
    /// guarantee for any number of dispatched swaps, which per-user
    /// serialization extends to concurrent ones.
    pub fn replay_outcomes(&mut self, user: i64, outcomes: &Vec<bool>)
        requires
            spec_usage(old(self)@, user) + count_successes(outcomes@) <= u64::MAX,
        ensures
            spec_usage(final(self)@, user) == spec_usage(old(self)@, user) + count_successes(
                outcomes@,
            ),
            forall|u: i64| u != user ==> spec_usage(final(self)@, u) == spec_usage(old(self)@, u),
    {
        let initial = self.usage_of(user);
        let mut i: usize = 0;
        while i < outcomes.len()
            invariant
                i <= outcomes@.len(),
                initial == spec_usage(old(self)@, user),
                initial + count_successes(outcomes@) <= u64::MAX,
                0 <= successes_upto(outcomes@, i as int) <= i,
                spec_usage(self@, user) == initial + successes_upto(outcomes@, i as int),
                forall|u: i64| u != user ==> spec_usage(self@, u) == spec_usage(old(self)@, u),
            decreases outcomes@.len() - i,
        {
            proof {
                lemma_successes_upto_bounds(outcomes@, (i + 1) as int);
                lemma_successes_upto_le_count(outcomes@, (i + 1) as int);
            }
            if outcomes[i] {
                self.record_success(user);
            }
            i += 1;
        }
    }
}

/// The partial success count is between zero and `i`.
proof fn lemma_successes_upto_bounds(outcomes: Seq<bool>, i: int)
    ensures
        0 <= successes_upto(outcomes, i) <= if i <= outcomes.len() && i >= 0 {
            i
        } else {
            outcomes.len() as int
        },
    decreases i,
{
    if i > 0 && i <= outcomes.len() {
        lemma_successes_upto_bounds(outcomes, i - 1);
    }
}

/// A prefix of the history never holds more successes than the whole.
proof fn lemma_successes_upto_le_count(outcomes: Seq<bool>, i: int)
    requires
        0 <= i <= outcomes.len(),
    ensures
        successes_upto(outcomes, i) <= count_successes(outcomes),
    decreases outcomes.len() - i,
{
    if i < outcomes.len() {
        lemma_successes_upto_le_count(outcomes, i + 1);
    }
}

/// Whether a user's usage count exceeds the quota and dispatch must be
/// rejected.
pub fn quota_exceeded(usage: u64, limit: u64) -> (r: bool)
    ensures
        r == (usage > limit),
{
    usage > limit
}

} // verus!
