//! The sampler: what to do each time the background timer fires.
//!
//! The timer and the lock belong to the process that runs the service. On
//! every tick it tries the store's lock and tells the sampler how that went.
//! The sampler answers with the refresh to make, and counts it. A tick is
//! never refused and never fails, so the sampler has one state and stays in
//! it; a tick that finds the lock poisoned is let go.

use crate::store::Refresh;
use vstd::arithmetic::div_mod::{lemma_div_by_self, lemma_div_is_ordered};
use vstd::prelude::*;

verus! {

/// The interval between two ticks where none is chosen, in milliseconds.
pub const DEFAULT_INTERVAL_MS: u64 = 1000;

/// What a sampler holds: the interval of its timer in milliseconds, and the
/// partial refreshes it has asked for.
pub struct SamplerState {
    pub interval_ms: nat,
    pub refreshes: nat,
}

/// The state after one tick that had the lock: one refresh more. The count
/// stops at the largest number it can hold.
pub open spec fn after_tick(state: SamplerState) -> SamplerState {
    SamplerState {
        interval_ms: state.interval_ms,
        refreshes: if state.refreshes < u64::MAX {
            state.refreshes + 1
        } else {
            state.refreshes
        },
    }
}

/// The state after `ticks` ticks in a row that had the lock.
pub open spec fn after_ticks(state: SamplerState, ticks: nat) -> SamplerState
    decreases ticks,
{
    if ticks == 0 {
        state
    } else {
        after_tick(after_ticks(state, (ticks - 1) as nat))
    }
}

/// The background sampler: the interval of its timer, which is never zero,
/// and the count of the refreshes it has asked for.
pub struct Sampler {
    interval_ms: u64,
    refreshes: u64,
}

impl View for Sampler {
    type V = SamplerState;

    closed spec fn view(&self) -> SamplerState {
        SamplerState { interval_ms: self.interval_ms as nat, refreshes: self.refreshes as nat }
    }
}

impl Sampler {
    #[verifier::type_invariant]
    spec fn interval_is_positive(self) -> bool {
        self.interval_ms > 0
    }

    /// A sampler for a timer of [`DEFAULT_INTERVAL_MS`], with no refresh made.
    pub fn new() -> (sampler: Sampler)
        ensures
            sampler@ == (SamplerState { interval_ms: DEFAULT_INTERVAL_MS as nat, refreshes: 0 }),
    {
        Sampler { interval_ms: DEFAULT_INTERVAL_MS, refreshes: 0 }
    }

    /// A sampler for a timer of `interval_ms`, with no refresh made. A timer
    /// cannot fire every zero milliseconds: that interval is refused.
    pub fn with_interval(interval_ms: u64) -> (sampler: Option<Sampler>)
        ensures
            interval_ms == 0 <==> sampler is None,
            sampler matches Some(s) ==> s@ == (SamplerState {
                interval_ms: interval_ms as nat,
                refreshes: 0,
            }),
    {
        if interval_ms == 0 {
            None
        } else {
            Some(Sampler { interval_ms, refreshes: 0 })
        }
    }

    /// The interval to run the timer at, in milliseconds. It is never zero.
    pub fn interval_ms(&self) -> (ms: u64)
        ensures
            ms == self@.interval_ms,
            ms > 0,
    {
        proof {
            use_type_invariant(self);
        }
        self.interval_ms
    }

    /// The partial refreshes asked for so far.
    pub fn refreshes(&self) -> (count: u64)
        ensures
            count == self@.refreshes,
    {
        self.refreshes
    }

    /// Handles one tick of the timer. Where the store's lock was had, the
    /// answer is a partial refresh, to be made under that lock, and the
    /// refresh is counted. Where the lock was not had the tick is dropped:
    /// there is nothing to do and nothing is counted.
    pub fn on_tick(&mut self, lock_held: bool) -> (action: Option<Refresh>)
        ensures
            lock_held ==> action == Some(Refresh::Partial) && final(self)@ == after_tick(
                old(self)@,
            ),
            !lock_held ==> action is None && final(self)@ == old(self)@,
    {
        proof {
            use_type_invariant(&*self);
        }
        if lock_held {
            if self.refreshes < u64::MAX {
                self.refreshes = self.refreshes + 1;
            }
            Some(Refresh::Partial)
        } else {
            None
        }
    }
}

/// Every tick that had the lock makes one refresh: after `ticks` of them the
/// count has grown by `ticks`, short of the largest number it can hold, and
/// the interval is as it was.
pub proof fn lemma_one_refresh_per_tick(state: SamplerState, ticks: nat)
    ensures
        after_ticks(state, ticks).interval_ms == state.interval_ms,
        state.refreshes + ticks <= u64::MAX ==> after_ticks(state, ticks).refreshes
            == state.refreshes + ticks,
        state.refreshes <= u64::MAX < state.refreshes + ticks ==> after_ticks(
            state,
            ticks,
        ).refreshes == u64::MAX,
    decreases ticks,
{
    if ticks > 0 {
        lemma_one_refresh_per_tick(state, (ticks - 1) as nat);
    }
}

/// A sampler keeps pace with its timer. Where the timer has fired at least
/// once for every full interval of the `elapsed_ms` gone by, and every tick
/// had the lock, the sampler has asked for at least that many refreshes in
/// them: at least one as soon as a whole interval has gone by.
pub proof fn lemma_refreshes_keep_pace(state: SamplerState, elapsed_ms: nat, ticks: nat)
    requires
        state.interval_ms > 0,
        ticks >= elapsed_ms / state.interval_ms,
        state.refreshes + ticks <= u64::MAX,
    ensures
        after_ticks(state, ticks).refreshes - state.refreshes >= elapsed_ms / state.interval_ms,
        elapsed_ms >= state.interval_ms ==> after_ticks(state, ticks).refreshes
            > state.refreshes,
{
    lemma_one_refresh_per_tick(state, ticks);
    if elapsed_ms >= state.interval_ms {
        lemma_div_is_ordered(
            state.interval_ms as int,
            elapsed_ms as int,
            state.interval_ms as int,
        );
        lemma_div_by_self(state.interval_ms as int);
    }
}

/// The same in whole seconds: after `seconds` with no request made, a
/// sampler whose timer has fired once for every full interval of them has
/// asked for at least `seconds * 1000 / interval` partial refreshes.
pub proof fn lemma_refreshes_keep_pace_in_seconds(state: SamplerState, seconds: nat, ticks: nat)
    requires
        state.interval_ms > 0,
        ticks >= seconds * 1000 / state.interval_ms,
        state.refreshes + ticks <= u64::MAX,
    ensures
        after_ticks(state, ticks).refreshes - state.refreshes >= seconds * 1000
            / state.interval_ms,
{
    lemma_refreshes_keep_pace(state, seconds * 1000, ticks);
}

} // verus!
