//! The refresh scheduler: a countdown through the current time step that
//! advances with every tick, and the passes that keep the cached codes fresh.
//!
//! The countdown is kept in milliseconds, from zero to the length of one
//! step. A tick that would carry it past the end of the step puts it back to
//! zero and derives every code anew. Any other tick advances it and derives a
//! code only for the accounts that have none yet.
//!
//! Between two ticks the scheduler is idle; processing a tick is one call,
//! which takes the time of the wall clock from its caller.

use crate::engine::{derive_same_within_step, derive_spec, hashable};
use crate::registry::{Registry, RegistryView};
use crate::text::code_digits;
use vstd::prelude::*;

verus! {

/// Length of one time step, in milliseconds.
pub const STEP_MILLIS: u32 = 30_000;

/// Time between two ticks, in milliseconds.
pub const TICK_MILLIS: u32 = 200;

/// What a tick did to the cached codes.
#[derive(Debug, Clone, Copy, PartialEq, Eq, Structural)]
pub enum Pass {
    /// The countdown wrapped and every code was derived anew.
    Full,
    /// The countdown advanced; only accounts without a code got one.
    MissingOnly,
}

/// One tick as the scheduler sees it.
pub struct Tick {
    /// By how many milliseconds the countdown advances.
    pub increment: nat,
    /// The Unix time, in seconds, at which the tick is processed.
    pub now: u64,
}

/// The state that ticks act on.
#[verifier::ext_equal]
pub struct State {
    pub registry: RegistryView,
    /// Milliseconds counted since the countdown was last at zero.
    pub elapsed: nat,
}

/// Whether a tick of `increment` carries a countdown at `elapsed` past the
/// end of the step.
pub open spec fn wraps(elapsed: nat, increment: nat) -> bool {
    elapsed + increment > STEP_MILLIS
}

/// The state after one tick.
pub open spec fn step(state: State, tick: Tick) -> State {
    if wraps(state.elapsed, tick.increment) {
        State { registry: state.registry.recompute_all(tick.now), elapsed: 0 }
    } else {
        State {
            registry: state.registry.fill_missing(tick.now),
            elapsed: state.elapsed + tick.increment,
        }
    }
}

/// The state after the ticks of `ticks`, first to last.
pub open spec fn run(state: State, ticks: Seq<Tick>) -> State
    decreases ticks.len(),
{
    if ticks.len() == 0 {
        state
    } else {
        step(run(state, ticks.drop_last()), ticks.last())
    }
}

/// The milliseconds that the ticks of `ticks` span together.
pub open spec fn span(ticks: Seq<Tick>) -> nat
    decreases ticks.len(),
{
    if ticks.len() == 0 {
        0
    } else {
        span(ticks.drop_last()) + ticks.last().increment
    }
}

/// The index of the last tick of `ticks` that wrapped the countdown and so
/// ran a full pass; `None` where none of them did.
pub open spec fn last_full_pass(state: State, ticks: Seq<Tick>) -> Option<int>
    decreases ticks.len(),
{
    if ticks.len() == 0 {
        None
    } else if wraps(run(state, ticks.drop_last()).elapsed, ticks.last().increment) {
        Some(ticks.len() - 1)
    } else {
        last_full_pass(state, ticks.drop_last())
    }
}

/// Ticks add no account, drop none, and leave secrets, labels and the
/// selected index as they were.
pub proof fn run_keeps_accounts(state: State, ticks: Seq<Tick>)
    ensures
        run(state, ticks).registry.selected == state.registry.selected,
        run(state, ticks).registry.accounts.len() == state.registry.accounts.len(),
        forall|i: int|
            0 <= i < state.registry.accounts.len() ==> {
                &&& (#[trigger] run(state, ticks).registry.accounts[i]).secret
                    == state.registry.accounts[i].secret
                &&& run(state, ticks).registry.accounts[i].label == state.registry.accounts[i].label
            },
    decreases ticks.len(),
{
    if ticks.len() > 0 {
        run_keeps_accounts(state, ticks.drop_last());
    }
}

/// The countdown never passes the end of the step.
pub proof fn run_keeps_countdown_in_step(state: State, ticks: Seq<Tick>)
    requires
        state.elapsed <= STEP_MILLIS,
    ensures
        run(state, ticks).elapsed <= STEP_MILLIS,
    decreases ticks.len(),
{
    if ticks.len() > 0 {
        run_keeps_countdown_in_step(state, ticks.drop_last());
    }
}

/// After a tick every account whose secret the hash takes has a code.
pub proof fn tick_leaves_no_account_without_code(state: State, tick: Tick)
    ensures
        forall|i: int|
            0 <= i < state.registry.accounts.len() && hashable(state.registry.accounts[i].secret)
                ==> (#[trigger] step(state, tick).registry.accounts[i]).cached_code is Some,
{
}

/// While no tick wraps the countdown, it holds all that the ticks span.
pub proof fn countdown_without_full_pass(state: State, ticks: Seq<Tick>)
    requires
        last_full_pass(state, ticks) is None,
    ensures
        run(state, ticks).elapsed == state.elapsed + span(ticks),
    decreases ticks.len(),
{
    if ticks.len() > 0 {
        countdown_without_full_pass(state, ticks.drop_last());
    }
}

/// Ticks that span more than what is left of the step hold a full pass.
pub proof fn full_pass_within_a_step(state: State, ticks: Seq<Tick>)
    requires
        state.elapsed <= STEP_MILLIS,
        state.elapsed + span(ticks) > STEP_MILLIS,
    ensures
        last_full_pass(state, ticks) is Some,
{
    if last_full_pass(state, ticks) is None {
        countdown_without_full_pass(state, ticks);
        run_keeps_countdown_in_step(state, ticks);
    }
}

/// After the ticks, the code of every account whose secret the hash takes is
/// the one derived at the time of the last full pass.
pub proof fn codes_are_of_last_full_pass(state: State, ticks: Seq<Tick>)
    requires
        last_full_pass(state, ticks) is Some,
    ensures
        0 <= last_full_pass(state, ticks).unwrap() < ticks.len(),
        forall|i: int|
            0 <= i < state.registry.accounts.len() && hashable(state.registry.accounts[i].secret)
                ==> (#[trigger] run(state, ticks).registry.accounts[i]).cached_code == Some(
                code_digits(
                    derive_spec(
                        state.registry.accounts[i].secret,
                        ticks[last_full_pass(state, ticks).unwrap()].now,
                    ),
                ),
            ),
    decreases ticks.len(),
{
    let before = ticks.drop_last();
    run_keeps_accounts(state, before);
    if !wraps(run(state, before).elapsed, ticks.last().increment) {
        codes_are_of_last_full_pass(state, before);
        let k = last_full_pass(state, before).unwrap();
        assert(ticks[k] == before[k]);
    }
}

/// Since the last full pass the ticks have spanned no more than one step:
/// the countdown holds exactly what they span.
pub proof fn countdown_since_last_full_pass(state: State, ticks: Seq<Tick>)
    requires
        last_full_pass(state, ticks) is Some,
    ensures
        0 <= last_full_pass(state, ticks).unwrap() < ticks.len(),
        run(state, ticks).elapsed == span(
            ticks.subrange(last_full_pass(state, ticks).unwrap() + 1, ticks.len() as int),
        ),
        run(state, ticks).elapsed <= STEP_MILLIS,
    decreases ticks.len(),
{
    let before = ticks.drop_last();
    let len = ticks.len() as int;
    if wraps(run(state, before).elapsed, ticks.last().increment) {
        assert(ticks.subrange(len, len) =~= Seq::<Tick>::empty());
    } else {
        countdown_since_last_full_pass(state, before);
        let k = last_full_pass(state, before).unwrap();
        assert(ticks.subrange(k + 1, len).drop_last() =~= before.subrange(k + 1, len - 1));
    }
}

/// After ticks that span more than one step, every code is the one derived
/// at the last full pass, and that pass lies no more than one step back.
pub proof fn codes_fresh_after_a_step(state: State, ticks: Seq<Tick>)
    requires
        state.elapsed <= STEP_MILLIS,
        span(ticks) > STEP_MILLIS,
    ensures
        last_full_pass(state, ticks) is Some,
        0 <= last_full_pass(state, ticks).unwrap() < ticks.len(),
        forall|i: int|
            0 <= i < state.registry.accounts.len() && hashable(state.registry.accounts[i].secret)
                ==> (#[trigger] run(state, ticks).registry.accounts[i]).cached_code == Some(
                code_digits(
                    derive_spec(
                        state.registry.accounts[i].secret,
                        ticks[last_full_pass(state, ticks).unwrap()].now,
                    ),
                ),
            ),
        span(ticks.subrange(last_full_pass(state, ticks).unwrap() + 1, ticks.len() as int))
            <= STEP_MILLIS,
{
    full_pass_within_a_step(state, ticks);
    codes_are_of_last_full_pass(state, ticks);
    countdown_since_last_full_pass(state, ticks);
}

/// The codes that the last full pass left are the codes of every time in
/// the step of thirty seconds in which that pass ran.
pub proof fn codes_hold_through_the_step_of_the_pass(state: State, ticks: Seq<Tick>, time: u64)
    requires
        last_full_pass(state, ticks) is Some,
        time / 30 == ticks[last_full_pass(state, ticks).unwrap()].now / 30,
    ensures
        forall|i: int|
            0 <= i < state.registry.accounts.len() && hashable(state.registry.accounts[i].secret)
                ==> (#[trigger] run(state, ticks).registry.accounts[i]).cached_code == Some(
                code_digits(derive_spec(state.registry.accounts[i].secret, time)),
            ),
{
    codes_are_of_last_full_pass(state, ticks);
    let at = ticks[last_full_pass(state, ticks).unwrap()].now;
    assert forall|i: int|
        0 <= i < state.registry.accounts.len() && hashable(
            state.registry.accounts[i].secret,
        ) implies (#[trigger] run(state, ticks).registry.accounts[i]).cached_code == Some(
        code_digits(derive_spec(state.registry.accounts[i].secret, time)),
    ) by {
        derive_same_within_step(state.registry.accounts[i].secret, at, time);
    }
}

/// The countdown of the refresh scheduler.
#[derive(Debug)]
pub struct Scheduler {
    elapsed_ms: u32,
}

impl View for Scheduler {
    type V = nat;

    closed spec fn view(&self) -> nat {
        self.elapsed_ms as nat
    }
}

impl Scheduler {
    #[verifier::type_invariant]
    spec fn inv(self) -> bool {
        self.elapsed_ms <= STEP_MILLIS
    }

    /// A scheduler at the start of a step.
    pub fn new() -> (scheduler: Scheduler)
        ensures
            scheduler@ == 0,
    {
        Scheduler { elapsed_ms: 0 }
    }

    /// A scheduler that has counted `elapsed_ms` milliseconds of the step, or
    /// the whole step where `elapsed_ms` is longer than that.
    pub fn starting_at(elapsed_ms: u32) -> (scheduler: Scheduler)
        ensures
            elapsed_ms <= STEP_MILLIS ==> scheduler@ == elapsed_ms,
            elapsed_ms > STEP_MILLIS ==> scheduler@ == STEP_MILLIS,
    {
        if elapsed_ms <= STEP_MILLIS {
            Scheduler { elapsed_ms }
        } else {
            Scheduler { elapsed_ms: STEP_MILLIS }
        }
    }

    /// The milliseconds counted in the current step. The countdown shown is
    /// this number over `STEP_MILLIS`.
    pub fn elapsed_millis(&self) -> (elapsed: u32)
        ensures
            elapsed == self@,
            elapsed <= STEP_MILLIS,
    {
        proof {
            use_type_invariant(self);
        }
        self.elapsed_ms
    }

    /// The countdown in thousandths of a step, from 0 to 1000.
    pub fn permille(&self) -> (share: u32)
        ensures
            share == self@ * 1000 / (STEP_MILLIS as nat),
            share <= 1000,
    {
        proof {
            use_type_invariant(self);
        }
        self.elapsed_ms * 1000 / STEP_MILLIS
    }

    /// Processes one tick of the regular cadence at the Unix time `now`.
    pub fn tick(&mut self, registry: &mut Registry, now: u64) -> (pass: Pass)
        ensures
            (State { registry: final(registry)@, elapsed: final(self)@ }) == step(
                State { registry: old(registry)@, elapsed: old(self)@ },
                Tick { increment: TICK_MILLIS as nat, now },
            ),
            pass == Pass::Full <==> wraps(old(self)@, TICK_MILLIS as nat),
            final(registry)@.valid(),
            final(self)@ <= STEP_MILLIS,
    {
        self.tick_by(registry, now, TICK_MILLIS)
    }

    /// Processes one tick that advances the countdown by `increment_ms`, at
    /// the Unix time `now`. Where the countdown would pass the end of the
    /// step it goes back to zero and every code is derived anew; otherwise it
    /// advances and the accounts without a code get one.
    pub fn tick_by(&mut self, registry: &mut Registry, now: u64, increment_ms: u32) -> (pass: Pass)
        ensures
            (State { registry: final(registry)@, elapsed: final(self)@ }) == step(
                State { registry: old(registry)@, elapsed: old(self)@ },
                Tick { increment: increment_ms as nat, now },
            ),
            pass == Pass::Full <==> wraps(old(self)@, increment_ms as nat),
            final(registry)@.valid(),
            final(self)@ <= STEP_MILLIS,
    {
        proof {
            use_type_invariant(&*self);
        }
        if increment_ms > STEP_MILLIS - self.elapsed_ms {
            self.elapsed_ms = 0;
            registry.recompute_all(now);
            Pass::Full
        } else {
            self.elapsed_ms = self.elapsed_ms + increment_ms;
            registry.fill_missing(now);
            Pass::MissingOnly
        }
    }
}

} // verus!
