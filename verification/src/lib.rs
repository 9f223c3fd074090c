//! A reaction-time tester's core: a five-state click/timer state machine.
//!
//! The machine owns the current display state, the instant (in milliseconds)
//! at which the reaction measurement began, and the last measured reaction
//! time. It consumes two kinds of events, a primary action (a click) and a
//! deadline notification (a scheduled timer fired), and answers each with a
//! new state and, possibly, a request toward the host: schedule a deadline
//! after a delay, or cancel the pending one. A host layer renders the state
//! and delivers the events; it carries no logic of its own.

use rand::Rng;
use vstd::prelude::*;

verus! {

/// Relies on rand::Rng::random_range on `lo..hi`: a draw uniformly
/// distributed on the range, which panics only when the range is empty.
#[verifier::external_body]
fn random_in_range(lo: u64, hi: u64) -> (r: u64)
    requires
        lo < hi,
    ensures
        lo <= r < hi,
{
    rand::rng().random_range(lo..hi)
}

/// Lower bound (inclusive), in milliseconds, of the random delay before the
/// deadline fires.
pub const MIN_DELAY_MS: u64 = 500;

/// Upper bound (exclusive), in milliseconds, of the random delay before the
/// deadline fires.
pub const MAX_DELAY_MS: u64 = 3000;

/// What the tester is showing. Each variant names the label on the button
/// while the machine sits in it.
#[derive(Clone, Copy, Debug, PartialEq, Eq, Structural)]
pub enum ReactionState {
    /// Idle; no timer running, no deadline pending.
    Start,
    /// A deadline has been scheduled; a click now is a failure.
    Waiting,
    /// The user clicked during `Waiting`, too early.
    Fail,
    /// The deadline fired; the reaction measurement is running.
    Stop,
    /// The user clicked during `Stop`; the measured time is valid.
    Stopped,
}

/// The two kinds of event the machine consumes.
#[derive(Clone, Copy, Debug, PartialEq, Eq, Structural)]
pub enum EventKind {
    /// A click on the button.
    Primary,
    /// A scheduled deadline fired.
    Deadline,
}

/// A request toward the host, answered to an event.
#[derive(Clone, Copy, Debug, PartialEq, Eq, Structural)]
pub enum Action {
    /// Schedule a deadline notification after `delay_ms` milliseconds.
    ScheduleDeadline { delay_ms: u64 },
    /// Cancel the pending deadline notification, so that it cannot fire
    /// after the state has moved on.
    CancelDeadline,
}

/// The transition relation on states alone: which state follows `s` when an
/// event of kind `ev` arrives. A deadline outside `Waiting` is ignored.
pub open spec fn next_state(s: ReactionState, ev: EventKind) -> ReactionState {
    match ev {
        EventKind::Primary => match s {
            ReactionState::Start => ReactionState::Waiting,
            ReactionState::Waiting => ReactionState::Fail,
            ReactionState::Fail => ReactionState::Stopped,
            ReactionState::Stop => ReactionState::Stopped,
            ReactionState::Stopped => ReactionState::Start,
        },
        EventKind::Deadline => match s {
            ReactionState::Waiting => ReactionState::Stop,
            _ => s,
        },
    }
}

/// One full test cycle driven from outside: let the pending deadline fire
/// (a no-op outside `Waiting`), then click.
pub open spec fn deadline_then_click(s: ReactionState) -> ReactionState {
    next_state(next_state(s, EventKind::Deadline), EventKind::Primary)
}

/// `n` cycles of [`deadline_then_click`], starting from `s`.
pub open spec fn deadline_then_click_n(s: ReactionState, n: nat) -> ReactionState
    decreases n,
{
    if n == 0 {
        s
    } else {
        deadline_then_click(deadline_then_click_n(s, (n - 1) as nat))
    }
}

proof fn lemma_cycle_phase(n: nat)
    ensures
        deadline_then_click_n(ReactionState::Start, n) == if n % 3 == 0 {
            ReactionState::Start
        } else if n % 3 == 1 {
            ReactionState::Waiting
        } else {
            ReactionState::Stopped
        },
    decreases n,
{
    if n > 0 {
        lemma_cycle_phase((n - 1) as nat);
        vstd::arithmetic::div_mod::lemma_mod_bound((n - 1) as int, 3);
        vstd::arithmetic::div_mod::lemma_add_mod_noop((n - 1) as int, 1, 3);
    }
}

/// Driven from `Start` by whole cycles of "let the deadline fire, then
/// click", the machine's state walks the loop `Start -> Waiting -> Stopped`
/// (the middle cycle passes through `Stop` inside one cycle) and is back at
/// `Start` exactly when the number of cycles is a multiple of the loop's
/// length, three.
pub proof fn lemma_cycles_return_to_start(n: nat)
    ensures
        deadline_then_click_n(ReactionState::Start, n) is Start <==> n % 3 == 0,
{
    lemma_cycle_phase(n);
}

/// The reaction-time state machine.
pub struct ReactionMachine {
    /// The current display state.
    pub state: ReactionState,
    /// The instant, in host milliseconds, at which `Stop` was entered;
    /// `Some` exactly while the machine is in `Stop`.
    pub timer_start_ms: Option<u64>,
    /// The last measured reaction time in milliseconds; meaningful only in
    /// `Stopped`, and kept until overwritten by the next measurement.
    pub time_ms: u64,
}

impl ReactionMachine {
    /// The machine's invariant: the measurement start instant is held
    /// exactly while the machine is in `Stop`.
    pub open spec fn wf(self) -> bool {
        self.state is Stop <==> self.timer_start_ms is Some
    }

    /// A fresh machine: idle, no timer, no measured time.
    pub fn new() -> (m: Self)
        ensures
            m.wf(),
            m.state is Start,
            m.timer_start_ms is None,
            m.time_ms == 0,
    {
        ReactionMachine { state: ReactionState::Start, timer_start_ms: None, time_ms: 0 }
    }

    /// Handle a click. `now_ms` is the host clock's reading, in milliseconds,
    /// at the instant the click is handled; it must not run backward past the
    /// instant `Stop` was entered. Answers the host request the click calls
    /// for: entering `Waiting` schedules a deadline after a fresh random
    /// delay, leaving `Waiting` early cancels the pending one. A click during
    /// `Waiting` always yields `Fail`, however long `Waiting` was held. The
    /// measured time is written exactly on `Stop -> Stopped`, as the delta
    /// between `now_ms` and the instant `Stop` was entered.
    pub fn on_primary_action(&mut self, now_ms: u64) -> (action: Option<Action>)
        requires
            old(self).wf(),
            old(self).state is Stop ==> now_ms >= old(self).timer_start_ms->0,
        ensures
            final(self).wf(),
            final(self).state == next_state(old(self).state, EventKind::Primary),
            old(self).state is Waiting ==> final(self).state is Fail,
            final(self).timer_start_ms is None,
            old(self).state is Stop ==> final(self).time_ms == now_ms - old(self).timer_start_ms->0,
            old(self).state !is Stop ==> final(self).time_ms == old(self).time_ms,
            old(self).state is Start ==> (action matches Some(Action::ScheduleDeadline { delay_ms })
                && MIN_DELAY_MS <= delay_ms < MAX_DELAY_MS),
            old(self).state is Waiting ==> action == Some(Action::CancelDeadline),
            old(self).state is Fail || old(self).state is Stop || old(self).state is Stopped
                ==> action is None,
    {
        match self.state {
            ReactionState::Start => {
                self.state = ReactionState::Waiting;
                let delay_ms = random_in_range(MIN_DELAY_MS, MAX_DELAY_MS);
                Some(Action::ScheduleDeadline { delay_ms })
            },
            ReactionState::Waiting => {
                self.state = ReactionState::Fail;
                Some(Action::CancelDeadline)
            },
            ReactionState::Fail => {
                self.state = ReactionState::Stopped;
                None
            },
            ReactionState::Stop => {
                // `wf` makes the start instant available here, so the
                // measurement can never read an unset timer.
                let start_ms = self.timer_start_ms.unwrap();
                self.time_ms = now_ms - start_ms;
                self.timer_start_ms = None;
                self.state = ReactionState::Stopped;
                None
            },
            ReactionState::Stopped => {
                self.state = ReactionState::Start;
                None
            },
        }
    }

    /// Handle a deadline notification. `now_ms` is the host clock's reading,
    /// in milliseconds, at the instant the notification is handled. Only
    /// meaningful in `Waiting`, where the reaction measurement begins at
    /// `now_ms`; in every other state — in particular after a cancellation
    /// lost the race with a deadline that had already fired — the event
    /// changes nothing at all.
    pub fn on_deadline_elapsed(&mut self, now_ms: u64)
        requires
            old(self).wf(),
        ensures
            final(self).wf(),
            final(self).state == next_state(old(self).state, EventKind::Deadline),
            final(self).time_ms == old(self).time_ms,
            old(self).state is Waiting ==> final(self).timer_start_ms == Some(now_ms),
            old(self).state !is Waiting ==> *final(self) == *old(self),
    {
        if self.state == ReactionState::Waiting {
            self.timer_start_ms = Some(now_ms);
            self.state = ReactionState::Stop;
        }
    }
}

} // verus!
