//! The decisions of the announcement loop. The caller owns the clock, the
//! timer, the interrupt and the network; it hands each event to
//! [`Scheduler::step`] and carries out the action that comes back.
//!
//! All times are read from one monotonic clock, in one unit of the caller's
//! choosing, and the cycle duration is given in that unit too.
use vstd::prelude::*;

use crate::cli::{skip_flags, SkipPhase};
use crate::zulipsis::Phase;

verus! {

/// Something that happened, as seen by the loop.
#[derive(Debug, Clone, Copy, PartialEq, Eq, Structural)]
pub enum Event {
    /// The periodic timer fired; the clock reads the given time.
    Tick(u64),
    /// The operator asked to stop.
    Cancel,
    /// The announcement in flight was sent; the clock reads the given time.
    Sent(u64),
    /// The announcement in flight could not be sent.
    Failed,
}

/// What the caller is to do next.
#[derive(Debug, Clone, Copy, PartialEq, Eq, Structural)]
pub enum Action {
    /// Send an announcement for the phase, then report `Sent` or `Failed`.
    Announce(Phase),
    /// Nothing to do: wait for the next event.
    Wait,
    /// Stop; the run ended as asked.
    Finish,
    /// Stop; an announcement failed and the run ends in error.
    Abort,
}

/// Whether the loop still runs, and how it ended.
#[derive(Debug, Clone, Copy, PartialEq, Eq, Structural)]
pub enum RunState {
    Running,
    Finished,
    Aborted,
}

/// The state of the loop, as plain values.
pub ghost struct SchedulerView {
    /// How long to wait between two working announcements.
    pub cycle: nat,
    /// Whether cancellation ends the run without a pause announcement.
    pub skip_pause: bool,
    /// When the last working announcement was sent, or the start of the run;
    /// may lie before the start when the start announcement is skipped.
    pub last_send: int,
    /// The announcement in flight, if any.
    pub awaiting: Option<Phase>,
    /// Whether cancellation has been observed.
    pub cancelled: bool,
    pub state: RunState,
}

impl SchedulerView {
    /// Whether a working announcement is due at `now`.
    pub open spec fn due(self, now: int) -> bool {
        now - self.last_send >= self.cycle
    }

    /// The state is one that the loop can reach: an announcement is in
    /// flight only while it runs, the pause announcement only after
    /// cancellation, and a running loop that saw cancellation is announcing.
    pub open spec fn wf(self) -> bool {
        &&& (self.awaiting is Some ==> self.state is Running)
        &&& (self.awaiting == Some(Phase::Pause) ==> self.cancelled)
        &&& (self.cancelled && self.state is Running ==> self.awaiting is Some)
    }
}

/// The loop's answer to cancellation, once nothing is in flight: announce
/// the pause, or finish at once where it is skipped.
pub open spec fn on_cancel(s: SchedulerView) -> (SchedulerView, Action) {
    let s = SchedulerView { cancelled: true, ..s };
    if s.skip_pause {
        (SchedulerView { state: RunState::Finished, ..s }, Action::Finish)
    } else {
        (SchedulerView { awaiting: Some(Phase::Pause), ..s }, Action::Announce(Phase::Pause))
    }
}

/// The state in which the loop begins at `now`, and its first action: the
/// start announcement, or, where it is skipped, a wait with the last
/// announcement dated one full cycle back.
pub open spec fn start_spec(now: u64, cycle: u64, skip: Option<SkipPhase>) -> (
    SchedulerView,
    Action,
) {
    let skip_start = skip matches Some(k) && k.skips_start_spec();
    let skip_pause = skip matches Some(k) && k.skips_pause_spec();
    let s = SchedulerView {
        cycle: cycle as nat,
        skip_pause,
        last_send: if skip_start {
            now - cycle
        } else {
            now as int
        },
        awaiting: if skip_start {
            None
        } else {
            Some(Phase::Start)
        },
        cancelled: false,
        state: RunState::Running,
    };
    if skip_start {
        (s, Action::Wait)
    } else {
        (s, Action::Announce(Phase::Start))
    }
}

/// One step of the loop: the next state and the action for event `e`.
pub open spec fn step_spec(s: SchedulerView, e: Event) -> (SchedulerView, Action) {
    match s.state {
        RunState::Finished => (s, Action::Finish),
        RunState::Aborted => (s, Action::Abort),
        RunState::Running => match s.awaiting {
            Some(p) => match e {
                Event::Sent(now) => {
                    let s1 = SchedulerView {
                        awaiting: None,
                        last_send: if p is Working {
                            now as int
                        } else {
                            s.last_send
                        },
                        ..s
                    };
                    if p is Pause {
                        (SchedulerView { state: RunState::Finished, ..s1 }, Action::Finish)
                    } else if s.cancelled {
                        on_cancel(s1)
                    } else {
                        (s1, Action::Wait)
                    }
                },
                Event::Failed => (
                    SchedulerView { awaiting: None, state: RunState::Aborted, ..s },
                    Action::Abort,
                ),
                Event::Cancel => (SchedulerView { cancelled: true, ..s }, Action::Wait),
                Event::Tick(_) => (s, Action::Wait),
            },
            None => match e {
                Event::Tick(now) => if s.due(now as int) {
                    (
                        SchedulerView { awaiting: Some(Phase::Working), ..s },
                        Action::Announce(Phase::Working),
                    )
                } else {
                    (s, Action::Wait)
                },
                Event::Cancel => on_cancel(s),
                _ => (s, Action::Wait),
            },
        },
    }
}

/// The actions that the loop takes, from state `s`, for the events `es` in
/// turn.
pub open spec fn run(s: SchedulerView, es: Seq<Event>) -> Seq<Action>
    decreases es.len(),
{
    if es.len() == 0 {
        Seq::empty()
    } else {
        let (s1, a) = step_spec(s, es[0]);
        seq![a] + run(s1, es.drop_first())
    }
}

/// The loop begins in a well-formed state.
pub proof fn lemma_start_wf(now: u64, cycle: u64, skip: Option<SkipPhase>)
    ensures
        start_spec(now, cycle, skip).0.wf(),
{
}

/// Every step keeps the state well-formed.
pub proof fn lemma_step_wf(s: SchedulerView, e: Event)
    requires
        s.wf(),
    ensures
        step_spec(s, e).0.wf(),
{
}

/// When the start announcement is skipped, the first tick of the run, at
/// any time from its start on, finds a working announcement due.
pub proof fn lemma_skipped_start_fires_first_tick(
    now: u64,
    cycle: u64,
    skip: Option<SkipPhase>,
    t: u64,
)
    requires
        skip matches Some(k) && k.skips_start_spec(),
        now <= t,
    ensures
        step_spec(start_spec(now, cycle, skip).0, Event::Tick(t)).1 == Action::Announce(
            Phase::Working,
        ),
{
}

/// With nothing in flight, a tick announces the working phase exactly when
/// a full cycle has passed since the last announcement, and is otherwise a
/// no-op.
pub proof fn lemma_cycle_gating(s: SchedulerView, now: u64)
    requires
        s.wf(),
        s.state is Running,
        s.awaiting is None,
    ensures
        step_spec(s, Event::Tick(now)).1 == Action::Announce(Phase::Working) <==> now
            - s.last_send >= s.cycle,
        now - s.last_send < s.cycle ==> step_spec(s, Event::Tick(now)) == (s, Action::Wait),
{
}

proof fn lemma_quiet_after_cancel(s: SchedulerView, es: Seq<Event>)
    requires
        s.wf(),
        s.cancelled || !(s.state is Running),
    ensures
        forall|i: int|
            0 <= i < run(s, es).len() ==> run(s, es)[i] != Action::Announce(Phase::Working),
    decreases es.len(),
{
    if es.len() > 0 {
        let (s1, a) = step_spec(s, es[0]);
        lemma_step_wf(s, es[0]);
        lemma_quiet_after_cancel(s1, es.drop_first());
        assert(a != Action::Announce(Phase::Working));
        let r = run(s, es);
        assert forall|i: int| 0 <= i < r.len() implies r[i] != Action::Announce(Phase::Working) by {
            if i > 0 {
                assert(r[i] == run(s1, es.drop_first())[i - 1]);
            }
        }
    }
}

/// Once cancellation is observed, no working announcement follows, whatever
/// events come after it.
pub proof fn lemma_no_working_after_cancel(s: SchedulerView, es: Seq<Event>)
    requires
        s.wf(),
    ensures
        forall|i: int|
            0 <= i < run(step_spec(s, Event::Cancel).0, es).len() ==> run(
                step_spec(s, Event::Cancel).0,
                es,
            )[i] != Action::Announce(Phase::Working),
{
    lemma_step_wf(s, Event::Cancel);
    lemma_quiet_after_cancel(step_spec(s, Event::Cancel).0, es);
}

proof fn lemma_aborted_stays(s: SchedulerView, es: Seq<Event>)
    requires
        s.state is Aborted,
    ensures
        forall|i: int| 0 <= i < run(s, es).len() ==> run(s, es)[i] == Action::Abort,
    decreases es.len(),
{
    if es.len() > 0 {
        lemma_aborted_stays(s, es.drop_first());
        let r = run(s, es);
        assert forall|i: int| 0 <= i < r.len() implies r[i] == Action::Abort by {
            if i > 0 {
                assert(r[i] == run(s, es.drop_first())[i - 1]);
            }
        }
    }
}

/// A failed announcement, of any phase, stops the loop in error at once,
/// and every later event is answered with the same error.
pub proof fn lemma_failure_is_fatal(s: SchedulerView, es: Seq<Event>)
    requires
        s.wf(),
        s.awaiting is Some,
    ensures
        step_spec(s, Event::Failed).1 == Action::Abort,
        step_spec(s, Event::Failed).0.state is Aborted,
        forall|i: int|
            0 <= i < run(step_spec(s, Event::Failed).0, es).len() ==> run(
                step_spec(s, Event::Failed).0,
                es,
            )[i] == Action::Abort,
{
    lemma_aborted_stays(step_spec(s, Event::Failed).0, es);
}

/// The decisions of the announcement loop.
pub struct Scheduler {
    cycle: u64,
    skip_pause: bool,
    /// The time of the last working announcement, or of the start.
    last_send: u64,
    /// Whether `last_send` is to be read one cycle earlier.
    backdated: bool,
    awaiting: Option<Phase>,
    cancelled: bool,
    state: RunState,
}

impl View for Scheduler {
    type V = SchedulerView;

    closed spec fn view(&self) -> SchedulerView {
        SchedulerView {
            cycle: self.cycle as nat,
            skip_pause: self.skip_pause,
            last_send: if self.backdated {
                self.last_send - self.cycle
            } else {
                self.last_send as int
            },
            awaiting: self.awaiting,
            cancelled: self.cancelled,
            state: self.state,
        }
    }
}

impl Scheduler {
    /// Begins a run at `now` with the given cycle duration and skip choice.
    pub fn start(now: u64, cycle: u64, skip: Option<SkipPhase>) -> (r: (Scheduler, Action))
        ensures
            (r.0@, r.1) == start_spec(now, cycle, skip),
    {
        let (skip_start, skip_pause) = skip_flags(skip);
        let s = Scheduler {
            cycle,
            skip_pause,
            last_send: now,
            backdated: skip_start,
            awaiting: if skip_start {
                None
            } else {
                Some(Phase::Start)
            },
            cancelled: false,
            state: RunState::Running,
        };
        let a = if skip_start {
            Action::Wait
        } else {
            Action::Announce(Phase::Start)
        };
        (s, a)
    }

    fn is_due(&self, now: u64) -> (r: bool)
        ensures
            r == self@.due(now as int),
    {
        if self.backdated {
            now >= self.last_send
        } else {
            now >= self.last_send && now - self.last_send >= self.cycle
        }
    }

    fn cancel(&mut self) -> (r: Action)
        requires
            old(self).awaiting is None,
        ensures
            (final(self)@, r) == on_cancel(old(self)@),
    {
        self.cancelled = true;
        if self.skip_pause {
            self.state = RunState::Finished;
            Action::Finish
        } else {
            self.awaiting = Some(Phase::Pause);
            Action::Announce(Phase::Pause)
        }
    }

    /// Takes one event and says what to do next.
    pub fn step(&mut self, e: Event) -> (r: Action)
        ensures
            (final(self)@, r) == step_spec(old(self)@, e),
    {
        match self.state {
            RunState::Finished => return Action::Finish,
            RunState::Aborted => return Action::Abort,
            RunState::Running => {},
        }
        match self.awaiting {
            Some(p) => match e {
                Event::Sent(now) => {
                    self.awaiting = None;
                    if let Phase::Working = p {
                        self.last_send = now;
                        self.backdated = false;
                    }
                    if let Phase::Pause = p {
                        self.state = RunState::Finished;
                        Action::Finish
                    } else if self.cancelled {
                        self.cancel()
                    } else {
                        Action::Wait
                    }
                },
                Event::Failed => {
                    self.awaiting = None;
                    self.state = RunState::Aborted;
                    Action::Abort
                },
                Event::Cancel => {
                    self.cancelled = true;
                    Action::Wait
                },
                Event::Tick(_) => Action::Wait,
            },
            None => match e {
                Event::Tick(now) => {
                    if self.is_due(now) {
                        self.awaiting = Some(Phase::Working);
                        Action::Announce(Phase::Working)
                    } else {
                        Action::Wait
                    }
                },
                Event::Cancel => self.cancel(),
                _ => Action::Wait,
            },
        }
    }

    /// Whether the run has ended, either way.
    pub fn is_over(&self) -> (r: bool)
        ensures
            r == !(self@.state is Running),
    {
        match self.state {
            RunState::Running => false,
            _ => true,
        }
    }
}

} // verus!
