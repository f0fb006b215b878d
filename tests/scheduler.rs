use zulipsis::cli::{skip_flags, SkipPhase};
use zulipsis::scheduler::{Action, Event, Scheduler};
use zulipsis::zulipsis::Phase;

const SECOND: u64 = 1000;

#[test]
fn skip_flags_split_the_choice() {
    assert_eq!(skip_flags(None), (false, false));
    assert_eq!(skip_flags(Some(SkipPhase::Start)), (true, false));
    assert_eq!(skip_flags(Some(SkipPhase::Pause)), (false, true));
    assert_eq!(skip_flags(Some(SkipPhase::Both)), (true, true));
}

#[test]
fn start_is_announced_unless_skipped() {
    let (_, a) = Scheduler::start(0, 300 * SECOND, None);
    assert_eq!(a, Action::Announce(Phase::Start));
    let (_, a) = Scheduler::start(0, 300 * SECOND, Some(SkipPhase::Pause));
    assert_eq!(a, Action::Announce(Phase::Start));
    let (_, a) = Scheduler::start(0, 300 * SECOND, Some(SkipPhase::Start));
    assert_eq!(a, Action::Wait);
    let (_, a) = Scheduler::start(0, 300 * SECOND, Some(SkipPhase::Both));
    assert_eq!(a, Action::Wait);
}

#[test]
fn working_fires_once_the_cycle_has_passed() {
    let (mut s, a) = Scheduler::start(0, 300 * SECOND, None);
    assert_eq!(a, Action::Announce(Phase::Start));
    assert_eq!(s.step(Event::Sent(200)), Action::Wait);
    assert_eq!(s.step(Event::Tick(299 * SECOND)), Action::Wait);
    assert_eq!(s.step(Event::Tick(300 * SECOND)), Action::Announce(Phase::Working));
    assert_eq!(s.step(Event::Sent(300 * SECOND + 100)), Action::Wait);
    // The next cycle counts from the time the working update was sent.
    assert_eq!(s.step(Event::Tick(600 * SECOND)), Action::Wait);
    assert_eq!(s.step(Event::Tick(600 * SECOND + 99)), Action::Wait);
    assert_eq!(s.step(Event::Tick(600 * SECOND + 100)), Action::Announce(Phase::Working));
    assert!(!s.is_over());
}

#[test]
fn skipped_start_fires_on_first_tick() {
    let (mut s, a) = Scheduler::start(5 * SECOND, 60 * SECOND, Some(SkipPhase::Start));
    assert_eq!(a, Action::Wait);
    assert_eq!(s.step(Event::Tick(6 * SECOND)), Action::Announce(Phase::Working));
    assert_eq!(s.step(Event::Sent(6 * SECOND)), Action::Wait);
    assert_eq!(s.step(Event::Tick(7 * SECOND)), Action::Wait);
    assert_eq!(s.step(Event::Tick(66 * SECOND)), Action::Announce(Phase::Working));
}

#[test]
fn skipped_start_near_clock_origin() {
    let (mut s, _) = Scheduler::start(0, 60 * SECOND, Some(SkipPhase::Both));
    assert_eq!(s.step(Event::Tick(SECOND)), Action::Announce(Phase::Working));
}

#[test]
fn zero_cycle_fires_on_every_tick() {
    let (mut s, _) = Scheduler::start(0, 0, Some(SkipPhase::Start));
    for t in 1..5u64 {
        assert_eq!(s.step(Event::Tick(t)), Action::Announce(Phase::Working));
        assert_eq!(s.step(Event::Sent(t)), Action::Wait);
    }
}

#[test]
fn cancel_announces_pause_then_finishes() {
    let (mut s, _) = Scheduler::start(0, 300 * SECOND, None);
    assert_eq!(s.step(Event::Sent(0)), Action::Wait);
    assert_eq!(s.step(Event::Cancel), Action::Announce(Phase::Pause));
    assert_eq!(s.step(Event::Tick(1000 * SECOND)), Action::Wait);
    assert_eq!(s.step(Event::Sent(1000 * SECOND)), Action::Finish);
    assert!(s.is_over());
    assert_eq!(s.step(Event::Tick(2000 * SECOND)), Action::Finish);
}

#[test]
fn cancel_with_pause_skipped_finishes_at_once() {
    let (mut s, _) = Scheduler::start(0, 300 * SECOND, Some(SkipPhase::Pause));
    assert_eq!(s.step(Event::Sent(0)), Action::Wait);
    assert_eq!(s.step(Event::Cancel), Action::Finish);
    assert!(s.is_over());
}

#[test]
fn no_working_after_cancel_even_with_queued_ticks() {
    let (mut s, _) = Scheduler::start(0, 10, Some(SkipPhase::Start));
    assert_eq!(s.step(Event::Cancel), Action::Announce(Phase::Pause));
    for t in 100..200u64 {
        assert_ne!(s.step(Event::Tick(t)), Action::Announce(Phase::Working));
    }
    assert_eq!(s.step(Event::Sent(300)), Action::Finish);
    for t in 300..400u64 {
        assert_eq!(s.step(Event::Tick(t)), Action::Finish);
    }
}

#[test]
fn cancel_during_an_announcement_waits_for_it() {
    let (mut s, _) = Scheduler::start(0, 300 * SECOND, None);
    assert_eq!(s.step(Event::Cancel), Action::Wait);
    assert_eq!(s.step(Event::Tick(400 * SECOND)), Action::Wait);
    assert_eq!(s.step(Event::Sent(400 * SECOND)), Action::Announce(Phase::Pause));
    assert_eq!(s.step(Event::Sent(401 * SECOND)), Action::Finish);
}

#[test]
fn failed_start_aborts() {
    let (mut s, _) = Scheduler::start(0, 300 * SECOND, None);
    assert_eq!(s.step(Event::Failed), Action::Abort);
    assert!(s.is_over());
    assert_eq!(s.step(Event::Tick(300 * SECOND)), Action::Abort);
    assert_eq!(s.step(Event::Cancel), Action::Abort);
}

#[test]
fn failed_working_aborts_without_further_phases() {
    let (mut s, _) = Scheduler::start(0, 60 * SECOND, Some(SkipPhase::Start));
    assert_eq!(s.step(Event::Tick(SECOND)), Action::Announce(Phase::Working));
    assert_eq!(s.step(Event::Failed), Action::Abort);
    for t in 2..200u64 {
        assert_eq!(s.step(Event::Tick(t * SECOND)), Action::Abort);
    }
    assert_eq!(s.step(Event::Cancel), Action::Abort);
}

#[test]
fn failed_pause_aborts() {
    let (mut s, _) = Scheduler::start(0, 60 * SECOND, Some(SkipPhase::Start));
    assert_eq!(s.step(Event::Cancel), Action::Announce(Phase::Pause));
    assert_eq!(s.step(Event::Failed), Action::Abort);
}

#[test]
fn outcomes_with_nothing_in_flight_are_ignored() {
    let (mut s, _) = Scheduler::start(0, 60 * SECOND, Some(SkipPhase::Start));
    assert_eq!(s.step(Event::Sent(5)), Action::Wait);
    assert_eq!(s.step(Event::Failed), Action::Wait);
    assert!(!s.is_over());
}

#[test]
fn clock_before_last_send_is_not_due() {
    let (mut s, _) = Scheduler::start(100 * SECOND, 60 * SECOND, Some(SkipPhase::Start));
    assert_eq!(s.step(Event::Tick(99 * SECOND)), Action::Wait);
    assert_eq!(s.step(Event::Tick(100 * SECOND)), Action::Announce(Phase::Working));
}
