use horn_service::command::{Command, Cycle};
use horn_service::sequencer::{Event, Phase, Sequencer};

fn cycles(pairs: &[(u32, u32)]) -> Vec<Cycle> {
    pairs.iter().map(|&(on, off)| Cycle::new(on, off)).collect()
}

#[test]
fn new_sequencer_is_idle_without_timer() {
    let sequencer = Sequencer::new();
    assert!(sequencer.is_idle());
    assert!(!sequencer.is_continuous());
    assert_eq!(sequencer.position(), None);
    assert_eq!(sequencer.timer(), None);
}

#[test]
fn continuous_emits_true_and_arms_no_timer() {
    let mut sequencer = Sequencer::new();
    assert_eq!(sequencer.accept(Command::Continuous), Some(true));
    assert!(sequencer.is_continuous());
    assert_eq!(sequencer.timer(), None);
}

#[test]
fn cancel_emits_false_and_goes_idle() {
    let mut sequencer = Sequencer::new();
    sequencer.accept(Command::Continuous);
    assert_eq!(sequencer.accept(Command::Cancel), Some(false));
    assert!(sequencer.is_idle());
    assert_eq!(sequencer.timer(), None);
}

#[test]
fn cancel_on_idle_still_emits_false() {
    let mut sequencer = Sequencer::new();
    assert_eq!(sequencer.accept(Command::Cancel), Some(false));
    assert!(sequencer.is_idle());
}

#[test]
fn sequence_starts_with_true_in_first_on_phase() {
    let mut sequencer = Sequencer::new();
    let signal = sequencer.accept(Command::Sequenced(cycles(&[(100, 200), (300, 400)])));
    assert_eq!(signal, Some(true));
    assert_eq!(sequencer.position(), Some((0, Phase::On)));
    assert_eq!(sequencer.timer(), Some(100));
}

#[test]
fn empty_sequence_emits_nothing_and_returns_to_idle() {
    let mut sequencer = Sequencer::new();
    assert_eq!(sequencer.accept(Command::Sequenced(Vec::new())), None);
    assert!(sequencer.is_idle());
    assert_eq!(sequencer.timer(), None);
}

#[test]
fn empty_sequence_abandons_continuous_without_a_signal() {
    let mut sequencer = Sequencer::new();
    sequencer.accept(Command::Continuous);
    assert_eq!(sequencer.accept(Command::Sequenced(Vec::new())), None);
    assert!(sequencer.is_idle());
}

#[test]
fn expiry_walks_through_on_and_off_of_each_cycle() {
    let mut sequencer = Sequencer::new();
    sequencer.accept(Command::Sequenced(cycles(&[(10, 20), (30, 40)])));
    assert_eq!(sequencer.expire(), Some(false));
    assert_eq!(sequencer.position(), Some((0, Phase::Off)));
    assert_eq!(sequencer.timer(), Some(20));
    assert_eq!(sequencer.expire(), Some(true));
    assert_eq!(sequencer.position(), Some((1, Phase::On)));
    assert_eq!(sequencer.timer(), Some(30));
    assert_eq!(sequencer.expire(), Some(false));
    assert_eq!(sequencer.position(), Some((1, Phase::Off)));
    assert_eq!(sequencer.timer(), Some(40));
    assert_eq!(sequencer.expire(), None);
    assert!(sequencer.is_idle());
    assert_eq!(sequencer.timer(), None);
}

#[test]
fn expiry_without_timer_changes_nothing() {
    let mut sequencer = Sequencer::new();
    assert_eq!(sequencer.expire(), None);
    assert!(sequencer.is_idle());
    sequencer.accept(Command::Continuous);
    assert_eq!(sequencer.expire(), None);
    assert!(sequencer.is_continuous());
}

#[test]
fn step_dispatches_on_the_event() {
    let mut sequencer = Sequencer::new();
    let start = Event::Command(Command::Sequenced(cycles(&[(5, 6)])));
    assert_eq!(sequencer.step(start), Some(true));
    assert_eq!(sequencer.step(Event::TimerExpired), Some(false));
    assert_eq!(sequencer.step(Event::Command(Command::Continuous)), Some(true));
    assert!(sequencer.is_continuous());
}

#[test]
fn preemption_trace_cancel_back_to_back() {
    let mut sequencer = Sequencer::new();
    let trace = sequencer.replay(vec![
        Event::Command(Command::Sequenced(cycles(&[(100, 100)]))),
        Event::Command(Command::Cancel),
    ]);
    assert_eq!(trace, vec![true, false]);
    assert!(sequencer.is_idle());
    assert_eq!(sequencer.timer(), None);
}

#[test]
fn no_signal_follows_an_accepted_cancel() {
    let mut sequencer = Sequencer::new();
    let trace = sequencer.replay(vec![
        Event::Command(Command::Sequenced(cycles(&[(100, 100), (100, 100)]))),
        Event::Command(Command::Cancel),
        Event::TimerExpired,
        Event::TimerExpired,
        Event::TimerExpired,
    ]);
    assert_eq!(trace, vec![true, false]);
    assert!(sequencer.is_idle());
}

#[test]
fn cancel_in_the_off_phase_releases_again() {
    let mut sequencer = Sequencer::new();
    let trace = sequencer.replay(vec![
        Event::Command(Command::Sequenced(cycles(&[(100, 100)]))),
        Event::TimerExpired,
        Event::Command(Command::Cancel),
    ]);
    assert_eq!(trace, vec![true, false, false]);
}

#[test]
fn full_run_round_trip() {
    let mut sequencer = Sequencer::new();
    let declared = [(100, 100), (200, 300), (100, 200), (10000, 500)];
    let mut trace = Vec::new();
    let mut waits = Vec::new();
    trace.extend(sequencer.accept(Command::Sequenced(cycles(&declared))));
    while let Some(wait) = sequencer.timer() {
        waits.push(wait);
        trace.extend(sequencer.expire());
    }
    assert_eq!(trace, vec![true, false, true, false, true, false, true, false]);
    assert_eq!(waits, vec![100, 100, 200, 300, 100, 200, 10000, 500]);
    assert!(sequencer.is_idle());
}

#[test]
fn full_run_by_replay() {
    let mut sequencer = Sequencer::new();
    let mut events =
        vec![Event::Command(Command::Sequenced(cycles(&[(100, 100), (200, 300), (100, 200), (10000, 500)])))];
    for _ in 0..8 {
        events.push(Event::TimerExpired);
    }
    let trace = sequencer.replay(events);
    assert_eq!(trace, vec![true, false, true, false, true, false, true, false]);
    assert!(sequencer.is_idle());
}

#[test]
fn interleaving_continuous_then_sequence() {
    let mut sequencer = Sequencer::new();
    let trace = sequencer.replay(vec![
        Event::Command(Command::Continuous),
        Event::Command(Command::Sequenced(cycles(&[(100, 100)]))),
        Event::TimerExpired,
        Event::TimerExpired,
    ]);
    assert_eq!(trace, vec![true, true, false]);
    assert!(sequencer.is_idle());
}

#[test]
fn a_new_sequence_restarts_from_its_own_first_cycle() {
    let mut sequencer = Sequencer::new();
    sequencer.accept(Command::Sequenced(cycles(&[(1, 2), (3, 4), (5, 6)])));
    sequencer.expire();
    sequencer.expire();
    sequencer.expire();
    assert_eq!(sequencer.position(), Some((1, Phase::Off)));
    assert_eq!(sequencer.accept(Command::Sequenced(cycles(&[(7, 8)]))), Some(true));
    assert_eq!(sequencer.position(), Some((0, Phase::On)));
    assert_eq!(sequencer.timer(), Some(7));
    assert_eq!(sequencer.expire(), Some(false));
    assert_eq!(sequencer.timer(), Some(8));
    assert_eq!(sequencer.expire(), None);
    assert!(sequencer.is_idle());
}

#[test]
fn what_follows_a_command_does_not_depend_on_what_came_before() {
    let after = |prefix: Vec<Event>| {
        let mut sequencer = Sequencer::new();
        let before = sequencer.replay(prefix).len();
        let mut all = sequencer.replay(vec![
            Event::Command(Command::Sequenced(cycles(&[(9, 9), (9, 9)]))),
            Event::TimerExpired,
            Event::TimerExpired,
        ]);
        all.push(sequencer.is_idle());
        (before, all, sequencer.position(), sequencer.timer())
    };
    let fresh = after(Vec::new());
    let busy = after(vec![
        Event::Command(Command::Sequenced(cycles(&[(1, 1), (2, 2), (3, 3)]))),
        Event::TimerExpired,
        Event::TimerExpired,
        Event::TimerExpired,
    ]);
    assert_eq!(fresh.0, 0);
    assert_eq!(busy.0, 4);
    assert_eq!(fresh.1, busy.1);
    assert_eq!(fresh.1, vec![true, false, true, false]);
    assert_eq!(fresh.2, busy.2);
    assert_eq!(fresh.2, Some((1, Phase::On)));
    assert_eq!(fresh.3, busy.3);
}

#[test]
fn zero_durations_are_played_like_any_other() {
    let mut sequencer = Sequencer::new();
    assert_eq!(sequencer.accept(Command::Sequenced(cycles(&[(0, 0)]))), Some(true));
    assert_eq!(sequencer.timer(), Some(0));
    assert_eq!(sequencer.expire(), Some(false));
    assert_eq!(sequencer.timer(), Some(0));
    assert_eq!(sequencer.expire(), None);
}

#[test]
fn longest_durations_are_handed_out_unchanged() {
    let mut sequencer = Sequencer::new();
    sequencer.accept(Command::Sequenced(cycles(&[(u32::MAX, u32::MAX)])));
    assert_eq!(sequencer.timer(), Some(u32::MAX));
    sequencer.expire();
    assert_eq!(sequencer.timer(), Some(u32::MAX));
}

#[test]
fn replay_of_nothing_emits_nothing() {
    let mut sequencer = Sequencer::new();
    sequencer.accept(Command::Continuous);
    assert_eq!(sequencer.replay(Vec::new()), Vec::<bool>::new());
    assert!(sequencer.is_continuous());
}

#[test]
fn a_session_emits_what_each_command_emits_alone() {
    let session: Vec<(Command, usize)> = vec![
        (Command::Sequenced(cycles(&[(1, 1), (2, 2), (3, 3)])), 4),
        (Command::Continuous, 2),
        (Command::Sequenced(cycles(&[(4, 4)])), 0),
        (Command::Sequenced(Vec::new()), 3),
        (Command::Cancel, 1),
        (Command::Sequenced(cycles(&[(5, 5), (6, 6)])), 9),
    ];
    let mut together = Vec::new();
    let mut alone = Vec::new();
    for (command, expiries) in session {
        let mut events = vec![Event::Command(command)];
        events.extend(std::iter::repeat(Event::TimerExpired).take(expiries));
        alone.extend(Sequencer::new().replay(events.clone()));
        together.extend(events);
    }
    let mut sequencer = Sequencer::new();
    assert_eq!(sequencer.replay(together), alone);
    assert_eq!(
        alone,
        vec![
            true, false, true, false, true, // three cycles, cut in the third on phase
            true, // continuous
            true, // one cycle, cut at once
            false, // cancel
            true, false, true, false, // two cycles, played out
        ]
    );
    assert!(sequencer.is_idle());
}
