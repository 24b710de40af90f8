//! Runs of the sequencer over whole event sequences, and what holds of them.

use crate::command::{CommandView, Cycle};
use crate::sequencer::{
    armed_timer, on_command, on_event, on_expiry, well_formed, Event, EventView, Phase,
    Sequencer, StateView,
};
use vstd::prelude::*;

verus! {

/// Where a run ended and what it emitted on the way, oldest signal first.
pub struct Run {
    pub state: StateView,
    pub trace: Seq<bool>,
}

/// The signals of one transition: one or none.
pub open spec fn emitted(signal: Option<bool>) -> Seq<bool> {
    match signal {
        Some(value) => seq![value],
        None => Seq::empty(),
    }
}

/// The run that answers `events` one after the other, starting in `start`.
pub open spec fn run(start: StateView, events: Seq<EventView>) -> Run
    decreases events.len(),
{
    if events.len() == 0 {
        Run { state: start, trace: Seq::empty() }
    } else {
        let before = run(start, events.drop_last());
        let last = on_event(before.state, events.last());
        Run { state: last.next, trace: before.trace + emitted(last.signal) }
    }
}

/// `count` timer expiries in a row: playback that no command disturbs.
pub open spec fn expiries(count: nat) -> Seq<EventView> {
    Seq::new(count, |i: int| EventView::TimerExpired)
}

/// Everything that `command` emits when it is played to its end.
pub open spec fn schedule(command: CommandView) -> Seq<bool> {
    match command {
        CommandView::Continuous => seq![true],
        CommandView::Cancel => seq![false],
        CommandView::Sequenced(cycles) => Seq::new(2 * cycles.len(), |i: int| i % 2 == 0),
    }
}

/// For a timed sequence, how long each signal of its schedule is held, in
/// milliseconds.
pub open spec fn hold_times(cycles: Seq<Cycle>) -> Seq<u32> {
    Seq::new(
        2 * cycles.len(),
        |i: int|
            if i % 2 == 0 {
                cycles[i / 2].on_duration
            } else {
                cycles[i / 2].off_duration
            },
    )
}

/// The state that `command` has reached after `count` undisturbed expiries.
pub open spec fn progress(command: CommandView, count: nat) -> StateView {
    match command {
        CommandView::Continuous => StateView::Continuous,
        CommandView::Cancel => StateView::Idle,
        CommandView::Sequenced(cycles) => if count < 2 * cycles.len() {
            StateView::Sequenced {
                cycles,
                index: count as int / 2,
                phase: if count % 2 == 0 {
                    Phase::On
                } else {
                    Phase::Off
                },
            }
        } else {
            StateView::Idle
        },
    }
}

/// How many signals `command` has emitted after `count` undisturbed expiries.
pub open spec fn emitted_count(command: CommandView, count: nat) -> nat {
    if count + 1 <= schedule(command).len() {
        count + 1
    } else {
        schedule(command).len()
    }
}

/// The view of each event of `events`, in order.
pub open spec fn views(events: Seq<Event>) -> Seq<EventView> {
    Seq::new(events.len(), |i: int| events[i]@)
}

/// A run splits at any point: the second part starts where the first ended,
/// and the traces follow one another.
pub proof fn lemma_run_split(start: StateView, first: Seq<EventView>, second: Seq<EventView>)
    ensures
        run(start, first + second).state == run(run(start, first).state, second).state,
        run(start, first + second).trace == run(start, first).trace + run(
            run(start, first).state,
            second,
        ).trace,
    decreases second.len(),
{
    let middle = run(start, first).state;
    if second.len() == 0 {
        assert(first + second =~= first);
        assert(run(start, first).trace + run(middle, second).trace =~= run(start, first).trace);
    } else {
        lemma_run_split(start, first, second.drop_last());
        assert((first + second).drop_last() =~= first + second.drop_last());
        assert((first + second).last() == second.last());
        let inner = run(middle, second.drop_last());
        let last = on_event(inner.state, second.last());
        assert(run(start, first + second).trace =~= run(start, first).trace + (inner.trace
            + emitted(last.signal)));
    }
}

/// Preemption. Once a command is accepted, the state and every later signal
/// are those of a sequencer that had been idle when the command came: nothing
/// of the abandoned playback is completed, and what was emitted before stays
/// as it was.
pub proof fn law_preemption(
    start: StateView,
    before: Seq<EventView>,
    command: CommandView,
    after: Seq<EventView>,
)
    ensures
        run(start, before + seq![EventView::Command(command)] + after).state == run(
            StateView::Idle,
            seq![EventView::Command(command)] + after,
        ).state,
        run(start, before + seq![EventView::Command(command)] + after).trace == run(
            start,
            before,
        ).trace + run(StateView::Idle, seq![EventView::Command(command)] + after).trace,
{
    let arrival = seq![EventView::Command(command)];
    let abandoned = run(start, before).state;
    assert(before + arrival + after =~= before + (arrival + after));
    lemma_run_split(start, before, arrival + after);
    lemma_run_split(abandoned, arrival, after);
    lemma_run_split(StateView::Idle, arrival, after);
    lemma_run_arrival(abandoned, command);
    lemma_run_arrival(StateView::Idle, command);
}

/// The run of a single arrival is the transition of that command.
proof fn lemma_run_arrival(start: StateView, command: CommandView)
    ensures
        run(start, seq![EventView::Command(command)]).state == on_command(command).next,
        run(start, seq![EventView::Command(command)]).trace == emitted(on_command(command).signal),
{
    let arrival = seq![EventView::Command(command)];
    assert(arrival.drop_last() =~= Seq::<EventView>::empty());
    assert(run(start, arrival.drop_last()).state == start);
    assert(run(start, arrival).trace =~= emitted(on_command(command).signal));
}

/// Undisturbed playback. After a command is accepted and `count` waits have
/// run out with no other command in between, exactly the first signals of the
/// command's own schedule were emitted, one on acceptance and one for each
/// expiry until the schedule is used up, and the sequencer stands where
/// [`progress`] says. This holds whatever the sequencer was doing before.
pub proof fn law_playback(start: StateView, command: CommandView, count: nat)
    ensures
        run(start, seq![EventView::Command(command)] + expiries(count)).state == progress(
            command,
            count,
        ),
        run(start, seq![EventView::Command(command)] + expiries(count)).trace == schedule(
            command,
        ).take(emitted_count(command, count) as int),
    decreases count,
{
    let arrival = seq![EventView::Command(command)];
    if count == 0 {
        assert(arrival + expiries(0) =~= arrival);
        lemma_run_arrival(start, command);
        assert(emitted(on_command(command).signal) =~= schedule(command).take(
            emitted_count(command, 0) as int,
        ));
    } else {
        let earlier = (count - 1) as nat;
        law_playback(start, command, earlier);
        let events = arrival + expiries(count);
        assert(events.drop_last() =~= arrival + expiries(earlier));
        assert(events.last() == EventView::TimerExpired);
        let reached = progress(command, earlier);
        let last = on_expiry(reached);
        assert(last.next == progress(command, count));
        assert(schedule(command).take(emitted_count(command, earlier) as int) + emitted(
            last.signal,
        ) =~= schedule(command).take(emitted_count(command, count) as int));
    }
}

/// One playback at a time. Between the acceptance of a command and the next
/// acceptance, the signals that are emitted are a prefix of that command's own
/// schedule and nothing else: no earlier playback adds a signal of its own,
/// however far it had come.
pub proof fn law_single_playback(
    start: StateView,
    before: Seq<EventView>,
    command: CommandView,
    count: nat,
)
    ensures
        run(start, before + seq![EventView::Command(command)] + expiries(count)).trace == run(
            start,
            before,
        ).trace + schedule(command).take(emitted_count(command, count) as int),
        run(start, before + seq![EventView::Command(command)] + expiries(count)).state
            == progress(command, count),
{
    law_preemption(start, before, command, expiries(count));
    law_playback(StateView::Idle, command, count);
}

/// The first signal after a command is accepted is the command's own
/// directive: asserted for a sustained activation and for a sequence with at
/// least one cycle, released for a cancellation, and no signal at all for a
/// sequence without cycles, which leaves the sequencer idle.
pub proof fn law_directive(start: StateView, before: Seq<EventView>, command: CommandView)
    ensures
        run(start, before + seq![EventView::Command(command)]).trace == run(start, before).trace
            + emitted(on_command(command).signal),
        command is Continuous ==> on_command(command).signal == Some(true),
        command is Cancel ==> on_command(command).signal == Some(false),
        command matches CommandView::Sequenced(cycles) ==> (if cycles.len() > 0 {
            on_command(command).signal == Some(true)
        } else {
            on_command(command).signal == None::<bool> && on_command(command).next
                == StateView::Idle
        }),
{
    lemma_run_split(start, before, seq![EventView::Command(command)]);
    lemma_run_arrival(run(start, before).state, command);
}

/// A timed sequence that plays to its end emits asserted and released in
/// turn, twice as many signals as it has cycles, holds each for the duration
/// that its cycle declares, and then leaves the sequencer idle with no timer.
pub proof fn law_full_sequence(start: StateView, cycles: Seq<Cycle>, count: nat)
    ensures
        count < 2 * cycles.len() ==> armed_timer(
            run(
                start,
                seq![EventView::Command(CommandView::Sequenced(cycles))] + expiries(count),
            ).state,
        ) == Some(hold_times(cycles)[count as int]),
        count >= 2 * cycles.len() ==> run(
            start,
            seq![EventView::Command(CommandView::Sequenced(cycles))] + expiries(count),
        ) == (Run {
            state: StateView::Idle,
            trace: Seq::new(2 * cycles.len(), |i: int| i % 2 == 0),
        }),
{
    let command = CommandView::Sequenced(cycles);
    law_playback(start, command, count);
    if count >= 2 * cycles.len() {
        assert(schedule(command).take(emitted_count(command, count) as int) =~= schedule(
            command,
        ));
    }
}

/// A cancellation is final. It releases the signal once, and whatever waits
/// run out afterwards emit nothing: the sequencer stays idle until the next
/// command.
pub proof fn law_cancel_is_final(start: StateView, before: Seq<EventView>, count: nat)
    ensures
        run(start, before + seq![EventView::Command(CommandView::Cancel)] + expiries(count))
            == (Run { state: StateView::Idle, trace: run(start, before).trace + seq![false] }),
{
    law_single_playback(start, before, CommandView::Cancel, count);
    assert(schedule(CommandView::Cancel).take(emitted_count(CommandView::Cancel, count) as int)
        =~= seq![false]);
}

/// A cancellation that arrives before the first wait of a timed sequence has
/// run out cuts the sequence after its first signal: asserted once, released
/// once, and nothing more.
pub proof fn law_cancel_cuts_sequence(
    start: StateView,
    before: Seq<EventView>,
    cycles: Seq<Cycle>,
    count: nat,
)
    requires
        cycles.len() > 0,
    ensures
        run(
            start,
            before + seq![
                EventView::Command(CommandView::Sequenced(cycles)),
                EventView::Command(CommandView::Cancel),
            ] + expiries(count),
        ) == (Run { state: StateView::Idle, trace: run(start, before).trace + seq![true, false] }),
{
    let sequence = seq![EventView::Command(CommandView::Sequenced(cycles))];
    let cancel = seq![EventView::Command(CommandView::Cancel)];
    assert(before + seq![
        EventView::Command(CommandView::Sequenced(cycles)),
        EventView::Command(CommandView::Cancel),
    ] + expiries(count) =~= (before + sequence) + cancel + expiries(count));
    law_cancel_is_final(start, before + sequence, count);
    law_directive(start, before, CommandView::Sequenced(cycles));
    assert(run(start, before).trace + seq![true] + seq![false] =~= run(start, before).trace
        + seq![true, false]);
}

/// One accepted command and the number of waits that ran out undisturbed
/// before the next command was accepted.
pub struct Played {
    pub command: CommandView,
    pub expiries: nat,
}

/// The events of a whole session: each command of `session` in turn, followed
/// by its expiries.
pub open spec fn session_events(session: Seq<Played>) -> Seq<EventView>
    decreases session.len(),
{
    if session.len() == 0 {
        Seq::empty()
    } else {
        session_events(session.drop_last()) + seq![EventView::Command(session.last().command)]
            + expiries(session.last().expiries)
    }
}

/// What a whole session emits if every command plays alone: for each command
/// in turn, the first signals of its own schedule, as far as its playback
/// came.
pub open spec fn session_signals(session: Seq<Played>) -> Seq<bool>
    decreases session.len(),
{
    if session.len() == 0 {
        Seq::empty()
    } else {
        session_signals(session.drop_last()) + schedule(session.last().command).take(
            emitted_count(session.last().command, session.last().expiries) as int,
        )
    }
}

/// No overlap. Whatever commands are accepted and however far each playback
/// comes before the next command, the signals of the session are those of
/// the commands one after the other, each playing alone: at no point do two
/// playbacks emit side by side, and the sequencer ends where the last command
/// has brought it.
pub proof fn law_no_overlap(start: StateView, session: Seq<Played>)
    ensures
        run(start, session_events(session)).trace == session_signals(session),
        session.len() > 0 ==> run(start, session_events(session)).state == progress(
            session.last().command,
            session.last().expiries,
        ),
    decreases session.len(),
{
    if session.len() > 0 {
        law_no_overlap(start, session.drop_last());
        law_single_playback(
            start,
            session_events(session.drop_last()),
            session.last().command,
            session.last().expiries,
        );
    }
}

/// Every state that a run reaches from a well-formed state is well formed:
/// a timed sequence always stands at one of its own cycles.
pub proof fn law_well_formed(start: StateView, events: Seq<EventView>)
    requires
        well_formed(start),
    ensures
        well_formed(run(start, events).state),
    decreases events.len(),
{
    if events.len() > 0 {
        law_well_formed(start, events.drop_last());
    }
}

impl Sequencer {
    /// Answers `events` one after the other and returns every signal that
    /// was emitted, oldest first.
    pub fn replay(&mut self, events: Vec<Event>) -> (trace: Vec<bool>)
        ensures
            final(self)@ == run(old(self)@, views(events@)).state,
            trace@ == run(old(self)@, views(events@)).trace,
    {
        let mut trace: Vec<bool> = Vec::new();
        let ghost all = views(events@);
        let ghost start = self@;
        assert(all.take(0) =~= Seq::<EventView>::empty());
        for event in it: events
            invariant
                all == views(events@),
                it.seq() == events@,
                self@ == run(start, all.take(it.index() as int)).state,
                trace@ == run(start, all.take(it.index() as int)).trace,
        {
            let ghost done = it.index() as int;
            assert(all.take(done + 1).drop_last() =~= all.take(done));
            assert(all.take(done + 1).last() == event@);
            match self.step(event) {
                Some(signal) => trace.push(signal),
                None => {},
            }
        }
        assert(all.take(events@.len() as int) =~= all);
        trace
    }
}

} // verus!
