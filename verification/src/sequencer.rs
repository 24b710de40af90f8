//! The sequencer: the one state machine that owns playback.
//!
//! The sequencer never waits and never sends. It is told what happened (a
//! command arrived, the armed timer ran out) and answers with the signal to
//! emit, if any; [`Sequencer::timer`] says which wait to arm next. The caller
//! races that wait against the arrival of the next command and reports
//! whichever came first.

use crate::command::{Command, CommandView, Cycle};
use vstd::prelude::*;

verus! {

/// The half of a cycle that is being held.
#[derive(Clone, Copy, Debug, PartialEq, Eq, Structural)]
pub enum Phase {
    On,
    Off,
}

/// What the sequencer is doing.
pub enum StateView {
    /// Nothing is played and no timer is armed.
    Idle,
    /// The signal stays asserted until the next command.
    Continuous,
    /// Cycle `index` of `cycles` is held in `phase`.
    Sequenced { cycles: Seq<Cycle>, index: int, phase: Phase },
}

/// What can happen to a sequencer.
#[derive(Clone, Debug, PartialEq, Eq)]
pub enum Event {
    /// The next command was taken from the queue.
    Command(Command),
    /// The wait that was armed for the current phase ran out.
    TimerExpired,
}

/// The mathematical value of an [`Event`].
pub enum EventView {
    Command(CommandView),
    TimerExpired,
}

impl View for Event {
    type V = EventView;

    open spec fn view(&self) -> EventView {
        match self {
            Event::Command(command) => EventView::Command(command@),
            Event::TimerExpired => EventView::TimerExpired,
        }
    }
}

/// The answer of the state machine to one event.
pub struct Transition {
    pub next: StateView,
    pub signal: Option<bool>,
}

/// The state and the signal that follow the arrival of `command`. Neither
/// depends on what was played before. A sequence without cycles ends at
/// once and emits nothing: whatever signal was sent last is left to stand.
pub open spec fn on_command(command: CommandView) -> Transition {
    match command {
        CommandView::Cancel => Transition { next: StateView::Idle, signal: Some(false) },
        CommandView::Continuous => Transition { next: StateView::Continuous, signal: Some(true) },
        CommandView::Sequenced(cycles) => if cycles.len() == 0 {
            Transition { next: StateView::Idle, signal: None }
        } else {
            Transition {
                next: StateView::Sequenced { cycles, index: 0, phase: Phase::On },
                signal: Some(true),
            }
        },
    }
}

/// The state and the signal that follow the natural end of the wait armed in
/// `state`. Where no wait is armed nothing changes.
pub open spec fn on_expiry(state: StateView) -> Transition {
    match state {
        StateView::Sequenced { cycles, index, phase: Phase::On } => Transition {
            next: StateView::Sequenced { cycles, index, phase: Phase::Off },
            signal: Some(false),
        },
        StateView::Sequenced { cycles, index, phase: Phase::Off } => if index + 1 < cycles.len() {
            Transition {
                next: StateView::Sequenced { cycles, index: index + 1, phase: Phase::On },
                signal: Some(true),
            }
        } else {
            Transition { next: StateView::Idle, signal: None }
        },
        _ => Transition { next: state, signal: None },
    }
}

/// The answer to `event` in `state`.
pub open spec fn on_event(state: StateView, event: EventView) -> Transition {
    match event {
        EventView::Command(command) => on_command(command),
        EventView::TimerExpired => on_expiry(state),
    }
}

/// The wait, in milliseconds, that `state` asks for: the duration of the
/// phase that is held, or none where playback does not run on a timer.
pub open spec fn armed_timer(state: StateView) -> Option<u32> {
    match state {
        StateView::Sequenced { cycles, index, phase: Phase::On } => Some(cycles[index].on_duration),
        StateView::Sequenced { cycles, index, phase: Phase::Off } => Some(
            cycles[index].off_duration,
        ),
        _ => None,
    }
}

/// A sequenced state points at one of its cycles.
pub open spec fn well_formed(state: StateView) -> bool {
    state matches StateView::Sequenced { cycles, index, .. } ==> 0 <= index < cycles.len()
}

#[derive(Clone, Copy, Debug, PartialEq, Eq, Structural)]
enum Mode {
    Idle,
    Continuous,
    Sequenced,
}

/// The playback state machine. At most one command drives it at any time.
#[derive(Debug)]
pub struct Sequencer {
    mode: Mode,
    cycles: Vec<Cycle>,
    index: usize,
    phase: Phase,
}

impl View for Sequencer {
    type V = StateView;

    closed spec fn view(&self) -> StateView {
        match self.mode {
            Mode::Idle => StateView::Idle,
            Mode::Continuous => StateView::Continuous,
            Mode::Sequenced => StateView::Sequenced {
                cycles: self.cycles@,
                index: self.index as int,
                phase: self.phase,
            },
        }
    }
}

impl Sequencer {
    #[verifier::type_invariant]
    spec fn points_at_a_cycle(self) -> bool {
        self.mode == Mode::Sequenced ==> self.index < self.cycles.len()
    }

    /// An idle sequencer.
    pub fn new() -> (sequencer: Sequencer)
        ensures
            sequencer@ == StateView::Idle,
    {
        Sequencer { mode: Mode::Idle, cycles: Vec::new(), index: 0, phase: Phase::On }
    }

    /// Takes `command` over from whatever was played. The playback in flight
    /// is abandoned where it stands; the returned signal is the command's own
    /// first directive.
    pub fn accept(&mut self, command: Command) -> (signal: Option<bool>)
        ensures
            final(self)@ == on_command(command@).next,
            signal == on_command(command@).signal,
            well_formed(final(self)@),
    {
        match command {
            Command::Cancel => {
                *self = Sequencer { mode: Mode::Idle, cycles: Vec::new(), index: 0, phase: Phase::On };
                Some(false)
            },
            Command::Continuous => {
                *self = Sequencer {
                    mode: Mode::Continuous,
                    cycles: Vec::new(),
                    index: 0,
                    phase: Phase::On,
                };
                Some(true)
            },
            Command::Sequenced(cycles) => {
                if cycles.len() == 0 {
                    *self = Sequencer { mode: Mode::Idle, cycles, index: 0, phase: Phase::On };
                    None
                } else {
                    *self = Sequencer { mode: Mode::Sequenced, cycles, index: 0, phase: Phase::On };
                    Some(true)
                }
            },
        }
    }

    /// Moves on after the armed wait ran out undisturbed.
    pub fn expire(&mut self) -> (signal: Option<bool>)
        ensures
            final(self)@ == on_expiry(old(self)@).next,
            signal == on_expiry(old(self)@).signal,
            well_formed(final(self)@),
    {
        proof {
            use_type_invariant(&*self);
        }
        match self.mode {
            Mode::Sequenced => match self.phase {
                Phase::On => {
                    self.phase = Phase::Off;
                    Some(false)
                },
                Phase::Off => {
                    if self.index + 1 < self.cycles.len() {
                        self.index = self.index + 1;
                        self.phase = Phase::On;
                        Some(true)
                    } else {
                        self.mode = Mode::Idle;
                        None
                    }
                },
            },
            _ => None,
        }
    }

    /// Answers one event.
    pub fn step(&mut self, event: Event) -> (signal: Option<bool>)
        ensures
            final(self)@ == on_event(old(self)@, event@).next,
            signal == on_event(old(self)@, event@).signal,
            well_formed(final(self)@),
    {
        match event {
            Event::Command(command) => self.accept(command),
            Event::TimerExpired => self.expire(),
        }
    }

    /// The wait to arm, in milliseconds, before the next
    /// [`Event::TimerExpired`] is due. `None`: wait for a command only.
    pub fn timer(&self) -> (wait: Option<u32>)
        ensures
            wait == armed_timer(self@),
            well_formed(self@),
    {
        proof {
            use_type_invariant(self);
        }
        match self.mode {
            Mode::Sequenced => match self.phase {
                Phase::On => Some(self.cycles[self.index].on_duration),
                Phase::Off => Some(self.cycles[self.index].off_duration),
            },
            _ => None,
        }
    }

    /// Whether nothing is being played.
    pub fn is_idle(&self) -> (idle: bool)
        ensures
            idle == (self@ == StateView::Idle),
    {
        self.mode == Mode::Idle
    }

    /// Whether the signal is held asserted without a timer.
    pub fn is_continuous(&self) -> (continuous: bool)
        ensures
            continuous == (self@ == StateView::Continuous),
    {
        self.mode == Mode::Continuous
    }

    /// The cycle and the phase that a timed sequence has reached, if one is
    /// being played.
    pub fn position(&self) -> (position: Option<(usize, Phase)>)
        ensures
            match position {
                Some((index, phase)) => self@ matches StateView::Sequenced {
                    index: i,
                    phase: p,
                    ..
                } && i == index && p == phase,
                None => !(self@ is Sequenced),
            },
    {
        match self.mode {
            Mode::Sequenced => Some((self.index, self.phase)),
            _ => None,
        }
    }
}

} // verus!
