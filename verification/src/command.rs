//! Commands and the cycles they are made of.

use vstd::prelude::*;

verus! {

/// One on/off pair of a timed sequence, both durations in milliseconds.
#[derive(Clone, Copy, Debug, PartialEq, Eq, Structural)]
pub struct Cycle {
    pub on_duration: u32,
    pub off_duration: u32,
}

/// A directive to the sequencer.
#[derive(Clone, Debug, PartialEq, Eq)]
pub enum Command {
    /// Assert the signal until the next command arrives.
    Continuous,
    /// Play the cycles in order, then fall silent.
    Sequenced(Vec<Cycle>),
    /// Release the signal.
    Cancel,
}

/// The mathematical value of a [`Command`].
pub enum CommandView {
    Continuous,
    Sequenced(Seq<Cycle>),
    Cancel,
}

impl View for Command {
    type V = CommandView;

    open spec fn view(&self) -> CommandView {
        match self {
            Command::Continuous => CommandView::Continuous,
            Command::Sequenced(cycles) => CommandView::Sequenced(cycles@),
            Command::Cancel => CommandView::Cancel,
        }
    }
}

impl Cycle {
    /// A cycle that holds the signal for `on_duration` milliseconds and
    /// releases it for `off_duration` milliseconds.
    pub fn new(on_duration: u32, off_duration: u32) -> (cycle: Cycle)
        ensures
            cycle.on_duration == on_duration,
            cycle.off_duration == off_duration,
    {
        Cycle { on_duration, off_duration }
    }
}

} // verus!
