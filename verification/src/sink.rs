//! What the core asks of the sink, and the small decisions of the two sinks
//! that stand behind it.
//!
//! The sink takes the signals one at a time, in the order in which they were
//! emitted. What happens when it cannot record one is the integrator's choice
//! and is made once, as a [`FailurePolicy`].

use vstd::prelude::*;

verus! {

/// The path of the horn's state in the vehicle signal tree.
pub const HORN_SIGNAL_PATH: &'static str = "Vehicle.Body.Horn.IsActive";

/// How often, in milliseconds, the console shows the state again while no
/// new signal arrives.
pub const REFRESH_INTERVAL_MS: u64 = 500;

/// What to do when the sink could not record a signal.
#[derive(Clone, Copy, Debug, PartialEq, Eq, Structural)]
pub enum FailurePolicy {
    /// Report the failure and go on with the next signal.
    LogAndContinue,
    /// Stop delivering and hand the failure to the caller.
    Terminate,
}

/// Whether delivery goes on after one signal.
#[derive(Clone, Copy, Debug, PartialEq, Eq, Structural)]
pub enum Delivery {
    Continue,
    Stop,
}

/// Delivery stops only on a failure under [`FailurePolicy::Terminate`].
pub open spec fn delivery_after(policy: FailurePolicy, recorded: bool) -> Delivery {
    if !recorded && policy == FailurePolicy::Terminate {
        Delivery::Stop
    } else {
        Delivery::Continue
    }
}

impl FailurePolicy {
    /// Whether delivery goes on after a signal that the sink has recorded
    /// (`recorded`) or has failed to record.
    pub fn after_accept(self, recorded: bool) -> (delivery: Delivery)
        ensures
            delivery == delivery_after(self, recorded),
    {
        match self {
            FailurePolicy::Terminate => if recorded {
                Delivery::Continue
            } else {
                Delivery::Stop
            },
            FailurePolicy::LogAndContinue => Delivery::Continue,
        }
    }
}

/// The mark that the console shows for a state.
pub open spec fn glyph_of(is_active: bool) -> char {
    if is_active {
        '!'
    } else {
        '-'
    }
}

/// The console sink: it keeps the last signal and shows it again and again.
#[derive(Clone, Copy, Debug, PartialEq, Eq)]
pub struct ConsolePresenter {
    shown: bool,
}

impl View for ConsolePresenter {
    type V = bool;

    closed spec fn view(&self) -> bool {
        self.shown
    }
}

impl ConsolePresenter {
    /// A presenter that shows the horn as silent.
    pub fn new() -> (presenter: ConsolePresenter)
        ensures
            presenter@ == false,
    {
        ConsolePresenter { shown: false }
    }

    /// Takes the next signal.
    pub fn accept(&mut self, signal: bool)
        ensures
            final(self)@ == signal,
    {
        self.shown = signal;
    }

    /// The state that is shown.
    pub fn is_active(&self) -> (is_active: bool)
        ensures
            is_active == self@,
    {
        self.shown
    }

    /// The mark to print now.
    pub fn render(&self) -> (glyph: char)
        ensures
            glyph == glyph_of(self@),
    {
        if self.shown {
            '!'
        } else {
            '-'
        }
    }
}

} // verus!
