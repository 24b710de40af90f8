//! The tunables of the core: how many commands and how many signals may
//! wait in their queues before the sender has to wait.

use vstd::prelude::*;

verus! {

/// The capacity of the command queue where none is given.
pub const DEFAULT_COMMAND_CAPACITY: usize = 4;

/// The capacity of the signal queue where none is given.
pub const DEFAULT_SIGNAL_CAPACITY: usize = 32;

/// The largest capacity that a queue can be made with.
pub const MAX_CAPACITY: usize = usize::MAX / 8;

/// A capacity that a bounded queue can be made with.
pub open spec fn valid_capacity(capacity: usize) -> bool {
    0 < capacity <= MAX_CAPACITY
}

/// The capacities of the two queues.
#[derive(Clone, Copy, Debug, PartialEq, Eq)]
pub struct QueueCapacities {
    command: usize,
    signal: usize,
}

impl QueueCapacities {
    #[verifier::type_invariant]
    spec fn both_valid(self) -> bool {
        valid_capacity(self.command) && valid_capacity(self.signal)
    }

    /// The capacity of the command queue.
    pub closed spec fn command_capacity(self) -> usize {
        self.command
    }

    /// The capacity of the signal queue.
    pub closed spec fn signal_capacity(self) -> usize {
        self.signal
    }

    /// Four commands and thirty-two signals.
    pub fn standard() -> (capacities: QueueCapacities)
        ensures
            capacities.command_capacity() == DEFAULT_COMMAND_CAPACITY,
            capacities.signal_capacity() == DEFAULT_SIGNAL_CAPACITY,
    {
        QueueCapacities { command: DEFAULT_COMMAND_CAPACITY, signal: DEFAULT_SIGNAL_CAPACITY }
    }

    /// The given capacities, if a queue can be made with each.
    pub fn new(command: usize, signal: usize) -> (capacities: Option<QueueCapacities>)
        ensures
            capacities is Some <==> valid_capacity(command) && valid_capacity(signal),
            capacities matches Some(made) ==> made.command_capacity() == command
                && made.signal_capacity() == signal,
    {
        if 0 < command && command <= MAX_CAPACITY && 0 < signal && signal <= MAX_CAPACITY {
            Some(QueueCapacities { command, signal })
        } else {
            None
        }
    }

    /// How many commands may wait.
    pub fn command(&self) -> (capacity: usize)
        ensures
            capacity == self.command_capacity(),
            valid_capacity(capacity),
    {
        proof {
            use_type_invariant(self);
        }
        self.command
    }

    /// How many signals may wait.
    pub fn signal(&self) -> (capacity: usize)
        ensures
            capacity == self.signal_capacity(),
            valid_capacity(capacity),
    {
        proof {
            use_type_invariant(self);
        }
        self.signal
    }
}

} // verus!
