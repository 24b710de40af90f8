//! A verified actuation sequencer for a vehicle horn.
//!
//! A command (sustained activation, a timed on/off cycle sequence, or
//! cancellation) is turned into a strictly ordered stream of boolean
//! actuation signals. A newly accepted command always supersedes whatever
//! playback is in flight.
//!
//! The crate holds the decisions only. Waiting, queues and transports are
//! left to the caller, which feeds events to the [`sequencer::Sequencer`] and
//! carries out what it answers.

pub mod command;
pub mod config;
pub mod gateway;
pub mod request;
pub mod request_processor;
pub mod sequencer;
pub mod sink;
pub mod software_horn;
pub mod text;
pub mod trace;
