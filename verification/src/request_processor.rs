//! Applying requests to a sequencer that the caller holds.
//!
//! Each function answers with the signal to emit now; the waits that follow
//! are asked from the sequencer.

use crate::command::{Command, CommandView};
use crate::request::{
    accept_activate, cycle_groups, decoded, flatten_cycles, ActivateHornRequest, DecodeError,
    HornSequence,
};
use crate::sequencer::{on_command, well_formed, Sequencer};
use vstd::prelude::*;

verus! {

/// Decodes `req` and hands the command to `sequencer`. A request that does
/// not decode leaves the sequencer as it was.
pub fn horn_request_apply(req: ActivateHornRequest, sequencer: &mut Sequencer) -> (result: Result<
    Option<bool>,
    DecodeError,
>)
    ensures
        match decoded(req@) {
            Ok(command) => final(sequencer)@ == on_command(command).next && result == Ok::<
                Option<bool>,
                DecodeError,
            >(on_command(command).signal),
            Err(error) => final(sequencer)@ == old(sequencer)@ && result == Err::<
                Option<bool>,
                DecodeError,
            >(error),
        },
{
    match accept_activate(req) {
        Ok(command) => Ok(sequencer.accept(command)),
        Err(error) => Err(error),
    }
}

/// Starts a sustained activation.
pub fn horn_continous_apply(sequencer: &mut Sequencer) -> (signal: Option<bool>)
    ensures
        final(sequencer)@ == on_command(CommandView::Continuous).next,
        signal == Some(true),
{
    sequencer.accept(Command::Continuous)
}

/// Starts the timed sequence made of the cycles of `sequences`, group after
/// group.
pub fn horn_sequence_apply(sequences: Vec<HornSequence>, sequencer: &mut Sequencer) -> (signal:
    Option<bool>)
    ensures
        final(sequencer)@ == on_command(
            CommandView::Sequenced(cycle_groups(sequences@).flatten()),
        ).next,
        signal == on_command(CommandView::Sequenced(cycle_groups(sequences@).flatten())).signal,
        well_formed(final(sequencer)@),
{
    let cycles = flatten_cycles(&sequences);
    sequencer.accept(Command::Sequenced(cycles))
}

} // verus!
