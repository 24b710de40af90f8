//! Inbound requests and their decoding into commands.
//!
//! A request that does not decode is turned away here: it yields no command,
//! so it is never queued and never touches the playback in flight.

use crate::command::{Command, CommandView, Cycle};
use vstd::prelude::*;

verus! {

/// The mode tag of an activation request, as it came over the wire.
#[derive(Clone, Copy, Debug, PartialEq, Eq, Structural)]
pub enum HornMode {
    /// The tag was left out.
    Unspecified,
    /// The sender declared the mode unknown.
    Unknown,
    Continuous,
    Sequenced,
    /// A number that stands for no mode.
    Unrecognized(i32),
}

/// One group of cycles of an activation request.
#[derive(Clone, Debug, PartialEq, Eq)]
pub struct HornSequence {
    pub horn_cycles: Vec<Cycle>,
}

/// A request to sound the horn.
#[derive(Clone, Debug, PartialEq, Eq)]
pub struct ActivateHornRequest {
    pub mode: HornMode,
    /// The cycle groups to play in order. Read for `Sequenced` only.
    pub command: Vec<HornSequence>,
}

/// Why a request was turned away.
#[derive(Clone, Copy, Debug, PartialEq, Eq, Structural)]
pub enum DecodeError {
    UnspecifiedMode,
    UnknownMode,
    UnrecognizedMode(i32),
}

impl View for HornSequence {
    type V = Seq<Cycle>;

    open spec fn view(&self) -> Seq<Cycle> {
        self.horn_cycles@
    }
}

/// The mathematical value of an [`ActivateHornRequest`].
pub struct ActivateHornRequestView {
    pub mode: HornMode,
    pub command: Seq<Seq<Cycle>>,
}

/// The cycles of each group, in order.
pub open spec fn cycle_groups(sequences: Seq<HornSequence>) -> Seq<Seq<Cycle>> {
    Seq::new(sequences.len(), |i: int| sequences[i]@)
}

impl View for ActivateHornRequest {
    type V = ActivateHornRequestView;

    open spec fn view(&self) -> ActivateHornRequestView {
        ActivateHornRequestView { mode: self.mode, command: cycle_groups(self.command@) }
    }
}

/// The command that a request stands for, or the reason it stands for none.
/// The cycle groups of a sequenced request are played as one sequence, group
/// after group; a continuous request carries no cycles that matter.
pub open spec fn decoded(request: ActivateHornRequestView) -> Result<CommandView, DecodeError> {
    match request.mode {
        HornMode::Continuous => Ok(CommandView::Continuous),
        HornMode::Sequenced => Ok(CommandView::Sequenced(request.command.flatten())),
        HornMode::Unspecified => Err(DecodeError::UnspecifiedMode),
        HornMode::Unknown => Err(DecodeError::UnknownMode),
        HornMode::Unrecognized(tag) => Err(DecodeError::UnrecognizedMode(tag)),
    }
}

/// The cycles of all groups as one sequence, group after group.
pub fn flatten_cycles(sequences: &Vec<HornSequence>) -> (cycles: Vec<Cycle>)
    ensures
        cycles@ == cycle_groups(sequences@).flatten(),
{
    let ghost groups = cycle_groups(sequences@);
    let mut cycles: Vec<Cycle> = Vec::new();
    let mut i: usize = 0;
    assert(groups.take(0) =~= Seq::<Seq<Cycle>>::empty());
    while i < sequences.len()
        invariant
            i <= sequences.len(),
            groups == cycle_groups(sequences@),
            cycles@ == groups.take(i as int).flatten(),
        decreases sequences.len() - i,
    {
        let group = &sequences[i].horn_cycles;
        let ghost flat = cycles@;
        let mut j: usize = 0;
        while j < group.len()
            invariant
                j <= group.len(),
                cycles@ == flat + group@.take(j as int),
            decreases group.len() - j,
        {
            cycles.push(group[j]);
            j = j + 1;
            assert(group@.take(j as int) =~= group@.take(j - 1).push(group@[j - 1]));
        }
        proof {
            assert(group@.take(j as int) =~= group@);
            assert(groups.take(i + 1) =~= groups.take(i as int).push(group@));
            groups.take(i as int).lemma_flatten_push(group@);
        }
        i = i + 1;
    }
    assert(groups.take(i as int) =~= groups);
    cycles
}

/// Decodes an activation request.
pub fn accept_activate(request: ActivateHornRequest) -> (result: Result<Command, DecodeError>)
    ensures
        match result {
            Ok(command) => decoded(request@) == Ok::<CommandView, DecodeError>(command@),
            Err(error) => decoded(request@) == Err::<CommandView, DecodeError>(error),
        },
{
    match request.mode {
        HornMode::Continuous => Ok(Command::Continuous),
        HornMode::Sequenced => Ok(Command::Sequenced(flatten_cycles(&request.command))),
        HornMode::Unspecified => Err(DecodeError::UnspecifiedMode),
        HornMode::Unknown => Err(DecodeError::UnknownMode),
        HornMode::Unrecognized(tag) => Err(DecodeError::UnrecognizedMode(tag)),
    }
}

/// Decodes a deactivation request, which has no fields: always a
/// cancellation.
pub fn accept_deactivate() -> (command: Command)
    ensures
        command@ == CommandView::Cancel,
{
    Command::Cancel
}

} // verus!
