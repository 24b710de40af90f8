//! The software horn: the device end that turns target values into the
//! horn's current state.
//!
//! The horn listens on one key. A sample that is marked as a target value is
//! an order; every order is answered by publishing the state that the horn
//! has taken, marked as a current value.

use crate::text::is_text;
use vstd::prelude::*;

verus! {

/// The key on which the horn's state is exchanged.
pub const HORN_KEY_EXPR: &'static str = "Vehicle/Body/Horn/IsActive";

/// The attachment that marks a sample as an order.
pub const TARGET_VALUE: &'static str = "targetValue";

/// The attachment that marks a sample as a report of the horn's state.
pub const CURRENT_VALUE: &'static str = "currentValue";

/// What the horn does with a sample.
#[derive(Clone, Copy, Debug, PartialEq, Eq, Structural)]
pub enum SampleAction {
    /// Not an order: nothing happens.
    Ignore,
    /// An order whose payload is no text: nothing is published.
    RejectPayload,
    /// Take the given state and publish it as the current value.
    Publish(bool),
}

/// What a sample with the attachment `value_type` and the payload `payload`
/// asks for; each is `None` where it is missing or is no text. Only the
/// payload `true` activates the horn, any other text deactivates it.
pub open spec fn sample_action(value_type: Option<Seq<char>>, payload: Option<Seq<char>>)
    -> SampleAction {
    if value_type == Some(TARGET_VALUE@) {
        match payload {
            Some(value) => SampleAction::Publish(value == "true"@),
            None => SampleAction::RejectPayload,
        }
    } else {
        SampleAction::Ignore
    }
}

/// The text of each, where there is one.
pub open spec fn text_of(value: Option<String>) -> Option<Seq<char>> {
    match value {
        Some(text) => Some(text@),
        None => None,
    }
}

/// Decides what to do with a received sample.
pub fn interpret_sample(value_type: Option<String>, payload: Option<String>) -> (action:
    SampleAction)
    ensures
        action == sample_action(text_of(value_type), text_of(payload)),
{
    match value_type {
        Some(kind) => {
            if is_text(&kind, TARGET_VALUE) {
                match payload {
                    Some(value) => SampleAction::Publish(is_text(&value, "true")),
                    None => SampleAction::RejectPayload,
                }
            } else {
                SampleAction::Ignore
            }
        },
        None => SampleAction::Ignore,
    }
}

/// The payload that reports the state `status`.
pub fn status_payload(status: bool) -> (payload: String)
    ensures
        payload@ == (if status {
            "true"@
        } else {
            "false"@
        }),
{
    if status {
        "true".to_owned()
    } else {
        "false".to_owned()
    }
}

} // verus!
