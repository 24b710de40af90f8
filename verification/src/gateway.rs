//! Routing between the cloud segment and the vehicle segment.
//!
//! The gateway forwards requests and responses across the two segments and
//! rewrites one address on the way: what comes from the cloud is addressed to
//! the device that hosts the service, what comes from the vehicle is given
//! the vehicle's identity. This module decides; the caller builds and sends
//! the message.

use crate::text::is_text;
use vstd::prelude::*;

verus! {

/// The authority under which the cloud side sends.
pub const CLOUD_AUTHORITY: &'static str = "cloud";

/// The authority of the device that hosts the horn service.
pub const DEVICE_AUTHORITY: &'static str = "hcp5";

/// The authority that stands for the vehicle as a whole.
pub const VEHICLE_AUTHORITY: &'static str = "WAUWAUGRRWAUWAU";

/// An address as it is read from a received message.
#[derive(Clone, Debug, PartialEq, Eq)]
pub struct Address {
    pub authority_name: String,
    pub ue_id: u32,
    pub ue_version_major: u32,
    pub resource_id: u32,
}

/// The kind of a received message.
#[derive(Clone, Copy, Debug, PartialEq, Eq, Structural)]
pub enum MessageKind {
    Request,
    Response,
    /// Anything the gateway does not forward.
    Other,
}

/// What routing reads of a received message.
#[derive(Clone, Debug, PartialEq, Eq)]
pub struct Envelope {
    pub kind: MessageKind,
    pub source: Address,
    pub sink: Address,
    pub ttl: Option<u32>,
}

/// A rewritten address, with the version and the resource cut down to the
/// widths that an address on the wire has.
#[derive(Clone, Copy, Debug, PartialEq, Eq)]
pub struct ForwardAddress {
    pub authority: &'static str,
    pub ue_id: u32,
    pub ue_version_major: u8,
    pub resource_id: u16,
}

/// How a message is sent on.
#[derive(Clone, Copy, Debug, PartialEq, Eq)]
pub enum Forward {
    /// A request to `sink`, from the source it came from, with its time to
    /// live.
    Request { sink: ForwardAddress, ttl: u32 },
    /// A response to the sink it was meant for, answering the request it
    /// names, as coming from `source`.
    Response { source: ForwardAddress },
}

/// Why a message is not sent on.
#[derive(Clone, Copy, Debug, PartialEq, Eq, Structural)]
pub enum ForwardError {
    /// Neither a request nor a response.
    UnsupportedKind,
    /// A request without a time to live.
    MissingTtl,
}

/// The authority that replaces the one of a message whose source has the
/// authority `source_authority`.
pub open spec fn forward_authority(source_authority: Seq<char>) -> Seq<char> {
    if source_authority == CLOUD_AUTHORITY@ {
        DEVICE_AUTHORITY@
    } else {
        VEHICLE_AUTHORITY@
    }
}

/// `rewritten` is `received` under `authority`: the same entity, the low
/// eight bits of its version and the low sixteen bits of its resource.
pub open spec fn rewrites(rewritten: ForwardAddress, authority: Seq<char>, received: Address) -> bool {
    &&& rewritten.authority@ == authority
    &&& rewritten.ue_id == received.ue_id
    &&& rewritten.ue_version_major == received.ue_version_major % 0x100
    &&& rewritten.resource_id == received.resource_id % 0x1_0000
}

/// Whether a message can be sent on: a response, or a request that says how
/// long it lives.
pub open spec fn forwardable(envelope: Envelope) -> bool {
    envelope.kind == MessageKind::Response || (envelope.kind == MessageKind::Request
        && envelope.ttl is Some)
}

/// The authority for messages that came from `source`.
pub fn choose_authority(source: &Address) -> (authority: &'static str)
    ensures
        authority@ == forward_authority(source.authority_name@),
{
    if is_text(&source.authority_name, CLOUD_AUTHORITY) {
        DEVICE_AUTHORITY
    } else {
        VEHICLE_AUTHORITY
    }
}

/// `received` under `authority`.
pub fn rewrite(authority: &'static str, received: &Address) -> (rewritten: ForwardAddress)
    ensures
        rewrites(rewritten, authority@, *received),
{
    ForwardAddress {
        authority,
        ue_id: received.ue_id,
        ue_version_major: (received.ue_version_major % 0x100) as u8,
        resource_id: (received.resource_id % 0x1_0000) as u16,
    }
}

/// Decides how `envelope` is sent on. A request goes to its sink under the
/// new authority; a response is given its source under the new authority.
pub fn plan_forward(envelope: &Envelope) -> (result: Result<Forward, ForwardError>)
    ensures
        result is Ok <==> forwardable(*envelope),
        match result {
            Ok(Forward::Request { sink, ttl }) => {
                &&& envelope.kind == MessageKind::Request
                &&& envelope.ttl == Some(ttl)
                &&& rewrites(sink, forward_authority(envelope.source.authority_name@), envelope.sink)
            },
            Ok(Forward::Response { source }) => {
                &&& envelope.kind == MessageKind::Response
                &&& rewrites(
                    source,
                    forward_authority(envelope.source.authority_name@),
                    envelope.source,
                )
            },
            Err(ForwardError::UnsupportedKind) => envelope.kind == MessageKind::Other,
            Err(ForwardError::MissingTtl) => envelope.kind == MessageKind::Request && envelope.ttl
                is None,
        },
{
    let authority = choose_authority(&envelope.source);
    match envelope.kind {
        MessageKind::Request => match envelope.ttl {
            Some(ttl) => Ok(Forward::Request { sink: rewrite(authority, &envelope.sink), ttl }),
            None => Err(ForwardError::MissingTtl),
        },
        MessageKind::Response => Ok(
            Forward::Response { source: rewrite(authority, &envelope.source) },
        ),
        MessageKind::Other => Err(ForwardError::UnsupportedKind),
    }
}

} // verus!
