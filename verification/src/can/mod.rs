//! A node-addressed command protocol carried in extended CAN frames.
//!
//! A frame of this protocol is an extended identifier that packs a command
//! code, a sender and a receiver, and a payload that holds the command's
//! arguments. `build` makes the two parts of a frame; `parse` and `try_parse`
//! read them back, and refuse whatever is not a frame of this protocol.

use bindings::{extended_raw, payload_bytes};
use data::Data;
use embedded_can::{ExtendedId, Id};
use id::{pack_spec, unpack, unpack_spec, IdFactory, NodeId};
use vstd::prelude::*;

pub mod bindings;
pub mod data;
pub mod id;

verus! {

/// Why a frame is not a frame of this protocol.
#[derive(Clone, Copy, Debug, PartialEq, Eq, Structural)]
pub enum ParseError {
    /// The identifier is a standard, 11-bit one.
    WrongIdentifierKind,
    /// The command field of the identifier holds no known code.
    UnknownCommand,
    /// The payload has not the length that the command fixes.
    MalformedPayloadLength,
    /// A payload byte that stands for an enumeration holds none of its codes.
    InvalidEnumValue,
}

/// The number an identifier holds if it is an extended one.
pub open spec fn extended_value(id: Id) -> Option<u32> {
    match id {
        Id::Standard(_) => None,
        Id::Extended(extended) => Some(extended_raw(extended)),
    }
}

/// What a frame means, given the number of its extended identifier (`None`
/// for a standard one) and its payload. The identifier kind is looked at
/// first, then the command field, then the payload.
pub open spec fn frame_spec(extended: Option<u32>, payload: Seq<u8>) -> Result<
    (NodeId, NodeId, Data),
    ParseError,
> {
    match extended {
        None => Err(ParseError::WrongIdentifierKind),
        Some(raw) => match unpack_spec(raw) {
            Err(e) => Err(e),
            Ok((command, sender, receiver)) => match Data::decode_spec(command, payload) {
                Err(e) => Err(e),
                Ok(data) => Ok((sender, receiver, data)),
            },
        },
    }
}

/// What a frame with identifier `id` and the given payload means.
pub open spec fn parse_spec(id: Id, payload: Seq<u8>) -> Result<
    (NodeId, NodeId, Data),
    ParseError,
> {
    frame_spec(extended_value(id), payload)
}

/// Reads a frame, given its identifier and its payload, and says why where
/// it is not a frame of this protocol.
pub fn try_parse(id: Id, data: &[u8]) -> (frame: Result<(NodeId, NodeId, Data), ParseError>)
    ensures
        frame == parse_spec(id, data@),
        id is Standard ==> frame == Err::<(NodeId, NodeId, Data), ParseError>(
            ParseError::WrongIdentifierKind,
        ),
{
    let extended: ExtendedId = match id {
        Id::Standard(_) => {
            return Err(ParseError::WrongIdentifierKind);
        },
        Id::Extended(extended) => extended,
    };
    let (command, sender_id, receiver_id) = match unpack(extended.as_raw()) {
        Ok(fields) => fields,
        Err(e) => {
            return Err(e);
        },
    };
    match Data::decode(command, data) {
        Ok(data) => Ok((sender_id, receiver_id, data)),
        Err(e) => Err(e),
    }
}

/// Reads a frame, given its identifier and its payload: the sender, the
/// receiver and the arguments, or `None` where it is not a frame of this
/// protocol.
pub fn parse(id: Id, data: &[u8]) -> (frame: Option<(NodeId, NodeId, Data)>)
    ensures
        frame == parse_spec(id, data@).ok(),
{
    match try_parse(id, data) {
        Ok(frame) => Some(frame),
        Err(_) => None,
    }
}

/// Makes the identifier and the payload of the frame that carries `data` from
/// `sender_id` to `receiver_id`. Parsing them gives the three back.
pub fn build(sender_id: NodeId, receiver_id: NodeId, data: &Data) -> (frame: (
    ExtendedId,
    heapless::Vec<u8, 8>,
))
    ensures
        extended_raw(frame.0) == pack_spec(
            data.command_spec().code_spec(),
            sender_id.0,
            receiver_id.0,
        ),
        payload_bytes(frame.1) == data.payload_spec(),
        parse_spec(Id::Extended(frame.0), payload_bytes(frame.1)) == Ok::<
            (NodeId, NodeId, Data),
            ParseError,
        >((sender_id, receiver_id, *data)),
{
    let id: ExtendedId = ExtendedId::build(data.command(), &sender_id, &receiver_id);
    let payload: heapless::Vec<u8, 8> = data.to_vec();
    proof {
        lemma_parse_build(sender_id, receiver_id, *data);
    }
    (id, payload)
}

/// Parsing what was built gives back the sender, the receiver and the
/// arguments, whatever they are.
pub proof fn lemma_parse_build(sender: NodeId, receiver: NodeId, data: Data)
    ensures
        frame_spec(
            Some(pack_spec(data.command_spec().code_spec(), sender.0, receiver.0)),
            data.payload_spec(),
        ) == Ok::<(NodeId, NodeId, Data), ParseError>((sender, receiver, data)),
{
    id::lemma_unpack_pack(data.command_spec(), sender, receiver);
    data::lemma_decode_payload(data);
}

/// A frame with a standard identifier is refused, whatever its identifier
/// and its payload hold.
pub proof fn lemma_standard_refused(id: Id, payload: Seq<u8>)
    requires
        id is Standard,
    ensures
        parse_spec(id, payload) == Err::<(NodeId, NodeId, Data), ParseError>(
            ParseError::WrongIdentifierKind,
        ),
{
}

} // verus!
