//! Node addresses, command codes, and the 29-bit identifier that carries them.

use super::bindings::{bit_range, extended_raw, get_bits};
use super::ParseError;
use embedded_can::ExtendedId;
use vstd::prelude::*;
use vstd::std_specs::convert::{FromSpecImpl, TryFromSpecImpl};

verus! {

/// Width in bits of the command field of an identifier.
pub const COMMAND_BITS: u32 = 13;

/// Width in bits of the sender field of an identifier.
pub const SENDER_BITS: u32 = 8;

/// Width in bits of the receiver field of an identifier.
pub const RECEIVER_BITS: u32 = 8;

/// Position of the lowest bit of the receiver field.
pub const RECEIVER_SHIFT: u32 = 0;

/// Position of the lowest bit of the sender field.
pub const SENDER_SHIFT: u32 = 8;

/// Position of the lowest bit of the command field.
pub const COMMAND_SHIFT: u32 = 16;

/// What one step of the sender field is worth: two to the power `SENDER_SHIFT`.
pub const SENDER_UNIT: u32 = 0x100;

/// What one step of the command field is worth: two to the power `COMMAND_SHIFT`.
pub const COMMAND_UNIT: u32 = 0x1_0000;

/// The number of addresses: two to the power `SENDER_BITS`, and `RECEIVER_BITS`.
pub const ADDRESS_LIMIT: u32 = 0x100;

/// The number of command codes: two to the power `COMMAND_BITS`.
pub const CODE_LIMIT: u32 = 0x2000;

/// The largest value of an extended identifier: 29 bits set.
pub const MAX_IDENTIFIER: u32 = 0x1FFF_FFFF;

/// The number of extended identifiers: two to the power 29.
pub const IDENTIFIER_LIMIT: u32 = 0x2000_0000;

/// The address that means every node.
pub const BROADCAST_ADDRESS: u8 = 0xFF;

/// The code of `Command::Stop`.
pub const STOP_CODE: u16 = 0x0000;

/// The code of `Command::Ping`.
pub const PING_CODE: u16 = 0x0001;

/// The code of `Command::Pong`.
pub const PONG_CODE: u16 = 0x0002;

/// The code of `Command::SetDuty`.
pub const SET_DUTY_CODE: u16 = 0x0020;

/// The code of `Command::NotifySwitchState`.
pub const NOTIFY_SWITCH_STATE_CODE: u16 = 0x0B00;

/// The last code of the system range, which starts at zero.
pub const SYSTEM_LAST: u16 = 0x001F;

/// The last code of the control range, which starts after the system range.
pub const CONTROL_LAST: u16 = 0x0AFF;

/// The last code of the telemetry range, which starts after the control range.
pub const TELEMETRY_LAST: u16 = 0x15DF;

/// The last code of the config range, which starts after the telemetry range
/// and ends with the last code of 13 bits.
pub const CONFIG_LAST: u16 = 0x1FFF;

/// The four ranges that command codes are drawn from.
#[derive(Clone, Copy, Debug, PartialEq, Eq, Structural)]
pub enum CommandRange {
    /// System commands: `0x0000 ..= 0x001F`.
    System,
    /// Control commands: `0x0020 ..= 0x0AFF`.
    Control,
    /// Telemetry commands: `0x0B00 ..= 0x15DF`.
    Telemetry,
    /// Config commands: `0x15E0 ..= 0x1FFF`.
    Config,
}

impl CommandRange {
    /// The range that a code lies in; codes of more than 13 bits lie in none.
    pub open spec fn of_code_spec(code: u16) -> Option<CommandRange> {
        if code <= SYSTEM_LAST {
            Some(CommandRange::System)
        } else if code <= CONTROL_LAST {
            Some(CommandRange::Control)
        } else if code <= TELEMETRY_LAST {
            Some(CommandRange::Telemetry)
        } else if code <= CONFIG_LAST {
            Some(CommandRange::Config)
        } else {
            None
        }
    }

    pub fn of_code(code: u16) -> (range: Option<CommandRange>)
        ensures
            range == CommandRange::of_code_spec(code),
    {
        if code <= SYSTEM_LAST {
            Some(CommandRange::System)
        } else if code <= CONTROL_LAST {
            Some(CommandRange::Control)
        } else if code <= TELEMETRY_LAST {
            Some(CommandRange::Telemetry)
        } else if code <= CONFIG_LAST {
            Some(CommandRange::Config)
        } else {
            None
        }
    }
}

/// What a frame asks of its receiver.
#[derive(Clone, Copy, Debug, PartialEq, Eq, Structural)]
pub enum Command {
    Stop,
    Ping,
    Pong,
    SetDuty,
    NotifySwitchState,
}

impl Command {
    /// The 13-bit code of this command.
    pub open spec fn code_spec(self) -> u16 {
        match self {
            Command::Stop => STOP_CODE,
            Command::Ping => PING_CODE,
            Command::Pong => PONG_CODE,
            Command::SetDuty => SET_DUTY_CODE,
            Command::NotifySwitchState => NOTIFY_SWITCH_STATE_CODE,
        }
    }

    /// The command whose code is `code`, if there is one.
    pub open spec fn from_code_spec(code: u16) -> Option<Command> {
        if code == Command::Stop.code_spec() {
            Some(Command::Stop)
        } else if code == Command::Ping.code_spec() {
            Some(Command::Ping)
        } else if code == Command::Pong.code_spec() {
            Some(Command::Pong)
        } else if code == Command::SetDuty.code_spec() {
            Some(Command::SetDuty)
        } else if code == Command::NotifySwitchState.code_spec() {
            Some(Command::NotifySwitchState)
        } else {
            None
        }
    }

    /// The range this command belongs to.
    pub open spec fn range_spec(self) -> CommandRange {
        match self {
            Command::Stop => CommandRange::System,
            Command::Ping => CommandRange::System,
            Command::Pong => CommandRange::System,
            Command::SetDuty => CommandRange::Control,
            Command::NotifySwitchState => CommandRange::Telemetry,
        }
    }

    pub fn range(&self) -> (range: CommandRange)
        ensures
            range == self.range_spec(),
            CommandRange::of_code_spec(self.code_spec()) == Some(range),
    {
        match self {
            Command::Stop => CommandRange::System,
            Command::Ping => CommandRange::System,
            Command::Pong => CommandRange::System,
            Command::SetDuty => CommandRange::Control,
            Command::NotifySwitchState => CommandRange::Telemetry,
        }
    }
}

impl From<Command> for u16 {
    fn from(command: Command) -> (code: u16)
        ensures
            code == command.code_spec(),
    {
        match command {
            Command::Stop => STOP_CODE,
            Command::Ping => PING_CODE,
            Command::Pong => PONG_CODE,
            Command::SetDuty => SET_DUTY_CODE,
            Command::NotifySwitchState => NOTIFY_SWITCH_STATE_CODE,
        }
    }
}

impl FromSpecImpl<Command> for u16 {
    open spec fn obeys_from_spec() -> bool {
        true
    }

    open spec fn from_spec(command: Command) -> u16 {
        command.code_spec()
    }
}

impl TryFrom<u16> for Command {
    type Error = ();

    fn try_from(code: u16) -> (command: Result<Command, ()>)
        ensures
            command.ok() == Command::from_code_spec(code),
    {
        if code == STOP_CODE {
            Ok(Command::Stop)
        } else if code == PING_CODE {
            Ok(Command::Ping)
        } else if code == PONG_CODE {
            Ok(Command::Pong)
        } else if code == SET_DUTY_CODE {
            Ok(Command::SetDuty)
        } else if code == NOTIFY_SWITCH_STATE_CODE {
            Ok(Command::NotifySwitchState)
        } else {
            Err(())
        }
    }
}

impl TryFromSpecImpl<u16> for Command {
    open spec fn obeys_try_from_spec() -> bool {
        true
    }

    open spec fn try_from_spec(code: u16) -> Result<Command, ()> {
        match Command::from_code_spec(code) {
            Some(command) => Ok(command),
            None => Err(()),
        }
    }
}

/// No two commands share a code: commands with equal codes are equal.
pub proof fn lemma_command_codes_distinct(a: Command, b: Command)
    ensures
        a.code_spec() == b.code_spec() ==> a == b,
{
}

/// Every command's code has at most 13 bits and lies in the range the command
/// belongs to, and in no other.
pub proof fn lemma_command_code_in_range(command: Command, range: CommandRange)
    ensures
        command.code_spec() < CODE_LIMIT,
        CommandRange::of_code_spec(command.code_spec()) == Some(range) <==> range
            == command.range_spec(),
{
}

/// Decoding a command's code gives the command back, a code that decodes is
/// the code of the command it decodes to, and a code that does not decode is
/// the code of no command.
pub proof fn lemma_command_code_bijection(command: Command, code: u16)
    ensures
        Command::from_code_spec(command.code_spec()) == Some(command),
        Command::from_code_spec(code) == Some(command) <==> command.code_spec() == code,
        Command::from_code_spec(code) is None ==> command.code_spec() != code,
{
}

/// The address of a node. All 256 values are addresses; `BROADCAST_ADDRESS`
/// is one of them and also means every node.
#[derive(Clone, Copy, Debug, PartialEq, Eq, Structural)]
pub struct NodeId(pub u8);

impl NodeId {
    pub fn new(raw_id: u8) -> (id: NodeId)
        ensures
            id == NodeId(raw_id),
    {
        NodeId(raw_id)
    }

    pub fn broadcast() -> (id: NodeId)
        ensures
            id == NodeId(BROADCAST_ADDRESS),
            id.is_broadcast_spec(),
    {
        NodeId(BROADCAST_ADDRESS)
    }

    pub fn as_raw(&self) -> (raw: u8)
        ensures
            raw == self.0,
    {
        self.0
    }

    /// Whether this address is the one that means every node.
    pub open spec fn is_broadcast_spec(self) -> bool {
        self.0 == BROADCAST_ADDRESS
    }

    pub fn is_broadcast(&self) -> (broadcast: bool)
        ensures
            broadcast == self.is_broadcast_spec(),
    {
        self.0 == BROADCAST_ADDRESS
    }
}

impl From<u8> for NodeId {
    fn from(value: u8) -> (id: NodeId)
        ensures
            id == NodeId(value),
    {
        NodeId(value)
    }
}

impl FromSpecImpl<u8> for NodeId {
    open spec fn obeys_from_spec() -> bool {
        true
    }

    open spec fn from_spec(value: u8) -> NodeId {
        NodeId(value)
    }
}

impl From<NodeId> for u8 {
    fn from(id: NodeId) -> (value: u8)
        ensures
            value == id.0,
    {
        id.as_raw()
    }
}

impl FromSpecImpl<NodeId> for u8 {
    open spec fn obeys_from_spec() -> bool {
        true
    }

    open spec fn from_spec(id: NodeId) -> u8 {
        id.0
    }
}

/// The broadcast address is an address like any other: the node made from
/// `BROADCAST_ADDRESS` is the broadcast node, and no other node is.
pub proof fn lemma_broadcast_is_an_address(raw: u8)
    ensures
        NodeId(raw).is_broadcast_spec() <==> raw == 0xFF,
        NodeId(BROADCAST_ADDRESS).is_broadcast_spec(),
{
}

/// The identifier that carries a command code, a sender and a receiver: the
/// code in bits 16 to 28, the sender in bits 8 to 15, the receiver in bits 0
/// to 7.
pub open spec fn pack_spec(code: u16, sender: u8, receiver: u8) -> u32 {
    (code * COMMAND_UNIT + sender * SENDER_UNIT + receiver) as u32
}

/// Bits 16 to 28 of an identifier.
pub open spec fn command_field(raw: u32) -> u16 {
    ((raw / COMMAND_UNIT) % CODE_LIMIT) as u16
}

/// Bits 8 to 15 of an identifier.
pub open spec fn sender_field(raw: u32) -> u8 {
    ((raw / SENDER_UNIT) % ADDRESS_LIMIT) as u8
}

/// Bits 0 to 7 of an identifier.
pub open spec fn receiver_field(raw: u32) -> u8 {
    (raw % ADDRESS_LIMIT) as u8
}

/// What an identifier carries: the command its command field stands for, with
/// the sender and the receiver, or `UnknownCommand` where the field holds no
/// known code.
pub open spec fn unpack_spec(raw: u32) -> Result<(Command, NodeId, NodeId), ParseError> {
    match Command::from_code_spec(command_field(raw)) {
        Some(command) => Ok((command, NodeId(sender_field(raw)), NodeId(receiver_field(raw)))),
        None => Err(ParseError::UnknownCommand),
    }
}

/// Packs a command, a sender and a receiver into the value of an identifier.
pub fn pack(command: Command, sender_id: &NodeId, receiver_id: &NodeId) -> (raw: u32)
    ensures
        raw == pack_spec(command.code_spec(), sender_id.0, receiver_id.0),
        raw <= MAX_IDENTIFIER,
{
    let code: u32 = u16::from(command) as u32;
    let sender: u32 = sender_id.as_raw() as u32;
    let receiver: u32 = receiver_id.as_raw() as u32;
    assert((code << 16) | (sender << 8) | (receiver << 0) == code * 0x1_0000 + sender * 0x100
        + receiver) by (bit_vector)
        requires
            code < 0x2000,
            sender < 0x100,
            receiver < 0x100,
    ;
    (code << COMMAND_SHIFT) | (sender << SENDER_SHIFT) | (receiver << RECEIVER_SHIFT)
}

/// Reads the three fields of an identifier's value. The bits above bit 28
/// are not looked at.
pub fn unpack(raw: u32) -> (fields: Result<(Command, NodeId, NodeId), ParseError>)
    ensures
        fields == unpack_spec(raw),
{
    let code: u32 = get_bits(raw, COMMAND_SHIFT, COMMAND_SHIFT + COMMAND_BITS - 1);
    let sender: u32 = get_bits(raw, SENDER_SHIFT, SENDER_SHIFT + SENDER_BITS - 1);
    let receiver: u32 = get_bits(raw, RECEIVER_SHIFT, RECEIVER_SHIFT + RECEIVER_BITS - 1);
    assert(bit_range(raw, 16, 28) == (raw / 0x1_0000) % 0x2000) by (bit_vector);
    assert(bit_range(raw, 8, 15) == (raw / 0x100) % 0x100) by (bit_vector);
    assert(bit_range(raw, 0, 7) == raw % 0x100) by (bit_vector);
    match Command::try_from(code as u16) {
        Ok(command) => Ok((command, NodeId::new(sender as u8), NodeId::new(receiver as u8))),
        Err(_) => Err(ParseError::UnknownCommand),
    }
}

/// Unpacking what was packed gives back the command, the sender and the
/// receiver, whatever they are.
pub proof fn lemma_unpack_pack(command: Command, sender: NodeId, receiver: NodeId)
    ensures
        unpack_spec(pack_spec(command.code_spec(), sender.0, receiver.0)) == Ok::<
            (Command, NodeId, NodeId),
            ParseError,
        >((command, sender, receiver)),
{
    let raw: u32 = pack_spec(command.code_spec(), sender.0, receiver.0);
    assert(command_field(raw) == command.code_spec());
    assert(sender_field(raw) == sender.0);
    assert(receiver_field(raw) == receiver.0);
}

/// An identifier that unpacks is, in its 29 bits, the packing of what it
/// unpacks to: no two identifiers of 29 bits carry the same three values.
pub proof fn lemma_pack_unpack(raw: u32, command: Command, sender: NodeId, receiver: NodeId)
    requires
        unpack_spec(raw) == Ok::<(Command, NodeId, NodeId), ParseError>(
            (command, sender, receiver),
        ),
    ensures
        raw % IDENTIFIER_LIMIT == pack_spec(command.code_spec(), sender.0, receiver.0),
{
    assert(command_field(raw) == command.code_spec());
    assert(sender_field(raw) == sender.0);
    assert(receiver_field(raw) == receiver.0);
}

/// A packed identifier never needs more than 29 bits.
pub proof fn lemma_pack_fits(command: Command, sender: NodeId, receiver: NodeId)
    ensures
        pack_spec(command.code_spec(), sender.0, receiver.0) <= MAX_IDENTIFIER,
{
}

/// The units and limits of the fields are the powers of two that the shifts
/// and widths name.
pub proof fn lemma_field_layout()
    ensures
        SENDER_UNIT == 1u32 << SENDER_SHIFT,
        COMMAND_UNIT == 1u32 << COMMAND_SHIFT,
        ADDRESS_LIMIT == 1u32 << SENDER_BITS,
        ADDRESS_LIMIT == 1u32 << RECEIVER_BITS,
        CODE_LIMIT == 1u32 << COMMAND_BITS,
        IDENTIFIER_LIMIT == 1u32 << (COMMAND_BITS + SENDER_BITS + RECEIVER_BITS),
        MAX_IDENTIFIER == IDENTIFIER_LIMIT - 1,
{
    assert(0x100u32 == 1u32 << 8u32) by (bit_vector);
    assert(0x1_0000u32 == 1u32 << 16u32) by (bit_vector);
    assert(0x2000u32 == 1u32 << 13u32) by (bit_vector);
    assert(0x2000_0000u32 == 1u32 << 29u32) by (bit_vector);
}

/// Reading and making extended identifiers of this protocol.
pub trait IdFactory: Sized {
    /// The number that the identifier holds.
    spec fn raw_spec(self) -> u32;

    /// The command, sender and receiver that the identifier carries, or `None`
    /// where its command field holds no known code.
    fn parse(self) -> (fields: Option<(Command, NodeId, NodeId)>)
        ensures
            fields == unpack_spec(self.raw_spec()).ok(),
    ;

    /// The extended identifier that carries `command`, `sender_id` and
    /// `receiver_id`.
    fn build(command: Command, sender_id: &NodeId, receiver_id: &NodeId) -> (id: ExtendedId)
        ensures
            extended_raw(id) == pack_spec(command.code_spec(), sender_id.0, receiver_id.0),
    ;
}

impl IdFactory for ExtendedId {
    open spec fn raw_spec(self) -> u32 {
        extended_raw(self)
    }

    fn parse(self) -> (fields: Option<(Command, NodeId, NodeId)>) {
        match unpack(self.as_raw()) {
            Ok(fields) => Some(fields),
            Err(_) => None,
        }
    }

    fn build(command: Command, sender_id: &NodeId, receiver_id: &NodeId) -> (id: ExtendedId) {
        let raw: u32 = pack(command, sender_id, receiver_id);
        ExtendedId::new(raw).unwrap()
    }
}

} // verus!
