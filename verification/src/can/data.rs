//! The arguments of each command and their payload bytes.

use super::bindings::{payload_bytes, payload_from, payload_new};
use super::id::Command;
use super::ParseError;
use crate::robotics::motor::{Dir, Duty};
use crate::robotics::switch::SwitchState;
use vstd::array::group_array_axioms;
use vstd::prelude::*;
use vstd::std_specs::convert::FromSpecImpl;

verus! {

broadcast use group_array_axioms;

/// Number of payload bytes of a `SetDuty` frame.
pub const SET_DUTY_LEN: usize = 4;

/// Number of payload bytes of a `NotifySwitchState` frame.
pub const NOTIFY_SWITCH_STATE_LEN: usize = 2;

/// Selects one actuator or switch within a node. Every value is a channel.
#[derive(Clone, Copy, Debug, PartialEq, Eq, Structural)]
pub struct Channel(pub u8);

impl Channel {
    pub fn new(value: u8) -> (channel: Channel)
        ensures
            channel == Channel(value),
    {
        Channel(value)
    }

    pub fn value(&self) -> (value: u8)
        ensures
            value == self.0,
    {
        self.0
    }
}

impl From<u8> for Channel {
    fn from(value: u8) -> (channel: Channel)
        ensures
            channel == Channel(value),
    {
        Channel(value)
    }
}

impl FromSpecImpl<u8> for Channel {
    open spec fn obeys_from_spec() -> bool {
        true
    }

    open spec fn from_spec(value: u8) -> Channel {
        Channel(value)
    }
}

impl From<Channel> for u8 {
    fn from(channel: Channel) -> (value: u8)
        ensures
            value == channel.0,
    {
        channel.0
    }
}

impl FromSpecImpl<Channel> for u8 {
    open spec fn obeys_from_spec() -> bool {
        true
    }

    open spec fn from_spec(channel: Channel) -> u8 {
        channel.0
    }
}

/// The number of payload bytes that a command fixes.
pub open spec fn payload_len_spec(command: Command) -> nat {
    match command {
        Command::Stop => 0,
        Command::Ping => 0,
        Command::Pong => 0,
        Command::SetDuty => SET_DUTY_LEN as nat,
        Command::NotifySwitchState => NOTIFY_SWITCH_STATE_LEN as nat,
    }
}

/// The number of payload bytes that a frame of `command` carries.
pub fn payload_len(command: Command) -> (len: usize)
    ensures
        len == payload_len_spec(command),
{
    match command {
        Command::Stop => 0,
        Command::Ping => 0,
        Command::Pong => 0,
        Command::SetDuty => SET_DUTY_LEN,
        Command::NotifySwitchState => NOTIFY_SWITCH_STATE_LEN,
    }
}

/// The more significant byte of a 16-bit value.
pub open spec fn high_byte(value: u16) -> u8 {
    (value / 256) as u8
}

/// The less significant byte of a 16-bit value.
pub open spec fn low_byte(value: u16) -> u8 {
    (value % 256) as u8
}

/// The 16-bit value with the given more and less significant bytes.
pub open spec fn join_bytes(high: u8, low: u8) -> u16 {
    (high * 256 + low) as u16
}

/// A command together with its arguments.
#[derive(Clone, Copy, Debug, PartialEq, Eq, Structural)]
pub enum Data {
    Stop,
    Ping,
    Pong,
    SetDuty(Channel, Duty, Dir),
    NotifySwitchState(Channel, SwitchState),
}

impl Data {
    /// The command that these arguments belong to.
    pub open spec fn command_spec(self) -> Command {
        match self {
            Data::Stop => Command::Stop,
            Data::Ping => Command::Ping,
            Data::Pong => Command::Pong,
            Data::SetDuty(_, _, _) => Command::SetDuty,
            Data::NotifySwitchState(_, _) => Command::NotifySwitchState,
        }
    }

    /// The payload bytes of these arguments. `SetDuty` gives the channel, the
    /// duty with its more significant byte first, and the direction code;
    /// `NotifySwitchState` gives the channel and the state code; the others
    /// give nothing.
    pub open spec fn payload_spec(self) -> Seq<u8> {
        match self {
            Data::Stop => Seq::empty(),
            Data::Ping => Seq::empty(),
            Data::Pong => Seq::empty(),
            Data::SetDuty(channel, duty, dir) => seq![
                channel.0,
                high_byte(duty.0),
                low_byte(duty.0),
                dir.code_spec(),
            ],
            Data::NotifySwitchState(channel, state) => seq![channel.0, state.code_spec()],
        }
    }

    /// The arguments that payload bytes stand for under a command. A payload
    /// of another length than the command fixes is malformed whatever it
    /// holds; a direction or state byte other than 0 and 1 is an invalid value.
    pub open spec fn decode_spec(command: Command, bytes: Seq<u8>) -> Result<Data, ParseError> {
        if bytes.len() != payload_len_spec(command) {
            Err(ParseError::MalformedPayloadLength)
        } else {
            match command {
                Command::Stop => Ok(Data::Stop),
                Command::Ping => Ok(Data::Ping),
                Command::Pong => Ok(Data::Pong),
                Command::SetDuty => match Dir::from_code_spec(bytes[3]) {
                    Some(dir) => Ok(
                        Data::SetDuty(
                            Channel(bytes[0]),
                            Duty(join_bytes(bytes[1], bytes[2])),
                            dir,
                        ),
                    ),
                    None => Err(ParseError::InvalidEnumValue),
                },
                Command::NotifySwitchState => match SwitchState::from_code_spec(bytes[1]) {
                    Some(state) => Ok(Data::NotifySwitchState(Channel(bytes[0]), state)),
                    None => Err(ParseError::InvalidEnumValue),
                },
            }
        }
    }

    pub fn command(&self) -> (command: Command)
        ensures
            command == self.command_spec(),
    {
        match self {
            Data::Stop => Command::Stop,
            Data::Ping => Command::Ping,
            Data::Pong => Command::Pong,
            Data::SetDuty(_, _, _) => Command::SetDuty,
            Data::NotifySwitchState(_, _) => Command::NotifySwitchState,
        }
    }

    /// Encodes the arguments as payload bytes.
    pub fn to_vec(&self) -> (payload: heapless::Vec<u8, 8>)
        ensures
            payload_bytes(payload) == self.payload_spec(),
    {
        match self {
            Data::Stop => payload_new(),
            Data::Ping => payload_new(),
            Data::Pong => payload_new(),
            Data::SetDuty(channel, duty, dir) => {
                let value: u16 = u16::from(*duty);
                let high: u8 = (value >> 8) as u8;
                let low: u8 = (value & 0xFF) as u8;
                assert(value >> 8 == value / 256) by (bit_vector);
                assert(value & 0xFF == value % 256) by (bit_vector);
                let bytes: [u8; 4] = [channel.value(), high, low, u8::from(*dir)];
                assert(bytes@ =~= self.payload_spec());
                payload_from(bytes.as_slice())
            },
            Data::NotifySwitchState(channel, state) => {
                let bytes: [u8; 2] = [channel.value(), u8::from(*state)];
                assert(bytes@ =~= self.payload_spec());
                payload_from(bytes.as_slice())
            },
        }
    }

    /// Decodes the payload bytes of a frame whose command is already known.
    pub fn decode(command: Command, bytes: &[u8]) -> (data: Result<Data, ParseError>)
        ensures
            data == Data::decode_spec(command, bytes@),
            bytes@.len() != payload_len_spec(command) ==> data == Err::<Data, ParseError>(
                ParseError::MalformedPayloadLength,
            ),
    {
        if bytes.len() != payload_len(command) {
            return Err(ParseError::MalformedPayloadLength);
        }
        match command {
            Command::Stop => Ok(Data::Stop),
            Command::Ping => Ok(Data::Ping),
            Command::Pong => Ok(Data::Pong),
            Command::SetDuty => {
                let high: u16 = bytes[1] as u16;
                let low: u16 = bytes[2] as u16;
                assert((high << 8) | low == high * 256 + low) by (bit_vector)
                    requires
                        high < 0x100,
                        low < 0x100,
                ;
                let duty: u16 = (high << 8) | low;
                match Dir::try_from(bytes[3]) {
                    Ok(dir) => Ok(Data::SetDuty(Channel::new(bytes[0]), Duty::from(duty), dir)),
                    Err(_) => Err(ParseError::InvalidEnumValue),
                }
            },
            Command::NotifySwitchState => match SwitchState::try_from(bytes[1]) {
                Ok(state) => Ok(Data::NotifySwitchState(Channel::new(bytes[0]), state)),
                Err(_) => Err(ParseError::InvalidEnumValue),
            },
        }
    }
}

/// The payload of any arguments has the length that their command fixes.
pub proof fn lemma_payload_len(data: Data)
    ensures
        data.payload_spec().len() == payload_len_spec(data.command_spec()),
        data.payload_spec().len() <= 8,
{
}

/// A 16-bit value is the join of its two bytes.
pub proof fn lemma_join_split(value: u16)
    ensures
        join_bytes(high_byte(value), low_byte(value)) == value,
{
}

/// Decoding the payload of any arguments under their own command gives the
/// arguments back.
pub proof fn lemma_decode_payload(data: Data)
    ensures
        Data::decode_spec(data.command_spec(), data.payload_spec()) == Ok::<Data, ParseError>(
            data,
        ),
{
    match data {
        Data::SetDuty(channel, duty, dir) => {
            lemma_join_split(duty.0);
        },
        _ => {},
    }
}

/// Payload bytes that decode are the payload of what they decode to, and the
/// command they were decoded under is its command: no arguments have two
/// payloads.
pub proof fn lemma_decode_is_payload(command: Command, bytes: Seq<u8>, data: Data)
    requires
        Data::decode_spec(command, bytes) == Ok::<Data, ParseError>(data),
    ensures
        data.command_spec() == command,
        data.payload_spec() == bytes,
{
    assert(data.payload_spec() =~= bytes);
}

/// A payload of any other length than the command fixes is refused as
/// malformed, whatever its bytes are: four bytes for `SetDuty`, two for
/// `NotifySwitchState`, none for the others.
pub proof fn lemma_length_enforced(command: Command, bytes: Seq<u8>)
    ensures
        bytes.len() != payload_len_spec(command) ==> Data::decode_spec(command, bytes) == Err::<
            Data,
            ParseError,
        >(ParseError::MalformedPayloadLength),
        Data::decode_spec(command, bytes).is_ok() ==> bytes.len() == payload_len_spec(command),
        command == Command::SetDuty ==> payload_len_spec(command) == 4,
        command == Command::NotifySwitchState ==> payload_len_spec(command) == 2,
        command == Command::Stop || command == Command::Ping || command == Command::Pong
            ==> payload_len_spec(command) == 0,
{
}

} // verus!
