use roboken_rs::can::data::{
    payload_len, Channel, Data, NOTIFY_SWITCH_STATE_LEN, SET_DUTY_LEN,
};
use roboken_rs::can::id::Command;
use roboken_rs::can::ParseError;
use roboken_rs::robotics::motor::{Dir, Duty};
use roboken_rs::robotics::switch::SwitchState;

#[test]
fn channel_keeps_its_value() {
    for value in 0..=255u8 {
        let channel = Channel::new(value);
        assert_eq!(channel.value(), value);
        assert_eq!(u8::from(channel), value);
        assert_eq!(Channel::from(value), channel);
    }
}

#[test]
fn data_names_its_command() {
    assert_eq!(Data::Stop.command(), Command::Stop);
    assert_eq!(Data::Ping.command(), Command::Ping);
    assert_eq!(Data::Pong.command(), Command::Pong);
    assert_eq!(
        Data::SetDuty(Channel::new(1), Duty::from(2), Dir::Ccw).command(),
        Command::SetDuty
    );
    assert_eq!(
        Data::NotifySwitchState(Channel::new(1), SwitchState::Off).command(),
        Command::NotifySwitchState
    );
}

#[test]
fn payload_lengths() {
    assert_eq!(payload_len(Command::Stop), 0);
    assert_eq!(payload_len(Command::Ping), 0);
    assert_eq!(payload_len(Command::Pong), 0);
    assert_eq!(payload_len(Command::SetDuty), 4);
    assert_eq!(payload_len(Command::NotifySwitchState), 2);
    assert_eq!(SET_DUTY_LEN, 4);
    assert_eq!(NOTIFY_SWITCH_STATE_LEN, 2);
}

#[test]
fn commands_without_arguments_encode_to_nothing() {
    assert!(Data::Stop.to_vec().is_empty());
    assert!(Data::Ping.to_vec().is_empty());
    assert!(Data::Pong.to_vec().is_empty());
}

#[test]
fn set_duty_encodes_big_endian() {
    let data = Data::SetDuty(Channel::new(2), Duty::from(300), Dir::Cw);
    assert_eq!(data.to_vec().as_slice(), &[0x02, 0x01, 0x2C, 0x00]);
}

#[test]
fn set_duty_decodes_big_endian() {
    assert_eq!(
        Data::decode(Command::SetDuty, &[0x02, 0x01, 0x2C, 0x00]),
        Ok(Data::SetDuty(Channel::new(2), Duty::from(300), Dir::Cw))
    );
}

#[test]
fn set_duty_layout() {
    let data = Data::SetDuty(Channel::new(0xAB), Duty::from(0x1234), Dir::Ccw);
    assert_eq!(data.to_vec().as_slice(), &[0xAB, 0x12, 0x34, 0x01]);
    let data = Data::SetDuty(Channel::new(0), Duty::from(0xFFFF), Dir::Cw);
    assert_eq!(data.to_vec().as_slice(), &[0x00, 0xFF, 0xFF, 0x00]);
    let data = Data::SetDuty(Channel::new(0xFF), Duty::from(0x00FF), Dir::Ccw);
    assert_eq!(data.to_vec().as_slice(), &[0xFF, 0x00, 0xFF, 0x01]);
    let data = Data::SetDuty(Channel::new(7), Duty::from(0xFF00), Dir::Cw);
    assert_eq!(data.to_vec().as_slice(), &[0x07, 0xFF, 0x00, 0x00]);
}

#[test]
fn notify_switch_state_layout() {
    let on = Data::NotifySwitchState(Channel::new(0), SwitchState::On);
    assert_eq!(on.to_vec().as_slice(), &[0x00, 0x01]);
    let off = Data::NotifySwitchState(Channel::new(0x9C), SwitchState::Off);
    assert_eq!(off.to_vec().as_slice(), &[0x9C, 0x00]);
}

#[test]
fn encoded_length_is_the_fixed_one() {
    let all = [
        Data::Stop,
        Data::Ping,
        Data::Pong,
        Data::SetDuty(Channel::new(3), Duty::from(40000), Dir::Ccw),
        Data::NotifySwitchState(Channel::new(4), SwitchState::On),
    ];
    for data in all {
        assert_eq!(data.to_vec().len(), payload_len(data.command()));
    }
}

#[test]
fn decode_undoes_encode_for_every_duty() {
    for duty in 0..=u16::MAX {
        for dir in [Dir::Cw, Dir::Ccw] {
            let data = Data::SetDuty(Channel::new((duty % 251) as u8), Duty::from(duty), dir);
            assert_eq!(Data::decode(Command::SetDuty, &data.to_vec()), Ok(data));
        }
    }
}

#[test]
fn decode_undoes_encode_for_every_switch_report() {
    for channel in 0..=255u8 {
        for state in [SwitchState::Off, SwitchState::On] {
            let data = Data::NotifySwitchState(Channel::new(channel), state);
            assert_eq!(
                Data::decode(Command::NotifySwitchState, &data.to_vec()),
                Ok(data)
            );
        }
    }
}

#[test]
fn decode_undoes_encode_without_arguments() {
    for data in [Data::Stop, Data::Ping, Data::Pong] {
        assert_eq!(Data::decode(data.command(), &data.to_vec()), Ok(data));
    }
}

#[test]
fn bytes_that_decode_are_the_encoding() {
    for bytes in [
        [0u8, 0, 0, 0],
        [1, 2, 3, 1],
        [0xFF, 0xFF, 0xFF, 1],
        [0x80, 0x00, 0x01, 0],
    ] {
        let data = Data::decode(Command::SetDuty, &bytes).unwrap();
        assert_eq!(data.command(), Command::SetDuty);
        assert_eq!(data.to_vec().as_slice(), &bytes);
    }
    for bytes in [[0u8, 0], [0xFF, 1], [7, 1]] {
        let data = Data::decode(Command::NotifySwitchState, &bytes).unwrap();
        assert_eq!(data.command(), Command::NotifySwitchState);
        assert_eq!(data.to_vec().as_slice(), &bytes);
    }
}

#[test]
fn nonzero_duty_keeps_its_byte_order() {
    let data = Data::SetDuty(Channel::new(9), Duty::from(0x0100), Dir::Cw);
    let bytes = data.to_vec();
    assert_eq!(bytes.as_slice(), &[0x09, 0x01, 0x00, 0x00]);
    match Data::decode(Command::SetDuty, &bytes) {
        Ok(Data::SetDuty(channel, duty, dir)) => {
            assert_eq!(channel.value(), 9);
            assert_eq!(duty.value(), 0x0100);
            assert_eq!(dir, Dir::Cw);
        }
        other => panic!("{:?}", other),
    }
}

#[test]
fn set_duty_needs_four_bytes() {
    let bytes = [0u8; 9];
    for len in 0..=8usize {
        let decoded = Data::decode(Command::SetDuty, &bytes[..len]);
        if len == 4 {
            assert_eq!(
                decoded,
                Ok(Data::SetDuty(Channel::new(0), Duty::from(0), Dir::Cw))
            );
        } else {
            assert_eq!(decoded, Err(ParseError::MalformedPayloadLength));
        }
    }
}

#[test]
fn notify_switch_state_needs_two_bytes() {
    let bytes = [0u8; 9];
    for len in 0..=8usize {
        let decoded = Data::decode(Command::NotifySwitchState, &bytes[..len]);
        if len == 2 {
            assert_eq!(
                decoded,
                Ok(Data::NotifySwitchState(Channel::new(0), SwitchState::Off))
            );
        } else {
            assert_eq!(decoded, Err(ParseError::MalformedPayloadLength));
        }
    }
}

#[test]
fn commands_without_arguments_need_no_bytes() {
    let bytes = [0u8; 9];
    for (command, data) in [
        (Command::Stop, Data::Stop),
        (Command::Ping, Data::Ping),
        (Command::Pong, Data::Pong),
    ] {
        assert_eq!(Data::decode(command, &[]), Ok(data));
        for len in 1..=8usize {
            assert_eq!(
                Data::decode(command, &bytes[..len]),
                Err(ParseError::MalformedPayloadLength)
            );
        }
    }
}

#[test]
fn length_is_checked_before_the_fields() {
    assert_eq!(
        Data::decode(Command::SetDuty, &[0, 0, 0, 7, 0]),
        Err(ParseError::MalformedPayloadLength)
    );
    assert_eq!(
        Data::decode(Command::NotifySwitchState, &[0, 7, 0]),
        Err(ParseError::MalformedPayloadLength)
    );
}

#[test]
fn direction_byte_must_be_zero_or_one() {
    assert_eq!(
        Data::decode(Command::SetDuty, &[5, 0, 1, 0]),
        Ok(Data::SetDuty(Channel::new(5), Duty::from(1), Dir::Cw))
    );
    assert_eq!(
        Data::decode(Command::SetDuty, &[5, 0, 1, 1]),
        Ok(Data::SetDuty(Channel::new(5), Duty::from(1), Dir::Ccw))
    );
    for code in 2..=255u8 {
        assert_eq!(
            Data::decode(Command::SetDuty, &[5, 0, 1, code]),
            Err(ParseError::InvalidEnumValue)
        );
    }
}

#[test]
fn switch_state_byte_must_be_zero_or_one() {
    assert_eq!(
        Data::decode(Command::NotifySwitchState, &[5, 0]),
        Ok(Data::NotifySwitchState(Channel::new(5), SwitchState::Off))
    );
    assert_eq!(
        Data::decode(Command::NotifySwitchState, &[5, 1]),
        Ok(Data::NotifySwitchState(Channel::new(5), SwitchState::On))
    );
    for code in 2..=255u8 {
        assert_eq!(
            Data::decode(Command::NotifySwitchState, &[5, code]),
            Err(ParseError::InvalidEnumValue)
        );
    }
}
