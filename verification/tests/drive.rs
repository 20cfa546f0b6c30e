use roboken_rs::robotics::motor::{Dir, Duty, Motor, SignedDuty, MAX_MAGNITUDE};
use roboken_rs::robotics::switch::SwitchState;

struct Recorder {
    log: Vec<(Dir, u16)>,
}

impl Motor for Recorder {
    fn run_cw(&mut self, duty: impl Into<Duty>) {
        self.log.push((Dir::Cw, duty.into().value()));
    }

    fn run_ccw(&mut self, duty: impl Into<Duty>) {
        self.log.push((Dir::Ccw, duty.into().value()));
    }
}

fn signed(value: i32) -> SignedDuty {
    SignedDuty::try_from(value).unwrap()
}

#[test]
fn duty_keeps_its_value() {
    for value in [0u16, 1, 300, 0x7FFF, 0x8000, 0xFFFF] {
        let duty = Duty::from(value);
        assert_eq!(duty.value(), value);
        assert_eq!(u16::from(duty), value);
    }
}

#[test]
fn signed_duty_range() {
    assert_eq!(MAX_MAGNITUDE, 65535);
    assert_eq!(signed(0).value(), 0);
    assert_eq!(signed(65535).value(), 65535);
    assert_eq!(signed(-65535).value(), -65535);
    assert_eq!(i32::from(signed(-12)), -12);
    assert!(SignedDuty::try_from(65536).is_err());
    assert!(SignedDuty::try_from(-65536).is_err());
    assert!(SignedDuty::try_from(i32::MAX).is_err());
    assert!(SignedDuty::try_from(i32::MIN).is_err());
}

#[test]
fn duty_to_signed_duty() {
    assert_eq!(SignedDuty::from(Duty::from(0)).value(), 0);
    assert_eq!(SignedDuty::from(Duty::from(300)).value(), 300);
    assert_eq!(SignedDuty::from(Duty::from(0xFFFF)).value(), 65535);
}

#[test]
fn signed_duty_to_duty() {
    assert_eq!(Duty::try_from(signed(0)), Ok(Duty::from(0)));
    assert_eq!(Duty::try_from(signed(65535)), Ok(Duty::from(65535)));
    assert_eq!(Duty::try_from(signed(-1)), Err(()));
    assert_eq!(Duty::try_from(signed(-65535)), Err(()));
}

#[test]
fn signed_duty_splits_into_direction_and_magnitude() {
    assert_eq!(signed(0).drive(), (Dir::Cw, Duty::from(0)));
    assert_eq!(signed(1).drive(), (Dir::Cw, Duty::from(1)));
    assert_eq!(signed(-1).drive(), (Dir::Ccw, Duty::from(1)));
    assert_eq!(signed(40000).drive(), (Dir::Cw, Duty::from(40000)));
    assert_eq!(signed(-40000).drive(), (Dir::Ccw, Duty::from(40000)));
    assert_eq!(signed(65535).drive(), (Dir::Cw, Duty::from(65535)));
    assert_eq!(signed(-65535).drive(), (Dir::Ccw, Duty::from(65535)));
}

#[test]
fn direction_codes() {
    assert_eq!(u8::from(Dir::Cw), 0);
    assert_eq!(u8::from(Dir::Ccw), 1);
    assert_eq!(Dir::try_from(0), Ok(Dir::Cw));
    assert_eq!(Dir::try_from(1), Ok(Dir::Ccw));
    for code in 2..=255u8 {
        assert_eq!(Dir::try_from(code), Err(()));
    }
}

#[test]
fn switch_state_codes() {
    assert_eq!(u8::from(SwitchState::Off), 0);
    assert_eq!(u8::from(SwitchState::On), 1);
    assert_eq!(SwitchState::try_from(0), Ok(SwitchState::Off));
    assert_eq!(SwitchState::try_from(1), Ok(SwitchState::On));
    for code in 2..=255u8 {
        assert_eq!(SwitchState::try_from(code), Err(()));
    }
}

#[test]
fn motor_runs_by_sign() {
    let mut motor = Recorder { log: Vec::new() };
    assert_eq!(motor.run(signed(120)), Some(()));
    assert_eq!(motor.run(signed(-120)), Some(()));
    assert_eq!(motor.run(signed(0)), Some(()));
    assert_eq!(motor.run(signed(-65535)), Some(()));
    assert_eq!(
        motor.log,
        vec![
            (Dir::Cw, 120),
            (Dir::Ccw, 120),
            (Dir::Cw, 0),
            (Dir::Ccw, 65535)
        ]
    );
}

#[test]
fn motor_runs_an_unsigned_duty_clockwise() {
    let mut motor = Recorder { log: Vec::new() };
    assert_eq!(motor.run(Duty::from(0xFFFF)), Some(()));
    assert_eq!(motor.run(Duty::from(0)), Some(()));
    assert_eq!(motor.log, vec![(Dir::Cw, 0xFFFF), (Dir::Cw, 0)]);
}

#[test]
fn motor_runs_with_direction() {
    let mut motor = Recorder { log: Vec::new() };
    motor.run_with_dir(Duty::from(5), Dir::Cw);
    motor.run_with_dir(6u16, Dir::Ccw);
    assert_eq!(motor.log, vec![(Dir::Cw, 5), (Dir::Ccw, 6)]);
}
