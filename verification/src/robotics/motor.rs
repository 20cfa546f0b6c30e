//! Drive magnitudes, directions and the interface of a motor.

use vstd::prelude::*;
use vstd::std_specs::convert::{FromSpecImpl, TryFromSpecImpl};

verus! {

/// The largest magnitude a duty can carry, signed or not.
pub const MAX_MAGNITUDE: i32 = 0xFFFF;

/// The sense in which a motor turns.
#[derive(Clone, Copy, Debug, PartialEq, Eq, Structural)]
pub enum Dir {
    Cw,
    Ccw,
}

impl Dir {
    /// The byte that stands for this direction on the wire: 0 for clockwise,
    /// 1 for counter-clockwise.
    pub open spec fn code_spec(self) -> u8 {
        match self {
            Dir::Cw => 0,
            Dir::Ccw => 1,
        }
    }

    /// The direction that a wire byte stands for; bytes other than 0 and 1
    /// stand for none.
    pub open spec fn from_code_spec(code: u8) -> Option<Dir> {
        if code == 0 {
            Some(Dir::Cw)
        } else if code == 1 {
            Some(Dir::Ccw)
        } else {
            None
        }
    }
}

impl From<Dir> for u8 {
    fn from(dir: Dir) -> (code: u8)
        ensures
            code == dir.code_spec(),
    {
        match dir {
            Dir::Cw => 0,
            Dir::Ccw => 1,
        }
    }
}

impl FromSpecImpl<Dir> for u8 {
    open spec fn obeys_from_spec() -> bool {
        true
    }

    open spec fn from_spec(dir: Dir) -> u8 {
        dir.code_spec()
    }
}

impl TryFrom<u8> for Dir {
    type Error = ();

    fn try_from(code: u8) -> (dir: Result<Dir, ()>)
        ensures
            dir.ok() == Dir::from_code_spec(code),
    {
        if code == 0 {
            Ok(Dir::Cw)
        } else if code == 1 {
            Ok(Dir::Ccw)
        } else {
            Err(())
        }
    }
}

impl TryFromSpecImpl<u8> for Dir {
    open spec fn obeys_try_from_spec() -> bool {
        true
    }

    open spec fn try_from_spec(code: u8) -> Result<Dir, ()> {
        match Dir::from_code_spec(code) {
            Some(dir) => Ok(dir),
            None => Err(()),
        }
    }
}

/// Every direction is recovered from its own code, and a byte that decodes is
/// the code of the direction it decodes to.
pub proof fn lemma_dir_code_bijection(dir: Dir, code: u8)
    ensures
        Dir::from_code_spec(dir.code_spec()) == Some(dir),
        Dir::from_code_spec(code) == Some(dir) ==> dir.code_spec() == code,
{
}

/// An unsigned 16-bit drive magnitude. Every value is a legal duty.
#[derive(Clone, Copy, Debug, PartialEq, Eq, Structural)]
pub struct Duty(pub u16);

impl Duty {
    pub fn value(&self) -> (value: u16)
        ensures
            value == self.0,
    {
        self.0
    }
}

impl From<u16> for Duty {
    fn from(value: u16) -> (duty: Duty)
        ensures
            duty == Duty(value),
    {
        Duty(value)
    }
}

impl FromSpecImpl<u16> for Duty {
    open spec fn obeys_from_spec() -> bool {
        true
    }

    open spec fn from_spec(value: u16) -> Duty {
        Duty(value)
    }
}

impl From<Duty> for u16 {
    fn from(duty: Duty) -> (value: u16)
        ensures
            value == duty.0,
    {
        duty.0
    }
}

impl FromSpecImpl<Duty> for u16 {
    open spec fn obeys_from_spec() -> bool {
        true
    }

    open spec fn from_spec(duty: Duty) -> u16 {
        duty.0
    }
}

/// A drive magnitude with a sign: zero and above turns clockwise, below zero
/// counter-clockwise. Its value always lies within `-MAX_MAGNITUDE ..= MAX_MAGNITUDE`.
#[derive(Clone, Copy)]
pub struct SignedDuty(i32);

impl SignedDuty {
    #[verifier::type_invariant]
    spec fn in_range(self) -> bool {
        -MAX_MAGNITUDE <= self.0 <= MAX_MAGNITUDE
    }

    /// The signed number this duty holds.
    pub closed spec fn value_spec(self) -> i32 {
        self.0
    }

    /// The signed duty that holds `value`.
    pub closed spec fn of_spec(value: i32) -> SignedDuty {
        SignedDuty(value)
    }

    /// The direction this duty asks for.
    pub open spec fn dir_spec(self) -> Dir {
        if self.value_spec() >= 0 {
            Dir::Cw
        } else {
            Dir::Ccw
        }
    }

    /// The magnitude this duty asks for: its absolute value.
    pub open spec fn magnitude_spec(self) -> Duty {
        if self.value_spec() >= 0 {
            Duty(self.value_spec() as u16)
        } else {
            Duty((-self.value_spec()) as u16)
        }
    }

    pub fn value(&self) -> (value: i32)
        ensures
            value == self.value_spec(),
            -MAX_MAGNITUDE <= value <= MAX_MAGNITUDE,
    {
        proof {
            use_type_invariant(self);
        }
        self.0
    }

    /// Splits the duty into the direction and the magnitude to drive with.
    pub fn drive(&self) -> (command: (Dir, Duty))
        ensures
            command == (self.dir_spec(), self.magnitude_spec()),
            -MAX_MAGNITUDE <= self.value_spec() <= MAX_MAGNITUDE,
    {
        proof {
            use_type_invariant(self);
        }
        if self.0 >= 0 {
            (Dir::Cw, Duty(self.0 as u16))
        } else {
            (Dir::Ccw, Duty((-self.0) as u16))
        }
    }
}

/// A signed duty is the number it holds: `of_spec` and `value_spec` undo each other.
pub proof fn lemma_signed_duty_value(duty: SignedDuty, value: i32)
    ensures
        SignedDuty::of_spec(value).value_spec() == value,
        SignedDuty::of_spec(duty.value_spec()) == duty,
{
}

impl TryFrom<i32> for SignedDuty {
    type Error = ();

    fn try_from(value: i32) -> (duty: Result<SignedDuty, ()>)
        ensures
            -MAX_MAGNITUDE <= value <= MAX_MAGNITUDE ==> duty.is_ok() && duty.unwrap().value_spec()
                == value,
            !(-MAX_MAGNITUDE <= value <= MAX_MAGNITUDE) ==> duty.is_err(),
    {
        if value > MAX_MAGNITUDE || value < -MAX_MAGNITUDE {
            return Err(());
        }
        Ok(SignedDuty(value))
    }
}

impl TryFromSpecImpl<i32> for SignedDuty {
    open spec fn obeys_try_from_spec() -> bool {
        true
    }

    open spec fn try_from_spec(value: i32) -> Result<SignedDuty, ()> {
        if -MAX_MAGNITUDE <= value <= MAX_MAGNITUDE {
            Ok(SignedDuty::of_spec(value))
        } else {
            Err(())
        }
    }
}

impl From<SignedDuty> for i32 {
    fn from(duty: SignedDuty) -> (value: i32)
        ensures
            value == duty.value_spec(),
    {
        duty.0
    }
}

impl FromSpecImpl<SignedDuty> for i32 {
    open spec fn obeys_from_spec() -> bool {
        true
    }

    open spec fn from_spec(duty: SignedDuty) -> i32 {
        duty.value_spec()
    }
}

impl From<Duty> for SignedDuty {
    fn from(duty: Duty) -> (signed: SignedDuty)
        ensures
            signed.value_spec() == duty.0,
    {
        SignedDuty(duty.0 as i32)
    }
}

impl FromSpecImpl<Duty> for SignedDuty {
    open spec fn obeys_from_spec() -> bool {
        true
    }

    open spec fn from_spec(duty: Duty) -> SignedDuty {
        SignedDuty::of_spec(duty.0 as i32)
    }
}

impl TryFrom<SignedDuty> for Duty {
    type Error = ();

    fn try_from(signed: SignedDuty) -> (duty: Result<Duty, ()>)
        ensures
            signed.value_spec() >= 0 ==> duty == Ok::<Duty, ()>(Duty(signed.value_spec() as u16)),
            signed.value_spec() < 0 ==> duty.is_err(),
    {
        if signed.value() < 0 {
            return Err(());
        }
        Ok(Duty(signed.value() as u16))
    }
}

impl TryFromSpecImpl<SignedDuty> for Duty {
    open spec fn obeys_try_from_spec() -> bool {
        true
    }

    open spec fn try_from_spec(signed: SignedDuty) -> Result<Duty, ()> {
        if signed.value_spec() < 0 {
            Err(())
        } else {
            Ok(Duty(signed.value_spec() as u16))
        }
    }
}

/// A motor that can be driven in either direction.
///
/// An implementation says what driving means: nothing is fixed here of what
/// `run_cw` and `run_ccw` do to a motor. The provided methods decide which
/// of the two is called, and with what duty, and do nothing else: they leave
/// the motor as that one call leaves it. In their contracts `motor` stands
/// for the borrow that the call is made through: the motor as it was before
/// the call and as it is after it.
pub trait Motor: Sized {
    /// Drives clockwise with `duty`.
    fn run_cw(&mut self, duty: impl Into<Duty>);

    /// Drives counter-clockwise with `duty`.
    fn run_ccw(&mut self, duty: impl Into<Duty>);

    /// Drives clockwise when `signed_duty` is zero or above, counter-clockwise
    /// with its absolute value when it is below zero: the motor is driven
    /// once, in the direction and with the magnitude of the signed duty that
    /// `signed_duty` converts into.
    fn run(&mut self, signed_duty: impl Into<SignedDuty>) -> (done: Option<()>)
        ensures
            done == Some(()),
            (exists|signed: SignedDuty, motor: &mut Self|
                #![trigger call_ensures(Self::run_cw, (motor, signed.magnitude_spec()), ())]
                #![trigger call_ensures(Self::run_ccw, (motor, signed.magnitude_spec()), ())]
                call_ensures(Into::into, (signed_duty,), signed)
                    && mut_ref_current(motor) == *old(self)
                    && mut_ref_future(motor) == *final(self)
                    && (signed.dir_spec() == Dir::Cw ==> call_ensures(
                    Self::run_cw,
                    (motor, signed.magnitude_spec()),
                    (),
                ))
                    && (signed.dir_spec() == Dir::Ccw ==> call_ensures(
                    Self::run_ccw,
                    (motor, signed.magnitude_spec()),
                    (),
                ))),
    {
        let signed_duty: SignedDuty = signed_duty.into();
        let (dir, duty): (Dir, Duty) = signed_duty.drive();
        self.run_with_dir(duty, dir);
        Some(())
    }

    /// Drives with `duty` in the direction `dir`: the motor is driven once,
    /// by `run_cw` where `dir` is clockwise and by `run_ccw` where it is not.
    fn run_with_dir(&mut self, duty: impl Into<Duty>, dir: Dir)
        ensures
            (exists|motor: &mut Self|
                #![trigger call_ensures(Self::run_cw, (motor, duty), ())]
                #![trigger call_ensures(Self::run_ccw, (motor, duty), ())]
                mut_ref_current(motor) == *old(self)
                    && mut_ref_future(motor) == *final(self)
                    && (dir == Dir::Cw ==> call_ensures(Self::run_cw, (motor, duty), ()))
                    && (dir == Dir::Ccw ==> call_ensures(Self::run_ccw, (motor, duty), ()))),
    {
        if dir == Dir::Cw {
            self.run_cw(duty);
        } else {
            self.run_ccw(duty);
        }
    }
}

} // verus!
