//! The state of a two-position switch and its one-byte wire code.

use vstd::prelude::*;
use vstd::std_specs::convert::{FromSpecImpl, TryFromSpecImpl};

verus! {

/// The position of a two-state switch.
#[derive(Clone, Copy, Debug, PartialEq, Eq, Structural)]
pub enum SwitchState {
    Off,
    On,
}

impl SwitchState {
    /// The byte that stands for this state on the wire: 0 for off, 1 for on.
    pub open spec fn code_spec(self) -> u8 {
        match self {
            SwitchState::Off => 0,
            SwitchState::On => 1,
        }
    }

    /// The state that a wire byte stands for; bytes other than 0 and 1 stand for none.
    pub open spec fn from_code_spec(code: u8) -> Option<SwitchState> {
        if code == 0 {
            Some(SwitchState::Off)
        } else if code == 1 {
            Some(SwitchState::On)
        } else {
            None
        }
    }
}

impl From<SwitchState> for u8 {
    fn from(state: SwitchState) -> (code: u8)
        ensures
            code == state.code_spec(),
    {
        match state {
            SwitchState::Off => 0,
            SwitchState::On => 1,
        }
    }
}

impl FromSpecImpl<SwitchState> for u8 {
    open spec fn obeys_from_spec() -> bool {
        true
    }

    open spec fn from_spec(state: SwitchState) -> u8 {
        state.code_spec()
    }
}

impl TryFrom<u8> for SwitchState {
    type Error = ();

    fn try_from(code: u8) -> (state: Result<SwitchState, ()>)
        ensures
            state.ok() == SwitchState::from_code_spec(code),
    {
        if code == 0 {
            Ok(SwitchState::Off)
        } else if code == 1 {
            Ok(SwitchState::On)
        } else {
            Err(())
        }
    }
}

impl TryFromSpecImpl<u8> for SwitchState {
    open spec fn obeys_try_from_spec() -> bool {
        true
    }

    open spec fn try_from_spec(code: u8) -> Result<SwitchState, ()> {
        match SwitchState::from_code_spec(code) {
            Some(state) => Ok(state),
            None => Err(()),
        }
    }
}

/// Every state is recovered from its own code, and a byte that decodes is the
/// code of the state it decodes to.
pub proof fn lemma_switch_code_bijection(state: SwitchState, code: u8)
    ensures
        SwitchState::from_code_spec(state.code_spec()) == Some(state),
        SwitchState::from_code_spec(code) == Some(state) ==> state.code_spec() == code,
{
}

} // verus!
