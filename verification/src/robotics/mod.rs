//! Value types shared with the motor and switch logic of a node.

pub mod motor;
pub mod switch;
