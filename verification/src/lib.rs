//! A command protocol for the nodes of a small robot, carried in extended CAN
//! frames, with the motor and switch vocabulary it shares with the rest of a
//! node.
//!
//! `can` holds the frame codec: node addresses, command codes, the packing of
//! the 29-bit identifier and the payload bytes of each command. `robotics`
//! holds duties, directions, switch states and the interface of a motor.

pub mod can;
pub mod robotics;
