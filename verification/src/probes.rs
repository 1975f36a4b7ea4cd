//! The probe layer: the logic of every individual check the engine or a
//! caller can run.

pub mod dns;
pub mod interface;
pub mod target;
pub mod traceroute;
