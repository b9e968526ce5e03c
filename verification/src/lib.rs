//! Forging, fuzzing and decoding of DVSP messages: the decisions of a
//! diagnostic client, stated and proved over plain values.

pub mod args;
pub mod config;
pub mod decode;
pub mod enums;
pub mod forge;
pub mod frames;
pub mod fuzz;
pub mod protocol;
pub mod run;
pub mod text;
pub mod transport;
