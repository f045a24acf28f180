//! Host side of the link to a multi-slot battery test bench: the wire
//! protocol, the command catalog, payload parsing and the decisions that
//! drive a bench through identity assignment and telemetry polling.

use vstd::prelude::*;

pub mod checksum;
pub mod command;
pub mod frame;
pub mod payload;
pub mod bench;
pub mod exchange;
pub mod poll;
pub mod transport;
pub mod hex;
