//! Wire-protocol layer for the Sensirion SCD30 CO2/temperature/humidity
//! sensor: command-frame encoding, response validation through the sensor's
//! CRC-8 checksum, and the per-operation decision logic of a bus exchange.
//!
//! The bus transport itself (opening the device, raw byte writes and reads,
//! the settle pause between them) is a collaborator outside this crate; a
//! driver hands its outcomes to [`session`], which decides what follows.

pub mod checksum;
pub mod codec;
pub mod error;
pub mod session;
