//! Transport layer of a LoRa radio driver: the framing of the four primitive
//! bus operations and their sequencing against the chip's busy line.
//!
//! The library performs no I/O. An operation is planned by [`interface::SpiInterface`],
//! which yields a [`transaction::Transaction`]; the driver carries out the bus request,
//! reports what the bus answered, waits on the busy line when told to, and reports
//! that outcome too. Every decision in between is made, and proved, here.

pub mod interface;
pub mod mod_params;
pub mod protocol;
pub mod transaction;
