//! Arbitration core and wire codec for a dual-controller SBUS link.
//!
//! Two physical controllers are read concurrently; each report updates that
//! controller's latched intent, the two intents are mixed into one authoritative
//! decision, and a qualifying report yields a command that is encoded as a
//! 25-byte SBUS frame.  Everything that decides or computes lives here with a
//! contract; device reads, the serial transport and the threads around them are
//! ordinary Rust in the application.

pub mod car;
pub mod joycons;
pub mod reader;
pub mod sbus_writer;
pub mod state_manager;
pub mod utils;
