//! Protocol client for a remote electromechanical switch driven over an
//! RS-485 serial link with the Modbus RTU protocol.
//!
//! The crate holds the verified core: the switch register codec, the
//! connection-lifecycle state machine, the interpretation of raced
//! (timeout-guarded) bus transactions, the configuration record with its
//! on-disk JSON format, and the labelling of enumerated USB serial ports.
//! The unverifiable edges (serial I/O, the async Modbus session, the timer
//! race itself, file access) live outside the library and drive it through
//! the request/outcome types defined here.

pub mod codec;
pub mod config;
pub mod config_json;
pub mod controller;
pub mod error;
pub mod ports;
