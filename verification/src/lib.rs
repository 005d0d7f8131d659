//! Protocol codec and connection supervisor for the Anker PowerHouse 767.
//!
//! The crate frames outbound commands, parses inbound notifications and
//! decides, event by event, how the link to the device is brought up, kept
//! and torn down. It does no input or output itself: a program carries out
//! what the supervisor asks for and reports back.
//!
//! The functions are verified against their contracts. Three calls are
//! taken on trust, each behind a small private function that says what is
//! assumed of it: the conversion of bytes to a string, the text of the error
//! of that conversion, and the text of a 128-bit identifier.

pub mod api;
pub mod command;
pub mod device;
pub mod metrics;
pub mod supervisor;
pub mod telemetry;
pub mod text;
