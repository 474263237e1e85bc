//! Discovery of biometric attendance terminals on the local subnet and a
//! client for their binary TCP protocol, with the bookkeeping of the chat
//! assistant and of the document tools that ship alongside.
//!
//! The crate opens no socket, runs no process and touches no file. It holds
//! the frame codec, the session bookkeeping, the record parsers and the
//! decisions of an interaction with a device and of a sweep of the subnet.
//! A caller owns the connections, carries out what the library asks for and
//! hands the outcomes back. The one thing the library reads from the machine
//! is the local time zone, through `chrono`, when it writes the time of an
//! attendance record.

pub mod error;
pub mod codec;
pub mod command;
pub mod session;
pub mod transport;
pub mod text;
pub mod clock;
pub mod records;
pub mod client;
pub mod interaction;
pub mod identify;
pub mod scanner;
pub mod assistant;
pub mod converter;
