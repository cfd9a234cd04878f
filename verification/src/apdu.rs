//! Protocol-neutral APDU building blocks: status words, responses, commands,
//! and the transport abstraction.

pub mod class;
pub mod command;
pub mod response;
pub mod status;
pub mod transport;
