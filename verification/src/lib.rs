//! Command/response protocol layer for ISO 7816-4 smart-card communication.
//!
//! The crate encodes and decodes the ISO 7816-4 class byte, splits oversized
//! command data into chained physical APDUs, interprets the two-byte status
//! word returned by the card, and drives the wrong-length retry and more-data
//! continuation loops against an abstract transport.

pub mod apdu;
pub mod iso7816;
