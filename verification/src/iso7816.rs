//! The ISO 7816-4 protocol layer: class byte codec, command chunking,
//! status interpretation, TLV decoding, operations, and the execution engine.

pub mod channel;
pub mod chunking;
pub mod class;
pub mod get_response;
pub mod operation;
pub mod select;
pub mod select_resolution;
pub mod status;
pub mod tlv;
pub mod transport;
pub mod tlv_iter;
