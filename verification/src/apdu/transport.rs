//! The abstract transport that moves one physical command to the card and
//! its raw reply back.

use vstd::prelude::*;
use crate::apdu::command::ApduCommand;

verus! {

/// A transport's report that a command payload exceeded what it can carry
/// in one exchange, together with its actual maximum.
#[derive(Clone, Copy, Debug, PartialEq, Eq, Structural)]
pub struct PayloadTooLarge {
    pub max_size: usize,
}

/// An error type a transport hands back. Implementors distinguish the
/// payload-too-large case so the engine can fall back to command chaining;
/// a reported maximum of zero would make chaining impossible, so the report
/// always carries a positive maximum.
pub trait TransportError {
    fn is_payload_too_large(&self) -> (r: Option<PayloadTooLarge>)
        ensures
            r is Some ==> r->Some_0.max_size >= 1,
    {
        None
    }
}

/// One half-duplex channel to a card. `execute` performs one exchange:
/// `reply_len` is the room the caller has for application data, and a
/// successful raw reply holds the data followed by the two status bytes —
/// hence always at least 2 and at most `reply_len + 2` bytes.
pub trait ApduTransport {
    type TransportError: TransportError;

    fn execute<C: ApduCommand>(&mut self, command: &C, reply_len: usize) -> (r: Result<
        Vec<u8>,
        Self::TransportError,
    >)
        ensures
            r is Ok ==> 2 <= r->Ok_0@.len() <= reply_len + 2,
    ;

    /// The transport's declared maximum payload size.
    fn max_payload_size(&self) -> usize;
}

} // verus!
