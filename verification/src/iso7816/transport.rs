//! The transport execution engine: runs one logical operation against an
//! abstract transport, chunking oversized payloads, retrying after a
//! wrong-length report, and pulling announced continuation bytes via GET
//! RESPONSE — all under the caller's reply buffer capacity.

use vstd::prelude::*;
use vstd::pervasive::unreached;
use vstd::slice::slice_to_vec;
use crate::apdu::response::ApduResponse;
use crate::apdu::status::is;
use crate::apdu::transport::ApduTransport;
use crate::apdu::transport::TransportError;
use crate::iso7816::class::Iso7816Class;
use crate::iso7816::get_response::GetResponse;
use crate::iso7816::operation::CmdView;
use crate::iso7816::operation::Iso7816Command;
use crate::iso7816::operation::Iso7816Operation;
use crate::iso7816::operation::ReplyBuffer;
use crate::iso7816::status::has_more_data;
use crate::iso7816::status::has_wrong_length;
use crate::iso7816::status::success;

verus! {

/// What can end an `execute` call early: an opaque transport failure, or a
/// reply that needs more room than the caller's buffer has.
#[derive(Debug)]
pub enum Iso7816TransportError<E> {
    Transport(E),
    ResponseBufferTooSmall { expected: usize, hint: usize },
}

/// Some build/parse pair of `operation` under `class` explains `result`,
/// with the reply data no longer than the length requested for one
/// exchange.
pub open spec fn single_exchange_outcome<O: Iso7816Operation>(
    operation: O,
    class: Iso7816Class,
    result: O::Result,
) -> bool {
    exists|cmd: CmdView, rb: ReplyBuffer, data: Seq<u8>, st: crate::apdu::status::ApduStatus|
        #![trigger operation.builds(class, cmd, rb), operation.parses(data, st, result)]
        operation.builds(class, cmd, rb) && operation.parses(data, st, result) && data.len()
            <= rb.requested
}

/// Some build/parse pair of `operation` under `class` explains `result`,
/// with the accumulated reply data within the reply buffer's capacity.
pub open spec fn execute_outcome<O: Iso7816Operation>(
    operation: O,
    class: Iso7816Class,
    result: O::Result,
) -> bool {
    exists|cmd: CmdView, rb: ReplyBuffer, data: Seq<u8>, st: crate::apdu::status::ApduStatus|
        #![trigger operation.builds(class, cmd, rb), operation.parses(data, st, result)]
        operation.builds(class, cmd, rb) && operation.parses(data, st, result) && data.len()
            <= rb.capacity
}

/// A buffer-too-small report is truthful: the card needed `expected` bytes,
/// more than the capacity of the reply buffer the operation supplied, and
/// that capacity is what the report names as available.
pub open spec fn buffer_shortfall<O: Iso7816Operation>(
    operation: O,
    class: Iso7816Class,
    expected: usize,
    hint: usize,
) -> bool {
    exists|cmd: CmdView, rb: ReplyBuffer| #[trigger]
        operation.builds(class, cmd, rb) && hint == rb.capacity && expected > hint
}

/// The engine: an underlying transport plus the class byte (channel and
/// secure-messaging state) every built command is stamped with.
pub struct Iso7816Transport<T: ApduTransport> {
    transport: T,
    state: Iso7816Class,
}

impl<T: ApduTransport> Iso7816Transport<T> {
    /// The class byte the engine stamps on built commands.
    pub closed spec fn class_state(self) -> Iso7816Class {
        self.state
    }

    /// An engine over `transport`, on the basic channel 0 with no chaining
    /// and no secure messaging.
    pub fn new(transport: T) -> (r: Self)
        ensures
            r.class_state() == crate::iso7816::class::default_class(),
    {
        Iso7816Transport { transport, state: Iso7816Class::default() }
    }

    /// Builds one operation's command, runs it once, and parses the reply.
    /// No chunking, no retries: this is the engine's primitive for GET
    /// RESPONSE continuations.
    #[verifier::loop_isolation(false)]
    fn execute_single<O: Iso7816Operation>(&mut self, operation: O) -> (r: Result<
        O::Result,
        Iso7816TransportError<T::TransportError>,
    >)
        ensures
            final(self).class_state() == old(self).class_state(),
            (match r {
                Ok(result) => single_exchange_outcome(operation, old(self).class_state(), result),
                Err(e) => e is Transport,
            }),
    {
        let (command, reply) = operation.build(self.state);
        let raw = match self.transport.execute(&command, reply.requested) {
            Ok(raw) => raw,
            Err(e) => {
                return Err(Iso7816TransportError::Transport(e));
            },
        };
        let resp = match ApduResponse::parse(raw.as_slice()) {
            Some(resp) => resp,
            None => unreached(),
        };
        let result = operation.parse(&resp);
        proof {
            assert(operation.builds(old(self).class_state(), command@, reply));
            assert(operation.parses(resp.data_spec(), resp.status_spec(), result));
            assert(resp.data_spec().len() <= reply.requested);
            assert(single_exchange_outcome(operation, old(self).class_state(), result));
        }
        Ok(result)
    }

    /// Runs one physical command. If the transport reports the payload too
    /// large, resends it as a chain of chunks: all but the last against a
    /// status-only scratch reply, aborting early with that status if an
    /// intermediate chunk is not answered with plain success; the last
    /// chunk against the caller's reply length.
    #[verifier::loop_isolation(false)]
    fn execute_command_chunked(&mut self, command: &Iso7816Command, reply_len: usize) -> (r: Result<
        Vec<u8>,
        Iso7816TransportError<T::TransportError>,
    >)
        ensures
            final(self).class_state() == old(self).class_state(),
            r is Ok ==> 2 <= r->Ok_0@.len() <= reply_len + 2,
            r is Err ==> r->Err_0 is Transport,
    {
        let err = match self.transport.execute(command, reply_len) {
            Ok(raw) => {
                return Ok(raw);
            },
            Err(e) => e,
        };
        let too_large = match err.is_payload_too_large() {
            Some(report) => report,
            None => {
                return Err(Iso7816TransportError::Transport(err));
            },
        };
        let mut chunker = command.chunk(too_large.max_size);
        loop
            invariant
                chunker.wf(),
                chunker.remaining().len() >= 1,
                self.class_state() == old(self).class_state(),
            decreases chunker.remaining().len(),
        {
            let chunk = match chunker.next() {
                Some(chunk) => chunk,
                None => unreached(),
            };
            if chunker.is_done() {
                // the last chunk is answered into the caller's reply room
                return match self.transport.execute(&chunk, reply_len) {
                    Ok(raw) => Ok(raw),
                    Err(e) => Err(Iso7816TransportError::Transport(e)),
                };
            }
            // an intermediate chunk only needs its status word observed
            let raw = match self.transport.execute(&chunk, 0) {
                Ok(raw) => raw,
                Err(e) => {
                    return Err(Iso7816TransportError::Transport(e));
                },
            };
            let resp = match ApduResponse::parse(raw.as_slice()) {
                Some(resp) => resp,
                None => unreached(),
            };
            let status = resp.status();
            if status.expect(is(success())).is_err() {
                // abort the chain: hand back an empty reply with that status
                let mut aborted: Vec<u8> = Vec::new();
                aborted.push(status.code1());
                aborted.push(status.code2());
                return Ok(aborted);
            }
        }
    }

    /// Runs one logical operation to completion: builds its command, sends
    /// it (chunked if the transport demands it), re-sends it truncated to
    /// the corrected length if the card reports a wrong length, then keeps
    /// appending continuation bytes fetched via GET RESPONSE while the card
    /// announces more data — failing with a buffer-too-small report as soon
    /// as the announced need exceeds the caller's capacity. The final
    /// accumulated reply is handed to the operation's parse step.
    ///
    /// The reply buffer's capacity must sit at least one announcement (256
    /// bytes, the largest count a status word can carry) below the address
    /// space limit, so that `accumulated + announced` can be computed.
    #[verifier::loop_isolation(false)]
    pub fn execute<O: Iso7816Operation>(&mut self, operation: O) -> (r: Result<
        O::Result,
        Iso7816TransportError<T::TransportError>,
    >)
        requires
            forall|cmd: CmdView, rb: ReplyBuffer| #[trigger]
                operation.builds(old(self).class_state(), cmd, rb) ==> rb.capacity <= usize::MAX
                    - 256,
        ensures
            final(self).class_state() == old(self).class_state(),
            (match r {
                Ok(result) => execute_outcome(operation, old(self).class_state(), result),
                Err(Iso7816TransportError::ResponseBufferTooSmall { expected, hint }) =>
                    buffer_shortfall(operation, old(self).class_state(), expected, hint),
                Err(Iso7816TransportError::Transport(_)) => true,
            }),
    {
        let (command, reply) = operation.build(self.state);
        let capacity = reply.capacity;
        let first_request = if reply.requested < capacity {
            reply.requested
        } else {
            capacity
        };
        let raw = match self.execute_command_chunked(&command, first_request) {
            Ok(raw) => raw,
            Err(e) => {
                return Err(e);
            },
        };
        let mut resp = match ApduResponse::parse(raw.as_slice()) {
            Some(resp) => resp,
            None => unreached(),
        };
        // wrong length: the card names the length it expects for the same
        // command; resend truncated to exactly that length
        match resp.status().matches_if(has_wrong_length) {
            Ok(size) => {
                if size > capacity {
                    proof {
                        assert(operation.builds(old(self).class_state(), command@, reply));
                        assert(buffer_shortfall(operation, old(self).class_state(), size, capacity));
                    }
                    return Err(
                        Iso7816TransportError::ResponseBufferTooSmall {
                            expected: size,
                            hint: capacity,
                        },
                    );
                }
                let raw2 = match self.execute_command_chunked(&command, size) {
                    Ok(raw) => raw,
                    Err(e) => {
                        return Err(e);
                    },
                };
                resp = match ApduResponse::parse(raw2.as_slice()) {
                    Some(resp) => resp,
                    None => unreached(),
                };
            },
            Err(_) => {},
        }
        // more data: keep fetching announced continuation bytes into the
        // unfilled tail of the reply room
        let mut acc = slice_to_vec(resp.data());
        let mut status = resp.status();
        loop
            invariant
                acc@.len() <= capacity,
                self.class_state() == old(self).class_state(),
            decreases capacity - acc@.len(),
        {
            let size = match status.matches_if(has_more_data) {
                Ok(size) => size,
                Err(_) => {
                    break ;
                },
            };
            if size > capacity - acc.len() {
                let expected = acc.len() + size;
                proof {
                    assert(operation.builds(old(self).class_state(), command@, reply));
                    assert(buffer_shortfall(operation, old(self).class_state(), expected, capacity));
                }
                return Err(
                    Iso7816TransportError::ResponseBufferTooSmall { expected, hint: capacity },
                );
            }
            let fetch = GetResponse::new(ReplyBuffer { capacity: size, requested: size });
            let more = match self.execute_single(fetch) {
                Ok(more) => more,
                Err(e) => {
                    return Err(e);
                },
            };
            proof {
                assert(single_exchange_outcome(fetch, self.class_state(), more));
                let (cmd, rb, data, st) = choose|
                    cmd: CmdView,
                    rb: ReplyBuffer,
                    data: Seq<u8>,
                    st: crate::apdu::status::ApduStatus,
                |
                    #![trigger fetch.builds(self.class_state(), cmd, rb), fetch.parses(data, st, more)]
                    fetch.builds(self.class_state(), cmd, rb) && fetch.parses(data, st, more)
                        && data.len() <= rb.requested;
                assert(more.data_spec().len() <= size);
            }
            let mut tail = slice_to_vec(more.data());
            let fetched = tail.len();
            acc.append(&mut tail);
            status = more.status();
            if fetched == 0 {
                // a continuation that yields no bytes cannot make progress;
                // stop and surface the status it came with
                break ;
            }
        }
        let final_response = ApduResponse::from_parts(acc, status);
        let result = operation.parse(&final_response);
        proof {
            assert(operation.builds(old(self).class_state(), command@, reply));
            assert(operation.parses(
                final_response.data_spec(),
                final_response.status_spec(),
                result,
            ));
            assert(final_response.data_spec().len() <= reply.capacity);
            assert(execute_outcome(operation, old(self).class_state(), result));
        }
        Ok(result)
    }
}

} // verus!
