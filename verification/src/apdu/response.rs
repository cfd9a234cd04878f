//! A card reply split into application data and its trailing status word.

use vstd::prelude::*;
use vstd::slice::slice_subrange;
use vstd::slice::slice_index_get;
use vstd::slice::slice_to_vec;
use crate::apdu::status::ApduStatus;

verus! {

/// A reply to one APDU command: the application data followed by the
/// two-byte status word, already split apart.
#[derive(Debug)]
pub struct ApduResponse {
    data: Vec<u8>,
    status: ApduStatus,
}

impl ApduResponse {
    /// The application data carried by the reply.
    pub closed spec fn data_spec(self) -> Seq<u8> {
        self.data@
    }

    /// The status word closing the reply.
    pub closed spec fn status_spec(self) -> ApduStatus {
        self.status
    }

    /// A reply with no application data, only a status word.
    pub fn empty(status: ApduStatus) -> (r: Self)
        ensures
            r.data_spec() == Seq::<u8>::empty(),
            r.status_spec() == status,
    {
        ApduResponse { data: Vec::new(), status }
    }

    /// Splits a raw reply buffer at its last two bytes; a buffer shorter
    /// than two bytes has no status word and is rejected.
    pub fn parse(data: &[u8]) -> (r: Option<Self>)
        ensures
            r is Some <==> data@.len() >= 2,
            r is Some ==> r->Some_0.data_spec() == data@.subrange(0, data@.len() - 2),
            r is Some ==> r->Some_0.status_spec().code1_spec() == data@[data@.len() - 2]
                && r->Some_0.status_spec().code2_spec() == data@[data@.len() - 1],
    {
        if data.len() < 2 {
            return None;
        }
        let body = slice_subrange(data, 0, data.len() - 2);
        let code1 = *slice_index_get(data, data.len() - 2);
        let code2 = *slice_index_get(data, data.len() - 1);
        Some(ApduResponse { data: slice_to_vec(body), status: ApduStatus::new(code1, code2) })
    }

    /// Builds a reply directly from its two parts.
    pub fn from_parts(data: Vec<u8>, status: ApduStatus) -> (r: Self)
        ensures
            r.data_spec() == data@,
            r.status_spec() == status,
    {
        ApduResponse { data, status }
    }

    /// Applies a status matcher: on acceptance hands out a copy of the
    /// data, on rejection a copy of the whole reply.
    pub fn expect_status<F: FnOnce(ApduStatus) -> Option<()>>(&self, matcher: F) -> (r: Result<
        Vec<u8>,
        ApduResponse,
    >)
        requires
            call_requires(matcher, (self.status_spec(),)),
        ensures
            (match r {
                Ok(d) => d@ == self.data_spec() && call_ensures(
                    matcher,
                    (self.status_spec(),),
                    Some(()),
                ),
                Err(e) => e.data_spec() == self.data_spec() && e.status_spec()
                    == self.status_spec() && call_ensures(
                    matcher,
                    (self.status_spec(),),
                    None::<()>,
                ),
            }),
    {
        match self.status.expect(matcher) {
            Ok(_) => Ok(slice_to_vec(self.data.as_slice())),
            Err(_) => Err(
                ApduResponse { data: slice_to_vec(self.data.as_slice()), status: self.status },
            ),
        }
    }

    /// The status word closing the reply.
    pub fn status(&self) -> (r: ApduStatus)
        ensures
            r == self.status_spec(),
    {
        self.status
    }

    /// The application data carried by the reply.
    pub fn data(&self) -> (r: &[u8])
        ensures
            r@ == self.data_spec(),
    {
        self.data.as_slice()
    }

    /// A copy of this reply.
    pub fn duplicate(&self) -> (r: Self)
        ensures
            r.data_spec() == self.data_spec(),
            r.status_spec() == self.status_spec(),
    {
        ApduResponse { data: slice_to_vec(self.data.as_slice()), status: self.status }
    }
}

/// Conversion from a reply into an operation's typed result.
pub trait FromResponse: Sized {
    fn from_response(response: ApduResponse) -> Self;
}

} // verus!
