//! The GET RESPONSE operation: instruction 0xC0 with no data, the vehicle
//! for pulling additional reply bytes the card announced.

use vstd::prelude::*;
use crate::apdu::status::ApduStatus;
use crate::apdu::response::ApduResponse;
use crate::iso7816::class::Iso7816Class;
use crate::iso7816::operation::CmdView;
use crate::iso7816::operation::Iso7816Command;
use crate::iso7816::operation::Iso7816Operation;
use crate::iso7816::operation::ReplyBuffer;

verus! {

/// A GET RESPONSE request aimed at the unfilled tail of the caller's reply
/// buffer.
pub struct GetResponse {
    trailer: ReplyBuffer,
}

impl GetResponse {
    /// The reply buffer tail the fetched bytes go to.
    pub closed spec fn trailer_spec(self) -> ReplyBuffer {
        self.trailer
    }

    pub fn new(trailer: ReplyBuffer) -> (r: Self)
        ensures
            r.trailer_spec() == trailer,
    {
        GetResponse { trailer }
    }
}

impl Iso7816Operation for GetResponse {
    type Result = ApduResponse;

    open spec fn builds(&self, class: Iso7816Class, command: CmdView, reply: ReplyBuffer) -> bool {
        command == (CmdView {
            class,
            instruction: 0xC0u8,
            parameters: (0x00u8, 0x00u8),
            data: Seq::<u8>::empty(),
        }) && reply == self.trailer_spec()
    }

    open spec fn parses(&self, data: Seq<u8>, status: ApduStatus, result: ApduResponse) -> bool {
        result.data_spec() == data && result.status_spec() == status
    }

    fn build(&self, class: Iso7816Class) -> (r: (Iso7816Command, ReplyBuffer)) {
        let command = Iso7816Command {
            class,
            instruction: 0xC0,
            parameters: (0x00, 0x00),
            data: Vec::new(),
        };
        (command, self.trailer)
    }

    fn parse(self, reply: &ApduResponse) -> (r: ApduResponse) {
        reply.duplicate()
    }
}

} // verus!
