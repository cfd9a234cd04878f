//! ISO 7816-4 status word interpretation: the generic success code and the
//! "more data" / "wrong length" families that drive the execution engine.

use vstd::prelude::*;
use crate::apdu::status::ApduStatus;

verus! {

/// The generic success status word 0x90 0x00.
pub fn success() -> (r: ApduStatus)
    ensures
        r.code1_spec() == 0x90,
        r.code2_spec() == 0x00,
        r.as_u16_spec() == 0x9000,
{
    ApduStatus::new(0x90, 0x00)
}

/// The byte count announced in the second status byte, where an encoded 0
/// stands for 256 (the card's convention for "at least 256 bytes").
pub open spec fn announced_size(status: ApduStatus) -> int {
    if status.code2_spec() == 0 {
        256
    } else {
        status.code2_spec() as int
    }
}

/// Matches the "more data available" family 0x61 SW2 and yields the number
/// of bytes that a GET RESPONSE may fetch; an encoded 0 means 256.
pub fn has_more_data(status: ApduStatus) -> (r: Option<usize>)
    ensures
        r is Some <==> status.code1_spec() == 0x61,
        r is Some ==> r->Some_0 == announced_size(status) && 1 <= r->Some_0 <= 256,
{
    if status.code1() == 0x61 {
        let size = status.code2();
        if size == 0 {
            Some(256)
        } else {
            Some(size as usize)
        }
    } else {
        None
    }
}

/// Matches the "wrong length" family 0x6C SW2 and yields the length the
/// card expects for the immediately-preceding command; an encoded 0 means
/// 256.
pub fn has_wrong_length(status: ApduStatus) -> (r: Option<usize>)
    ensures
        r is Some <==> status.code1_spec() == 0x6C,
        r is Some ==> r->Some_0 == announced_size(status) && 1 <= r->Some_0 <= 256,
{
    if status.code1() == 0x6C {
        let size = status.code2();
        if size == 0 {
            Some(256)
        } else {
            Some(size as usize)
        }
    } else {
        None
    }
}

} // verus!
