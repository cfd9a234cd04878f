//! The two-byte status word that closes every card reply, with
//! predicate-based matching helpers.

use vstd::prelude::*;

verus! {

/// A two-byte outcome code (SW1/SW2) returned by the card as the trailer of
/// every reply.
#[derive(Clone, Copy, Debug)]
pub struct ApduStatus(u8, u8);

impl ApduStatus {
    /// The first status byte (SW1).
    pub closed spec fn code1_spec(self) -> u8 {
        self.0
    }

    /// The second status byte (SW2).
    pub closed spec fn code2_spec(self) -> u8 {
        self.1
    }

    /// Both bytes folded into one 16-bit value, SW1 in the high byte.
    pub open spec fn as_u16_spec(self) -> u16 {
        ((self.code1_spec() as u16) * 0x100 + (self.code2_spec() as u16)) as u16
    }

    pub fn new(code1: u8, code2: u8) -> (r: Self)
        ensures
            r.code1_spec() == code1,
            r.code2_spec() == code2,
    {
        ApduStatus(code1, code2)
    }

    pub fn as_u16(&self) -> (r: u16)
        ensures
            r == self.as_u16_spec(),
    {
        let c1 = self.0;
        let c2 = self.1;
        proof {
            assert(((c1 as u16) << 8) | (c2 as u16) == (c1 as u16) * 0x100 + (c2 as u16))
                by (bit_vector);
        }
        (c1 as u16) << 8 | c2 as u16
    }

    pub fn code1(&self) -> (r: u8)
        ensures
            r == self.code1_spec(),
    {
        self.0
    }

    pub fn code2(&self) -> (r: u8)
        ensures
            r == self.code2_spec(),
    {
        self.1
    }

    /// Applies a matcher that either accepts the status or rejects it; a
    /// rejection hands the status itself back as the error.
    pub fn expect<F: FnOnce(ApduStatus) -> Option<()>>(&self, matcher: F) -> (r: Result<
        (),
        ApduStatus,
    >)
        requires
            call_requires(matcher, (*self,)),
        ensures
            (match r {
                Ok(u) => call_ensures(matcher, (*self,), Some(u)),
                Err(s) => s == *self && call_ensures(matcher, (*self,), None::<()>),
            }),
    {
        match matcher(*self) {
            Some(u) => Ok(u),
            None => Err(*self),
        }
    }

    /// Applies a matcher that extracts a value from the status; a rejection
    /// hands the status itself back as the error.
    pub fn matches_if<T, F: FnOnce(ApduStatus) -> Option<T>>(&self, matcher: F) -> (r: Result<
        T,
        ApduStatus,
    >)
        requires
            call_requires(matcher, (*self,)),
        ensures
            (match r {
                Ok(t) => call_ensures(matcher, (*self,), Some(t)),
                Err(s) => s == *self && call_ensures(matcher, (*self,), None::<T>),
            }),
    {
        match matcher(*self) {
            Some(t) => Ok(t),
            None => Err(*self),
        }
    }
}

/// Builds a matcher that accepts exactly the given two-byte status.
pub fn is(status: ApduStatus) -> (m: impl Fn(ApduStatus) -> Option<()>)
    ensures
        forall|s: ApduStatus| #[trigger] call_requires(m, (s,)),
        forall|s: ApduStatus, r: Option<()>| #[trigger]
            call_ensures(m, (s,), r) ==> (r is Some <==> s.as_u16_spec() == status.as_u16_spec()),
{
    move |other: ApduStatus| -> (r: Option<()>)
        ensures
            r is Some <==> other.as_u16_spec() == status.as_u16_spec(),
        {
            if other.as_u16() == status.as_u16() {
                Some(())
            } else {
                None
            }
        }
}

} // verus!
