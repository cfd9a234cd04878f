//! Logical channel numbering for ISO 7816-4.

use vstd::prelude::*;

verus! {

/// A logical channel number: basic channels 0-3 are carried directly in the
/// class byte's two low bits, extended channels 4-19 in four bits offset by
/// 4.
#[derive(Clone, Copy, Debug, PartialEq, Eq, Structural)]
pub enum Iso7816Channel {
    Basic(u8),
    Extended(u8),
}

impl Default for Iso7816Channel {
    fn default() -> (r: Self)
        ensures
            r == Iso7816Channel::Basic(0u8),
    {
        Iso7816Channel::Basic(0)
    }
}

} // verus!
