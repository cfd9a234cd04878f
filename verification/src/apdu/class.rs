//! Protocol-neutral class byte abstraction, with an early ISO 7816 codec
//! that keeps the legacy secure-messaging values.

use vstd::prelude::*;

verus! {

/// A class byte that can be encoded to its one-byte wire form.
pub trait ApduClass {
    /// Which values the encoder accepts (channel bounds).
    spec fn wf_spec(&self) -> bool;

    /// The wire byte the value encodes to.
    spec fn to_u8_spec(&self) -> u8;

    /// Encodes the class value to its wire byte.
    fn to_u8(&self) -> (r: u8)
        requires
            self.wf_spec(),
        ensures
            r == self.to_u8_spec(),
    ;
}

/// Secure-messaging indication, including the legacy proprietary pattern.
pub enum SecureMessaging {
    NotUsed,
    /// Authenticated but not encrypted.
    Authenticated,
    /// Both authenticated and encrypted (privacy).
    Encrypted,
    /// Proprietary/legacy format (bits 3-2 equal to 01).
    Proprietary,
}

/// A logical channel number, in the basic range 0-3 or the extended range
/// 4-19.
#[derive(Clone, Copy, Debug, PartialEq, Eq, Structural)]
pub enum ApduChannel {
    Basic(u8),
    Extended(u8),
}

impl Default for ApduChannel {
    fn default() -> (r: Self)
        ensures
            r == ApduChannel::Basic(0u8),
    {
        ApduChannel::Basic(0)
    }
}

/// A decoded class byte in the legacy form: the reserved basic-range
/// secure-messaging pattern is kept as a proprietary value instead of being
/// rejected, and bit 5 of a basic-range byte is ignored.
pub enum Iso7816Class {
    Basic { chaining: bool, secure_messaging: SecureMessaging, basic_channel: u8 },
    Extended { chaining: bool, is_secure_messaging: bool, extended_channel: u8 },
}

/// The two secure-messaging bits (bits 3-2) in the legacy numbering.
pub open spec fn legacy_sm_bits(sm: SecureMessaging) -> u8 {
    match sm {
        SecureMessaging::NotUsed => 0x00,
        SecureMessaging::Proprietary => 0x04,
        SecureMessaging::Authenticated => 0x08,
        SecureMessaging::Encrypted => 0x0C,
    }
}

/// Decodes a wire byte in the legacy form: every byte below 0x80 is
/// accepted.
pub open spec fn legacy_decode_class(b: u8) -> Option<Iso7816Class> {
    if b >= 0x80 {
        Option::None
    } else if (b & 0x40) != 0 {
        Option::Some(
            Iso7816Class::Extended {
                chaining: (b & 0x10) != 0,
                is_secure_messaging: (b & 0x20) != 0,
                extended_channel: ((b & 0x0F) + 4) as u8,
            },
        )
    } else {
        Option::Some(
            Iso7816Class::Basic {
                chaining: (b & 0x10) != 0,
                secure_messaging: if (b & 0x0C) == 0x00 {
                    SecureMessaging::NotUsed
                } else if (b & 0x0C) == 0x04 {
                    SecureMessaging::Proprietary
                } else if (b & 0x0C) == 0x08 {
                    SecureMessaging::Authenticated
                } else {
                    SecureMessaging::Encrypted
                },
                basic_channel: b & 0x03,
            },
        )
    }
}

impl Iso7816Class {
    /// Channel bound the encoder needs: an extended channel is at least 4.
    pub open spec fn wf(self) -> bool {
        match self {
            Iso7816Class::Basic { .. } => true,
            Iso7816Class::Extended { extended_channel, .. } => 4 <= extended_channel
                && extended_channel <= 19,
        }
    }

    /// The wire byte this value encodes to.
    pub open spec fn encoded_spec(self) -> u8 {
        match self {
            Iso7816Class::Basic { chaining, secure_messaging, basic_channel } => (if chaining {
                0x10u8
            } else {
                0u8
            }) | legacy_sm_bits(secure_messaging) | (basic_channel & 0x03),
            Iso7816Class::Extended { chaining, is_secure_messaging, extended_channel } => (if
                chaining {
                0x10u8
            } else {
                0u8
            }) | (if is_secure_messaging {
                0x20u8
            } else {
                0u8
            }) | (((extended_channel - 4) as u8) & 0x0F),
        }
    }

    /// Decodes a wire byte; fails exactly for bytes at or above 0x80.
    pub fn from_u8(class: u8) -> (r: Option<Self>)
        ensures
            r == legacy_decode_class(class),
            r is Some <==> class < 0x80,
            r is Some ==> r->Some_0.wf(),
    {
        if class >= 0x80 {
            return None;
        }
        let chaining = (class & 0x10) != 0;
        if (class & 0x40) != 0 {
            let low = class & 0x0F;
            proof {
                assert(class & 0x0F <= 0x0F) by (bit_vector);
            }
            Some(
                Iso7816Class::Extended {
                    chaining,
                    is_secure_messaging: (class & 0x20) != 0,
                    extended_channel: low + 4,
                },
            )
        } else {
            let sm_sel = class & 0x0C;
            let secure_messaging = if sm_sel == 0x00 {
                SecureMessaging::NotUsed
            } else if sm_sel == 0x04 {
                SecureMessaging::Proprietary
            } else if sm_sel == 0x08 {
                SecureMessaging::Authenticated
            } else {
                SecureMessaging::Encrypted
            };
            proof {
                assert((class & 0x0C == 0x00) || (class & 0x0C == 0x04) || (class & 0x0C == 0x08)
                    || (class & 0x0C == 0x0C)) by (bit_vector);
            }
            Some(
                Iso7816Class::Basic { chaining, secure_messaging, basic_channel: class & 0x03 },
            )
        }
    }
}

impl ApduClass for Iso7816Class {
    open spec fn wf_spec(&self) -> bool {
        self.wf()
    }

    open spec fn to_u8_spec(&self) -> u8 {
        self.encoded_spec()
    }

    fn to_u8(&self) -> (r: u8) {
        match self {
            Iso7816Class::Basic { chaining, secure_messaging, basic_channel } => {
                let chaining_bit: u8 = if *chaining {
                    0x10
                } else {
                    0
                };
                let secure_messaging_bits: u8 = match secure_messaging {
                    SecureMessaging::NotUsed => 0x00,
                    SecureMessaging::Proprietary => 0x04,
                    SecureMessaging::Authenticated => 0x08,
                    SecureMessaging::Encrypted => 0x0C,
                };
                chaining_bit | secure_messaging_bits | (*basic_channel & 0x03)
            },
            Iso7816Class::Extended { chaining, is_secure_messaging, extended_channel } => {
                let chaining_bit: u8 = if *chaining {
                    0x10
                } else {
                    0
                };
                let is_secure_messaging_bit: u8 = if *is_secure_messaging {
                    0x20
                } else {
                    0
                };
                let diff: u8 = *extended_channel - 4;
                chaining_bit | is_secure_messaging_bit | (diff & 0x0F)
            },
        }
    }
}

} // verus!
