//! Bit-exact encode/decode of the ISO 7816-4 class byte.
//!
//! The wire format is one byte in the range 0x00-0x7F. Bit 6 (0x40) selects
//! the extended channel range, bit 4 (0x10) is the command-chaining flag in
//! both ranges. In the basic range, bits 3-2 select the secure-messaging
//! mode (the pattern 01 is reserved and rejected, as is bit 5) and bits 1-0
//! carry channels 0-3. In the extended range, bit 5 (0x20) is the
//! secure-messaging flag and bits 3-0 plus an offset of 4 carry channels
//! 4-19.

use vstd::prelude::*;
use crate::apdu::class::ApduClass;

verus! {

/// Secure-messaging mode carried by a basic-range class byte.
#[derive(Clone, Copy, PartialEq, Eq, Structural, Debug)]
pub enum SecureMessaging {
    NotUsed,
    /// SM used, command header not authenticated (wire value 10b).
    Authenticated,
    /// SM used, command header authenticated (wire value 11b).
    HeaderAuthenticated,
}

impl Default for SecureMessaging {
    fn default() -> (r: Self)
        ensures
            r == SecureMessaging::NotUsed,
    {
        SecureMessaging::NotUsed
    }
}

/// The decoded form of a class byte: either a basic-range value with a
/// secure-messaging mode and a channel in 0-3, or an extended-range value
/// with a secure-messaging flag and a channel in 4-19.
#[derive(Clone, Copy, PartialEq, Eq, Structural, Debug)]
pub enum Iso7816ClassState {
    Basic { chaining: bool, secure_messaging: SecureMessaging, basic_channel: u8 },
    Extended { chaining: bool, is_secure_messaging: bool, extended_channel: u8 },
}

/// A structured ISO 7816-4 class byte value.
#[derive(Clone, Copy, PartialEq, Eq, Structural, Debug)]
pub struct Iso7816Class {
    pub state: Iso7816ClassState,
}

/// The two secure-messaging bits (bits 3-2) of a basic-range class byte.
pub open spec fn sm_bits(sm: SecureMessaging) -> u8 {
    match sm {
        SecureMessaging::NotUsed => 0x00,
        SecureMessaging::Authenticated => 0x08,
        SecureMessaging::HeaderAuthenticated => 0x0C,
    }
}

/// Decoding accepts exactly the bytes below 0x80 that avoid the reserved
/// basic-range patterns: bit 5 set, or secure-messaging bits equal to 01.
pub open spec fn decode_ok(b: u8) -> bool {
    b < 0x80 && ((b & 0x40) != 0 || ((b & 0x20) == 0 && (b & 0x0C) != 0x04))
}

impl Iso7816Class {
    /// Channel bounds kept by every value this module hands out.
    pub open spec fn wf(self) -> bool {
        match self.state {
            Iso7816ClassState::Basic { basic_channel, .. } => basic_channel <= 3,
            Iso7816ClassState::Extended { extended_channel, .. } => 4 <= extended_channel
                && extended_channel <= 19,
        }
    }

    /// Whether the command-chaining flag is set.
    pub open spec fn chaining_spec(self) -> bool {
        match self.state {
            Iso7816ClassState::Basic { chaining, .. } => chaining,
            Iso7816ClassState::Extended { chaining, .. } => chaining,
        }
    }

    /// The same value with the chaining flag forced on.
    pub open spec fn with_chaining_spec(self) -> Iso7816Class {
        match self.state {
            Iso7816ClassState::Basic { chaining, secure_messaging, basic_channel } => Iso7816Class {
                state: Iso7816ClassState::Basic { chaining: true, secure_messaging, basic_channel },
            },
            Iso7816ClassState::Extended {
                chaining,
                is_secure_messaging,
                extended_channel,
            } => Iso7816Class {
                state: Iso7816ClassState::Extended {
                    chaining: true,
                    is_secure_messaging,
                    extended_channel,
                },
            },
        }
    }

    /// The wire byte this value encodes to.
    pub open spec fn encoded_spec(self) -> u8 {
        match self.state {
            Iso7816ClassState::Basic { chaining, secure_messaging, basic_channel } => (if chaining {
                0x10u8
            } else {
                0u8
            }) | sm_bits(secure_messaging) | (basic_channel & 0x03),
            Iso7816ClassState::Extended {
                chaining,
                is_secure_messaging,
                extended_channel,
            } => 0x40u8 | (if chaining {
                0x10u8
            } else {
                0u8
            }) | (if is_secure_messaging {
                0x20u8
            } else {
                0u8
            }) | (((extended_channel - 4) as u8) & 0x0F),
        }
    }

    /// Decodes a wire byte; fails for bytes at or above 0x80 and for the
    /// reserved basic-range bit patterns.
    pub fn from_u8(class: u8) -> (r: Option<Self>)
        ensures
            r == decode_class(class),
            r is Some <==> decode_ok(class),
            r is Some ==> r->Some_0.wf() && r->Some_0.encoded_spec() == class,
    {
        proof {
            lemma_class_byte_rejection(class);
            if decode_ok(class) {
                lemma_class_byte_round_trip(class);
            }
        }
        if class >= 0x80 {
            return None;
        }
        let chaining = (class & 0x10) != 0;
        if (class & 0x40) != 0 {
            let low = class & 0x0F;
            proof {
                assert(class & 0x0F <= 0x0F) by (bit_vector);
            }
            Some(
                Iso7816Class {
                    state: Iso7816ClassState::Extended {
                        chaining,
                        is_secure_messaging: (class & 0x20) != 0,
                        extended_channel: low + 4,
                    },
                },
            )
        } else {
            if (class & 0x20) != 0 {
                return None;
            }
            let sm_sel = class & 0x0C;
            let secure_messaging = if sm_sel == 0x00 {
                SecureMessaging::NotUsed
            } else if sm_sel == 0x04 {
                return None;
            } else if sm_sel == 0x08 {
                SecureMessaging::Authenticated
            } else {
                SecureMessaging::HeaderAuthenticated
            };
            proof {
                assert((class & 0x0C == 0x00) || (class & 0x0C == 0x04) || (class & 0x0C == 0x08)
                    || (class & 0x0C == 0x0C)) by (bit_vector);
            }
            Some(
                Iso7816Class {
                    state: Iso7816ClassState::Basic {
                        chaining,
                        secure_messaging,
                        basic_channel: class & 0x03,
                    },
                },
            )
        }
    }

    /// Whether the command-chaining flag is set.
    pub fn is_chaining(&self) -> (r: bool)
        ensures
            r == self.chaining_spec(),
    {
        match self.state {
            Iso7816ClassState::Basic { chaining, .. } => chaining,
            Iso7816ClassState::Extended { chaining, .. } => chaining,
        }
    }

    /// A copy of this value with the chaining flag forced on; the receiver
    /// is never mutated.
    pub fn with_chaining(&self) -> (r: Self)
        ensures
            r == self.with_chaining_spec(),
            self.wf() ==> r.wf(),
    {
        match self.state {
            Iso7816ClassState::Basic { chaining, secure_messaging, basic_channel } => Iso7816Class {
                state: Iso7816ClassState::Basic { chaining: true, secure_messaging, basic_channel },
            },
            Iso7816ClassState::Extended {
                chaining,
                is_secure_messaging,
                extended_channel,
            } => Iso7816Class {
                state: Iso7816ClassState::Extended {
                    chaining: true,
                    is_secure_messaging,
                    extended_channel,
                },
            },
        }
    }
}

/// The default class value: basic range, no chaining, no secure messaging,
/// channel 0 — the class byte 0x00.
pub open spec fn default_class() -> Iso7816Class {
    Iso7816Class {
        state: Iso7816ClassState::Basic {
            chaining: false,
            secure_messaging: SecureMessaging::NotUsed,
            basic_channel: 0u8,
        },
    }
}

impl Default for Iso7816Class {
    /// The default class byte 0x00: basic range, no chaining, no secure
    /// messaging, channel 0.
    fn default() -> (r: Self)
        ensures
            r == default_class(),
            r.wf(),
            r.encoded_spec() == 0u8,
    {
        let r = Iso7816Class {
            state: Iso7816ClassState::Basic {
                chaining: false,
                secure_messaging: SecureMessaging::NotUsed,
                basic_channel: 0,
            },
        };
        proof {
            assert(0u8 | 0u8 | (0u8 & 0x03) == 0u8) by (bit_vector);
        }
        r
    }
}

impl ApduClass for Iso7816Class {
    open spec fn wf_spec(&self) -> bool {
        self.wf()
    }

    open spec fn to_u8_spec(&self) -> u8 {
        self.encoded_spec()
    }

    fn to_u8(&self) -> (r: u8) {
        match &self.state {
            Iso7816ClassState::Basic { chaining, secure_messaging, basic_channel } => {
                let chaining_bit: u8 = if *chaining {
                    0x10
                } else {
                    0
                };
                let secure_messaging_bits: u8 = match *secure_messaging {
                    SecureMessaging::NotUsed => 0x00,
                    SecureMessaging::Authenticated => 0x08,
                    SecureMessaging::HeaderAuthenticated => 0x0C,
                };
                chaining_bit | secure_messaging_bits | (*basic_channel & 0x03)
            },
            Iso7816ClassState::Extended { chaining, is_secure_messaging, extended_channel } => {
                let chaining_bit: u8 = if *chaining {
                    0x10
                } else {
                    0
                };
                let is_secure_messaging_bit: u8 = if *is_secure_messaging {
                    0x20
                } else {
                    0
                };
                let diff: u8 = *extended_channel - 4;
                0x40u8 | chaining_bit | is_secure_messaging_bit | (diff & 0x0F)
            },
        }
    }
}

/// Class byte round-trip: every byte below 0x80 outside the reserved
/// basic-range patterns decodes, and encoding the decoded value gives the
/// byte back.
pub proof fn lemma_class_byte_round_trip(b: u8)
    requires
        decode_ok(b),
    ensures
        decode_class(b) is Some,
        decode_class(b)->Some_0.wf(),
        decode_class(b)->Some_0.encoded_spec() == b,
{
    let c = decode_class(b)->Some_0;
    if (b & 0x40) != 0 {
        assert(b & 0x0F <= 0x0F) by (bit_vector);
        let lo = b & 0x0F;
        let chb: u8 = if (b & 0x10) != 0 {
            0x10
        } else {
            0
        };
        let smb: u8 = if (b & 0x20) != 0 {
            0x20
        } else {
            0
        };
        assert(c.encoded_spec() == 0x40u8 | chb | smb | (lo & 0x0F));
        assert(b < 0x80 && (b & 0x40) != 0 ==> (0x40u8 | chb | smb | ((b & 0x0F) & 0x0F)) == b)
            by (bit_vector)
            requires
                chb == (if (b & 0x10) != 0 {
                    0x10u8
                } else {
                    0u8
                }),
                smb == (if (b & 0x20) != 0 {
                    0x20u8
                } else {
                    0u8
                }),
        ;
    } else {
        let chb: u8 = if (b & 0x10) != 0 {
            0x10
        } else {
            0
        };
        let smb: u8 = if (b & 0x0C) == 0 {
            0x00
        } else if (b & 0x0C) == 0x08 {
            0x08
        } else {
            0x0C
        };
        assert((b & 0x0C == 0x00) || (b & 0x0C == 0x04) || (b & 0x0C == 0x08) || (b & 0x0C
            == 0x0C)) by (bit_vector);
        assert(sm_bits(c.state->Basic_secure_messaging) == smb);
        assert(c.encoded_spec() == chb | smb | ((b & 0x03) & 0x03));
        assert(b < 0x80 && (b & 0x40) == 0 && (b & 0x20) == 0 && (b & 0x0C) != 0x04 ==> (chb | smb
            | ((b & 0x03) & 0x03)) == b) by (bit_vector)
            requires
                chb == (if (b & 0x10) != 0 {
                    0x10u8
                } else {
                    0u8
                }),
                smb == (if (b & 0x0C) == 0 {
                    0x00u8
                } else if (b & 0x0C) == 0x08 {
                    0x08u8
                } else {
                    0x0Cu8
                }),
        ;
        assert(b & 0x03 <= 3) by (bit_vector);
    }
}

/// Class byte rejection: decoding fails for every byte at or above 0x80 and
/// for the reserved basic-range bit patterns, and only for those.
pub proof fn lemma_class_byte_rejection(b: u8)
    ensures
        decode_class(b) is None <==> (b >= 0x80 || ((b & 0x40) == 0 && ((b & 0x20) != 0 || (b
            & 0x0C) == 0x04))),
{
}

/// Decodes a wire byte into a structured class value, or nothing when the
/// byte is at or above 0x80 or uses a reserved basic-range pattern.
pub open spec fn decode_class(b: u8) -> Option<Iso7816Class> {
    if !decode_ok(b) {
        Option::None
    } else if (b & 0x40) != 0 {
        Option::Some(
            Iso7816Class {
                state: Iso7816ClassState::Extended {
                    chaining: (b & 0x10) != 0,
                    is_secure_messaging: (b & 0x20) != 0,
                    extended_channel: ((b & 0x0F) + 4) as u8,
                },
            },
        )
    } else {
        Option::Some(
            Iso7816Class {
                state: Iso7816ClassState::Basic {
                    chaining: (b & 0x10) != 0,
                    secure_messaging: if (b & 0x0C) == 0 {
                        SecureMessaging::NotUsed
                    } else if (b & 0x0C) == 0x08 {
                        SecureMessaging::Authenticated
                    } else {
                        SecureMessaging::HeaderAuthenticated
                    },
                    basic_channel: b & 0x03,
                },
            },
        )
    }
}

} // verus!
