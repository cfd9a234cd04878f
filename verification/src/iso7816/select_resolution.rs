//! How a SELECT command names its target: by application identifier or by
//! two-byte file id.

use vstd::prelude::*;

verus! {

/// The target of a SELECT command.
pub enum Iso7816SelectResolution {
    /// Select by DF name (AID); typically used to select an applet.
    ByApplicationIdentifier(Vec<u8>),
    /// Select by file id (2 bytes); used to traverse the file system.
    ByFileId([u8; 2]),
}

impl Iso7816SelectResolution {
    /// The first parameter byte: 0x04 for selection by AID, 0x00 for
    /// selection by file id.
    pub open spec fn parameter_1_spec(&self) -> u8 {
        match self {
            Iso7816SelectResolution::ByApplicationIdentifier(_) => 0x04,
            Iso7816SelectResolution::ByFileId(_) => 0x00,
        }
    }

    /// The command data: the AID bytes, or the two file id bytes.
    pub open spec fn data_view(&self) -> Seq<u8> {
        match self {
            Iso7816SelectResolution::ByApplicationIdentifier(data) => data@,
            Iso7816SelectResolution::ByFileId(data) => data@,
        }
    }

    pub fn parameter_1(&self) -> (r: u8)
        ensures
            r == self.parameter_1_spec(),
    {
        match self {
            Iso7816SelectResolution::ByApplicationIdentifier(_) => 0x04,
            Iso7816SelectResolution::ByFileId(_) => 0x00,
        }
    }

    pub fn data(&self) -> (r: &[u8])
        ensures
            r@ == self.data_view(),
    {
        match self {
            Iso7816SelectResolution::ByApplicationIdentifier(data) => data.as_slice(),
            Iso7816SelectResolution::ByFileId(data) => data.as_slice(),
        }
    }
}

} // verus!
