//! The SELECT operation: instruction 0xA4, resolving a target by AID or by
//! file id, with occurrence and file-control-return options encoded in the
//! second parameter byte.

use vstd::prelude::*;
use vstd::slice::slice_to_vec;
use crate::apdu::status::ApduStatus;
use crate::apdu::response::ApduResponse;
use crate::apdu::status::is;
use crate::iso7816::class::Iso7816Class;
use crate::iso7816::operation::CmdView;
use crate::iso7816::operation::Iso7816Command;
use crate::iso7816::operation::Iso7816Operation;
use crate::iso7816::operation::ReplyBuffer;
use crate::iso7816::select_resolution::Iso7816SelectResolution;
use crate::iso7816::status::success;
use crate::iso7816::tlv::tlv_items;
use crate::iso7816::tlv_iter::TlvIterator;

verus! {

/// Which occurrence of the named target to select (two low bits of the
/// second parameter byte).
#[derive(Clone, Copy, Debug, PartialEq, Eq, Structural)]
pub enum SelectOccurrence {
    First,
    Last,
    Next,
    Previous,
}

impl Default for SelectOccurrence {
    fn default() -> (r: Self)
        ensures
            r == SelectOccurrence::First,
    {
        SelectOccurrence::First
    }
}

/// Which file-control template the card should return (bits 3-2 of the
/// second parameter byte).
#[derive(Clone, Copy, Debug, PartialEq, Eq, Structural)]
pub enum FileControlFlag {
    NotRequested,
    WithFileControlInformation,
    WithFileControlParameters,
    WithFileManagementData,
}

/// The occurrence bits of the second parameter byte.
pub open spec fn occurrence_bits(occurrence: SelectOccurrence) -> u8 {
    match occurrence {
        SelectOccurrence::First => 0x00,
        SelectOccurrence::Last => 0x01,
        SelectOccurrence::Next => 0x02,
        SelectOccurrence::Previous => 0x03,
    }
}

/// The file-control-return bits of the second parameter byte.
pub open spec fn file_control_bits(flag: FileControlFlag) -> u8 {
    match flag {
        FileControlFlag::NotRequested => 0x00,
        FileControlFlag::WithFileControlInformation => 0x04,
        FileControlFlag::WithFileControlParameters => 0x08,
        FileControlFlag::WithFileManagementData => 0x0C,
    }
}

/// A SELECT request: target, occurrence, file-control-return option, and
/// the reply buffer shape for the card's answer.
pub struct Iso7816Select {
    resolution: Iso7816SelectResolution,
    file_control_flag: FileControlFlag,
    occurrence: SelectOccurrence,
    response: ReplyBuffer,
}

impl Iso7816Select {
    pub closed spec fn resolution_spec(&self) -> &Iso7816SelectResolution {
        &self.resolution
    }

    pub closed spec fn occurrence_spec(&self) -> SelectOccurrence {
        self.occurrence
    }

    pub closed spec fn file_control_spec(&self) -> FileControlFlag {
        self.file_control_flag
    }

    pub closed spec fn response_spec(&self) -> ReplyBuffer {
        self.response
    }

    /// A SELECT for the first occurrence of `resolution`, returning no
    /// file-control template.
    pub fn new(resolution: Iso7816SelectResolution, response: ReplyBuffer) -> (r: Self)
        ensures
            r.resolution_spec() == resolution,
            r.occurrence_spec() == SelectOccurrence::First,
            r.file_control_spec() == FileControlFlag::NotRequested,
            r.response_spec() == response,
    {
        Iso7816Select {
            resolution,
            file_control_flag: FileControlFlag::NotRequested,
            occurrence: SelectOccurrence::First,
            response,
        }
    }

    pub fn with_file_control_flag(self, file_control_flag: FileControlFlag) -> (r: Self)
        ensures
            r.resolution_spec() == self.resolution_spec(),
            r.occurrence_spec() == self.occurrence_spec(),
            r.file_control_spec() == file_control_flag,
            r.response_spec() == self.response_spec(),
    {
        Iso7816Select { file_control_flag, ..self }
    }

    pub fn with_occurrence(self, occurrence: SelectOccurrence) -> (r: Self)
        ensures
            r.resolution_spec() == self.resolution_spec(),
            r.occurrence_spec() == occurrence,
            r.file_control_spec() == self.file_control_spec(),
            r.response_spec() == self.response_spec(),
    {
        Iso7816Select { occurrence, ..self }
    }
}

impl Iso7816Operation for Iso7816Select {
    type Result = Result<TlvIterator, ApduResponse>;

    open spec fn builds(&self, class: Iso7816Class, command: CmdView, reply: ReplyBuffer) -> bool {
        command == (CmdView {
            class,
            instruction: 0xA4u8,
            parameters: (
                self.resolution_spec().parameter_1_spec(),
                file_control_bits(self.file_control_spec()) | occurrence_bits(
                    self.occurrence_spec(),
                ),
            ),
            data: self.resolution_spec().data_view(),
        }) && reply == self.response_spec()
    }

    open spec fn parses(
        &self,
        data: Seq<u8>,
        status: ApduStatus,
        result: Result<TlvIterator, ApduResponse>,
    ) -> bool {
        match result {
            Ok(iter) => status.as_u16_spec() == 0x9000 && iter.items() == tlv_items(data),
            Err(resp) => status.as_u16_spec() != 0x9000 && resp.data_spec() == data
                && resp.status_spec() == status,
        }
    }

    fn build(&self, class: Iso7816Class) -> (r: (Iso7816Command, ReplyBuffer)) {
        let occurrence: u8 = match self.occurrence {
            SelectOccurrence::First => 0x00,
            SelectOccurrence::Last => 0x01,
            SelectOccurrence::Next => 0x02,
            SelectOccurrence::Previous => 0x03,
        };
        let file_control_flag: u8 = match self.file_control_flag {
            FileControlFlag::NotRequested => 0x00,
            FileControlFlag::WithFileControlInformation => 0x04,
            FileControlFlag::WithFileControlParameters => 0x08,
            FileControlFlag::WithFileManagementData => 0x0C,
        };
        let command = Iso7816Command {
            class,
            instruction: 0xA4,
            parameters: (self.resolution.parameter_1(), file_control_flag | occurrence),
            data: slice_to_vec(self.resolution.data()),
        };
        (command, self.response)
    }

    /// On the generic success status the reply data is handed back as a TLV
    /// walk; any other status hands the whole reply back for the caller to
    /// inspect.
    fn parse(self, response: &ApduResponse) -> (r: Result<TlvIterator, ApduResponse>) {
        match response.expect_status(is(success())) {
            Ok(data) => Ok(TlvIterator::new(data.as_slice())),
            Err(err) => Err(err),
        }
    }
}

} // verus!
