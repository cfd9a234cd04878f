//! One physical ISO 7816-4 command, and the build/parse contract that turns
//! typed requests into commands and replies back into typed results.

use vstd::prelude::*;
use vstd::slice::slice_to_vec;
use crate::apdu::command::ApduCommand;
use crate::apdu::status::ApduStatus;
use crate::apdu::response::ApduResponse;
use crate::iso7816::class::Iso7816Class;
use crate::iso7816::chunking::CommandChunker;
use crate::iso7816::chunking::cmd_chunks;

verus! {

/// The mathematical view of one physical command: its header fields and
/// data bytes.
#[verifier::ext_equal]
pub ghost struct CmdView {
    pub class: Iso7816Class,
    pub instruction: u8,
    pub parameters: (u8, u8),
    pub data: Seq<u8>,
}

impl CmdView {
    /// The same command carrying different data.
    pub open spec fn with_data(self, data: Seq<u8>) -> CmdView {
        CmdView { data, ..self }
    }

    /// The same command under a different class byte.
    pub open spec fn with_class(self, class: Iso7816Class) -> CmdView {
        CmdView { class, ..self }
    }
}

/// One physical APDU command: class, instruction, two parameter bytes and
/// the command data.
pub struct Iso7816Command {
    pub class: Iso7816Class,
    pub instruction: u8,
    pub parameters: (u8, u8),
    pub data: Vec<u8>,
}

impl View for Iso7816Command {
    type V = CmdView;

    open spec fn view(&self) -> CmdView {
        CmdView {
            class: self.class,
            instruction: self.instruction,
            parameters: self.parameters,
            data: self.data@,
        }
    }
}

impl Iso7816Command {
    /// A copy of this command.
    pub fn duplicate(&self) -> (r: Self)
        ensures
            r@ == self@,
    {
        Iso7816Command {
            class: self.class,
            instruction: self.instruction,
            parameters: self.parameters,
            data: slice_to_vec(self.data.as_slice()),
        }
    }

    /// Splits this command's data into pieces of at most `max_size` bytes;
    /// the chunker hands back one command per piece, with the chaining flag
    /// forced on for every piece but the last.
    pub fn chunk(&self, max_size: usize) -> (r: CommandChunker)
        requires
            max_size >= 1,
        ensures
            r.wf(),
            r.remaining() == cmd_chunks(self@, max_size as int),
    {
        CommandChunker::start(self.duplicate(), max_size)
    }
}

impl ApduCommand for Iso7816Command {
    type Class = Iso7816Class;

    open spec fn class_spec(&self) -> Iso7816Class {
        self.class
    }

    open spec fn instruction_spec(&self) -> u8 {
        self.instruction
    }

    open spec fn parameters_spec(&self) -> (u8, u8) {
        self.parameters
    }

    open spec fn data_spec(&self) -> Seq<u8> {
        self.data@
    }

    fn class(&self) -> (r: Iso7816Class) {
        self.class
    }

    fn instruction(&self) -> (r: u8) {
        self.instruction
    }

    fn parameters(&self) -> (r: (u8, u8)) {
        self.parameters
    }

    fn data(&self) -> (r: &[u8]) {
        self.data.as_slice()
    }
}

/// The shape of the reply buffer a caller hands to the execution engine:
/// its total capacity in data bytes, and how many data bytes the first
/// exchange should ask the card for.
#[derive(Clone, Copy, Debug, PartialEq, Eq, Structural)]
pub struct ReplyBuffer {
    pub capacity: usize,
    pub requested: usize,
}

/// The build/parse contract of one logical card operation: `build` produces
/// the physical command and the reply buffer shape, `parse` turns the final
/// reply into the operation's typed result.
pub trait Iso7816Operation: Sized {
    type Result;

    /// Which command and reply buffer `build` may return for a given class.
    spec fn builds(&self, class: Iso7816Class, command: CmdView, reply: ReplyBuffer) -> bool;

    /// Which result `parse` may return for a given final reply.
    spec fn parses(&self, data: Seq<u8>, status: ApduStatus, result: Self::Result) -> bool;

    fn build(&self, class: Iso7816Class) -> (r: (Iso7816Command, ReplyBuffer))
        ensures
            self.builds(class, r.0@, r.1),
    ;

    fn parse(self, response: &ApduResponse) -> (r: Self::Result)
        ensures
            self.parses(response.data_spec(), response.status_spec(), r),
    ;
}

} // verus!
