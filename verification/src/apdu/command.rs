//! The descriptor of one physical APDU command.

use vstd::prelude::*;
use crate::apdu::class::ApduClass;

verus! {

/// An immutable descriptor of one physical APDU: class, instruction, two
/// parameter bytes and command data.
pub trait ApduCommand {
    type Class: ApduClass;

    spec fn class_spec(&self) -> Self::Class;

    spec fn instruction_spec(&self) -> u8;

    spec fn parameters_spec(&self) -> (u8, u8);

    spec fn data_spec(&self) -> Seq<u8>;

    fn class(&self) -> (r: Self::Class)
        ensures
            r == self.class_spec(),
    ;

    fn instruction(&self) -> (r: u8)
        ensures
            r == self.instruction_spec(),
    ;

    fn parameters(&self) -> (r: (u8, u8))
        ensures
            r == self.parameters_spec(),
    ;

    fn data(&self) -> (r: &[u8])
        ensures
            r@ == self.data_spec(),
    ;
}

} // verus!
