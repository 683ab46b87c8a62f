use vstd::prelude::*;

verus! {

/// Why the interpreter stopped a program.
#[derive(Clone, Copy, PartialEq, Eq, Debug, Structural)]
pub enum Fault {
    /// An operator met operands it is not defined on.
    InvalidOperation,
    /// A field was read or written through a null reference.
    NullReference,
    /// A cast to a type that is not on the chain of the object's ancestors.
    InvalidCast,
    /// A box was opened as another type than it was made of.
    UnboxTypeMismatch,
    /// A value was taken from an operand stack that held none for the method.
    StackUnderflow,
    /// A value was put on an operand stack that was full for the method.
    StackOverflow,
    /// A parameter, a local variable, an object, a string or a row that is not there.
    InvalidIndex,
    /// The code ends within an instruction, or a jump leaves the image.
    CodeOutOfBounds,
    /// A byte that is no opcode.
    UnknownOpcode,
    /// An opcode, or a kind of reference, that the interpreter knows and does not carry out.
    Unsupported,
    /// A token that names no row of a table that the instruction can use.
    InvalidToken,
    /// A name or a member that the metadata does not hold.
    ResolutionFailure,
    /// A value of a kind that the instruction cannot take.
    InvalidValue,
    /// The image of an assembly could not be read.
    InvalidImage,
}

} // verus!
