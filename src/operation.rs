//! The instruction set and its one-byte encoding.
use vstd::prelude::*;

verus! {

/// An operation of the machine; each has a fixed byte.
#[derive(Debug, Clone, Copy, PartialEq, Eq, Structural)]
pub enum Operation {
    Return,
    Constant,
    Negate,
    Add,
    Subtract,
    Multiply,
    Divide,
}

/// The byte that encodes `op`.
pub open spec fn op_byte(op: Operation) -> u8 {
    match op {
        Operation::Return => 0,
        Operation::Constant => 1,
        Operation::Negate => 2,
        Operation::Add => 3,
        Operation::Subtract => 4,
        Operation::Multiply => 5,
        Operation::Divide => 6,
    }
}

/// The operation that `b` encodes, if any.
pub open spec fn decode(b: u8) -> Option<Operation> {
    if b == 0 {
        Some(Operation::Return)
    } else if b == 1 {
        Some(Operation::Constant)
    } else if b == 2 {
        Some(Operation::Negate)
    } else if b == 3 {
        Some(Operation::Add)
    } else if b == 4 {
        Some(Operation::Subtract)
    } else if b == 5 {
        Some(Operation::Multiply)
    } else if b == 6 {
        Some(Operation::Divide)
    } else {
        None
    }
}

/// Number of bytes an instruction starting with `op` occupies, opcode included.
pub open spec fn op_width(op: Operation) -> nat {
    match op {
        Operation::Constant => 2,
        _ => 1,
    }
}

impl Operation {
    /// Encodes the operation as its byte.
    pub fn to_byte(self) -> (r: u8)
        ensures
            r == op_byte(self),
    {
        match self {
            Operation::Return => 0,
            Operation::Constant => 1,
            Operation::Negate => 2,
            Operation::Add => 3,
            Operation::Subtract => 4,
            Operation::Multiply => 5,
            Operation::Divide => 6,
        }
    }

    /// Decodes a byte; an unmapped byte comes back as the error.
    pub fn try_from_byte(b: u8) -> (r: Result<Operation, u8>)
        ensures
            match decode(b) {
                Some(op) => r == Ok::<Operation, u8>(op),
                None => r == Err::<Operation, u8>(b),
            },
    {
        match b {
            0 => Ok(Operation::Return),
            1 => Ok(Operation::Constant),
            2 => Ok(Operation::Negate),
            3 => Ok(Operation::Add),
            4 => Ok(Operation::Subtract),
            5 => Ok(Operation::Multiply),
            6 => Ok(Operation::Divide),
            _ => Err(b),
        }
    }

    /// Bytes taken by an instruction of this operation, the opcode included:
    /// the one table that both the disassembler and the machine go by.
    pub fn width(self) -> (r: usize)
        ensures
            r == op_width(self),
    {
        match self {
            Operation::Constant => 2,
            _ => 1,
        }
    }

    /// Name under which the disassembler shows the operation.
    pub fn name(self) -> (r: &'static str)
        ensures
            r@ == op_name(self),
    {
        proof {
            reveal_strlit("OP_RETURN");
            reveal_strlit("OP_CONSTANT");
            reveal_strlit("OP_NEGATE");
            reveal_strlit("OP_ADD");
            reveal_strlit("OP_SUBTRACT");
            reveal_strlit("OP_MULTIPLY");
            reveal_strlit("OP_DIVIDE");
        }
        match self {
            Operation::Return => "OP_RETURN",
            Operation::Constant => "OP_CONSTANT",
            Operation::Negate => "OP_NEGATE",
            Operation::Add => "OP_ADD",
            Operation::Subtract => "OP_SUBTRACT",
            Operation::Multiply => "OP_MULTIPLY",
            Operation::Divide => "OP_DIVIDE",
        }
    }
}

impl From<Operation> for u8 {
    fn from(op: Operation) -> (r: u8)
        ensures
            r == op_byte(op),
    {
        op.to_byte()
    }
}

impl vstd::std_specs::convert::FromSpecImpl<Operation> for u8 {
    open spec fn obeys_from_spec() -> bool {
        true
    }

    open spec fn from_spec(op: Operation) -> u8 {
        op_byte(op)
    }
}

/// The disassembler's name of `op`.
pub open spec fn op_name(op: Operation) -> Seq<char> {
    match op {
        Operation::Return => seq!['O', 'P', '_', 'R', 'E', 'T', 'U', 'R', 'N'],
        Operation::Constant => seq!['O', 'P', '_', 'C', 'O', 'N', 'S', 'T', 'A', 'N', 'T'],
        Operation::Negate => seq!['O', 'P', '_', 'N', 'E', 'G', 'A', 'T', 'E'],
        Operation::Add => seq!['O', 'P', '_', 'A', 'D', 'D'],
        Operation::Subtract => seq!['O', 'P', '_', 'S', 'U', 'B', 'T', 'R', 'A', 'C', 'T'],
        Operation::Multiply => seq!['O', 'P', '_', 'M', 'U', 'L', 'T', 'I', 'P', 'L', 'Y'],
        Operation::Divide => seq!['O', 'P', '_', 'D', 'I', 'V', 'I', 'D', 'E'],
    }
}

/// Encoding then decoding gives the operation back, and every byte that
/// decodes is the encoding of what it decodes to.
pub proof fn law_encoding_round_trip(op: Operation, b: u8)
    ensures
        decode(op_byte(op)) == Some(op),
        decode(b) matches Some(d) ==> op_byte(d) == b,
        decode(b) is None <==> b > 6,
{
}

} // verus!
