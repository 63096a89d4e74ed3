//! The instruction opcodes and their single-byte encoding.

use vstd::prelude::*;

use crate::text::dec;
use crate::text::push_dec;

verus! {

/// The closed set of instruction opcodes. Tags are contiguous from zero:
/// `Return` encodes as 0 and takes no operand, `Constant` encodes as 1 and
/// takes one operand byte, an index into the constant pool.
#[derive(Debug, Clone, Copy)]
pub enum OpCode {
    Return,
    Constant,
}

/// The error for a byte that encodes no known opcode; it carries the
/// offending byte.
#[derive(Debug)]
pub struct UnknownOpcode(pub u8);

impl UnknownOpcode {
    /// The rendered form of the error, naming the offending byte.
    pub fn message(&self) -> (s: String)
        ensures
            s@ == "Unknown opcode: "@ + dec(self.0 as nat),
    {
        let mut s = "Unknown opcode: ".to_owned();
        push_dec(&mut s, self.0 as usize);
        s
    }
}

/// The opcode a byte encodes, if any.
pub open spec fn opcode_of(byte: u8) -> Option<OpCode> {
    if byte == 0 {
        Some(OpCode::Return)
    } else if byte == 1 {
        Some(OpCode::Constant)
    } else {
        None
    }
}

/// What decoding a byte yields: the opcode it encodes, or the unknown-opcode
/// error carrying the byte itself.
pub open spec fn spec_decode(byte: u8) -> Result<OpCode, UnknownOpcode> {
    match opcode_of(byte) {
        Some(opcode) => Ok(opcode),
        None => Err(UnknownOpcode(byte)),
    }
}

impl OpCode {
    /// The byte this opcode encodes as.
    pub open spec fn spec_tag(self) -> u8 {
        match self {
            OpCode::Return => 0,
            OpCode::Constant => 1,
        }
    }

    /// The canonical mnemonic of this opcode.
    pub open spec fn spec_mnemonic(self) -> Seq<char> {
        match self {
            OpCode::Return => "OP_RETURN"@,
            OpCode::Constant => "OP_CONSTANT"@,
        }
    }

    /// The byte this opcode encodes as.
    pub fn tag(self) -> (b: u8)
        ensures
            b == self.spec_tag(),
            opcode_of(b) == Some(self),
    {
        match self {
            OpCode::Return => 0,
            OpCode::Constant => 1,
        }
    }

    /// The canonical mnemonic of this opcode.
    pub fn name(self) -> (s: String)
        ensures
            s@ == self.spec_mnemonic(),
    {
        match self {
            OpCode::Return => "OP_RETURN".to_owned(),
            OpCode::Constant => "OP_CONSTANT".to_owned(),
        }
    }

    /// Decodes a byte: exactly the bytes 0 and 1 decode to an opcode, every
    /// other byte yields the unknown-opcode error carrying that byte.
    pub fn try_from(byte: u8) -> (r: Result<OpCode, UnknownOpcode>)
        ensures
            r == spec_decode(byte),
            r matches Ok(opcode) ==> opcode_of(byte) == Some(opcode),
            r matches Err(e) ==> opcode_of(byte) is None && e == UnknownOpcode(byte),
    {
        match byte {
            0 => Ok(OpCode::Return),
            1 => Ok(OpCode::Constant),
            _ => Err(UnknownOpcode(byte)),
        }
    }
}

} // verus!
