//! A chunk of compiled bytecode: the instruction stream, the per-byte
//! source-line table kept in lock-step with it, and the constant pool.

use vstd::prelude::*;

use crate::array::Array;
use crate::opcode::OpCode;
use crate::value::Value;

verus! {

/// The constant pool is addressed by a single operand byte, so it can never
/// hold more than this many entries.
pub const MAX_CONSTANTS: usize = 256;

/// One unit of compiled bytecode: opcode and operand bytes in `codes`, the
/// originating source line of each byte in `lines`, and the values that
/// `Constant` instructions refer to in `constants`.
pub struct Chunk {
    pub codes: Array<u8>,
    pub lines: Array<usize>,
    pub constants: Array<Value>,
}

/// The error returned when a write would push the constant pool past the
/// range a single operand byte can address.
#[derive(Debug)]
pub struct ExceededConstantCount;

impl ExceededConstantCount {
    /// The rendered form of the error.
    pub fn message(&self) -> (s: String)
        ensures
            s@ == "Exceeded constant count. Maximum is 256."@,
    {
        "Exceeded constant count. Maximum is 256.".to_owned()
    }
}

impl Chunk {
    /// The lock-step invariant: one source line is recorded for every byte
    /// of the instruction stream.
    pub open spec fn wf(&self) -> bool {
        self.lines@.len() == self.codes@.len()
    }

    /// An empty chunk: three empty buffers.
    pub fn new() -> (c: Chunk)
        ensures
            c.codes@ == Seq::<u8>::empty(),
            c.lines@ == Seq::<usize>::empty(),
            c.constants@ == Seq::<Value>::empty(),
            c.wf(),
    {
        Chunk { codes: Array::new(), lines: Array::new(), constants: Array::new() }
    }

    /// Appends `byte` to the instruction stream and `line` to the line table
    /// in the same call, so the two grow together. The bound on the length
    /// is a machine limit inherited from the buffers' growth step.
    pub fn write_byte(&mut self, byte: u8, line: usize)
        requires
            old(self).codes@.len() < usize::MAX / 2,
            old(self).lines@.len() < usize::MAX / 2,
        ensures
            final(self).codes@ == old(self).codes@.push(byte),
            final(self).lines@ == old(self).lines@.push(line),
            final(self).constants == old(self).constants,
            old(self).wf() ==> final(self).wf(),
    {
        self.codes.push(byte);
        self.lines.push(line);
    }

    /// Appends a known opcode's encoding byte, recording its source line.
    pub fn write_opcode(&mut self, opcode: OpCode, line: usize)
        requires
            old(self).codes@.len() < usize::MAX / 2,
            old(self).lines@.len() < usize::MAX / 2,
        ensures
            final(self).codes@ == old(self).codes@.push(opcode.spec_tag()),
            final(self).lines@ == old(self).lines@.push(line),
            final(self).constants == old(self).constants,
            old(self).wf() ==> final(self).wf(),
    {
        let byte = opcode.tag();
        self.write_byte(byte, line);
    }

    /// Appends `value` to the constant pool and returns its position as the
    /// single-byte index a `Constant` instruction uses. When the pool is
    /// full (256 entries, indices 0 through 255) the value is not appended,
    /// the chunk is left unchanged, and the overflow error is returned.
    pub fn write_constant(&mut self, value: Value) -> (r: Result<u8, ExceededConstantCount>)
        ensures
            final(self).codes == old(self).codes,
            final(self).lines == old(self).lines,
            old(self).constants@.len() < MAX_CONSTANTS ==> {
                &&& r == Ok::<u8, ExceededConstantCount>(old(self).constants@.len() as u8)
                &&& final(self).constants@ == old(self).constants@.push(value)
            },
            old(self).constants@.len() >= MAX_CONSTANTS ==> {
                &&& r == Err::<u8, ExceededConstantCount>(ExceededConstantCount)
                &&& final(self).constants == old(self).constants
            },
            old(self).wf() ==> final(self).wf(),
    {
        let index = self.constants.count();
        if index < MAX_CONSTANTS {
            self.constants.push(value);
            Ok(index as u8)
        } else {
            Err(ExceededConstantCount)
        }
    }
}

} // verus!
