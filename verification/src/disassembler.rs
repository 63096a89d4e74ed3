//! A read-only decoder that walks a chunk's instruction stream and renders
//! a textual trace of it.
//!
//! Output format, reproduced exactly: a header line `== <name> ==`, then one
//! line per instruction holding the starting offset (four digits, zero
//! padded), the source line (four columns, right aligned, or `   |` when the
//! instruction starts on the same line as the one before it), the mnemonic,
//! and, for `Constant`, the operand byte (four columns) and the value it
//! refers to in single quotes.

use vstd::prelude::*;

use crate::chunk::Chunk;
use crate::opcode::OpCode;
use crate::opcode::UnknownOpcode;
use crate::opcode::opcode_of;
use crate::text::dec;
use crate::text::pad_left;
use crate::text::pad_right;
use crate::text::push_dec;
use crate::text::push_dec_padded;
use crate::text::push_str_padded;

verus! {

/// The error that stops a disassembly: a byte that encodes no known opcode,
/// a `Constant` opcode whose operand byte is missing at the end of the
/// stream, or an operand byte that indexes past the end of the constant
/// pool. Rendering aborts at the offending instruction; output already
/// rendered is not rolled back.
#[derive(Debug)]
pub enum DisassembleError {
    UnknownOpcode(UnknownOpcode),
    MissingOperand { offset: usize },
    InvalidConstantIndex { index: u8 },
}

impl DisassembleError {
    /// The rendered form of the error.
    pub open spec fn spec_message(&self) -> Seq<char> {
        match self {
            DisassembleError::UnknownOpcode(e) => "Unknown opcode: "@ + dec(e.0 as nat),
            DisassembleError::MissingOperand { offset } => "Missing operand at offset "@ + dec(
                *offset as nat,
            ),
            DisassembleError::InvalidConstantIndex { index } => "Invalid constant index: "@ + dec(
                *index as nat,
            ),
        }
    }

    /// The rendered form of the error.
    pub fn message(&self) -> (s: String)
        ensures
            s@ == self.spec_message(),
    {
        match self {
            DisassembleError::UnknownOpcode(e) => e.message(),
            DisassembleError::MissingOperand { offset } => {
                let mut s = "Missing operand at offset ".to_owned();
                push_dec(&mut s, *offset);
                s
            },
            DisassembleError::InvalidConstantIndex { index } => {
                let mut s = "Invalid constant index: ".to_owned();
                push_dec(&mut s, *index as usize);
                s
            },
        }
    }
}

/// The header line above the instruction trace.
pub open spec fn header(name: Seq<char>) -> Seq<char> {
    "== "@ + name + " ==\n"@
}

/// The number of bytes an instruction of this opcode occupies: the opcode
/// byte plus its operand bytes.
pub open spec fn instr_width(opcode: OpCode) -> nat {
    match opcode {
        OpCode::Return => 1,
        OpCode::Constant => 2,
    }
}

/// The width of the instruction starting at `offset`, counting an unknown
/// opcode as one byte.
pub open spec fn width_at(c: Chunk, offset: int) -> int {
    match opcode_of(c.codes@[offset]) {
        Some(opcode) => instr_width(opcode) as int,
        None => 1,
    }
}

/// What decoding the instruction at `offset` yields: its opcode, or the
/// error that stops the disassembly there.
pub open spec fn spec_instr(c: Chunk, offset: int) -> Result<OpCode, DisassembleError>
    recommends
        0 <= offset < c.codes@.len(),
{
    match opcode_of(c.codes@[offset]) {
        None => Err(DisassembleError::UnknownOpcode(UnknownOpcode(c.codes@[offset]))),
        Some(OpCode::Constant) => if offset + 1 >= c.codes@.len() {
            Err(DisassembleError::MissingOperand { offset: offset as usize })
        } else if c.codes@[offset + 1] as int >= c.constants@.len() {
            Err(DisassembleError::InvalidConstantIndex { index: c.codes@[offset + 1] })
        } else {
            Ok(OpCode::Constant)
        },
        Some(opcode) => Ok(opcode),
    }
}

/// Whether the instruction at `offset` decodes without error.
pub open spec fn step_ok(c: Chunk, offset: int) -> bool {
    spec_instr(c, offset) is Ok
}

/// The source-line column of the instruction at `offset`: the line number,
/// or the continuation marker when the instruction before it starts on the
/// same source line.
pub open spec fn line_column(c: Chunk, offset: int) -> Seq<char>
    recommends
        0 <= offset < c.lines@.len(),
{
    if offset > 0 && c.lines@[offset] == c.lines@[offset - 1] {
        "   |"@
    } else {
        pad_left(dec(c.lines@[offset] as nat), ' ', 4)
    }
}

/// The rendered line for the instruction at `offset`.
pub open spec fn render_instr(c: Chunk, offset: int) -> Seq<char>
    recommends
        0 <= offset < c.codes@.len(),
        c.lines@.len() == c.codes@.len(),
        step_ok(c, offset),
{
    let prefix = pad_left(dec(offset as nat), '0', 4) + " "@ + line_column(c, offset) + " "@;
    match opcode_of(c.codes@[offset]) {
        Some(OpCode::Constant) => prefix + pad_right(OpCode::Constant.spec_mnemonic(), ' ', 16)
            + " "@ + pad_left(dec(c.codes@[offset + 1] as nat), ' ', 4) + " '"@
            + c.constants@[c.codes@[offset + 1] as int]@ + "'\n"@,
        Some(opcode) => prefix + opcode.spec_mnemonic() + "\n"@,
        None => Seq::<char>::empty(),
    }
}

/// The rendered instructions from `offset` on, stopping at the end of the
/// stream or at the first instruction that fails to decode.
pub open spec fn render_prefix(c: Chunk, offset: int) -> Seq<char>
    decreases c.codes@.len() - offset,
    when 0 <= offset <= c.codes@.len()
{
    if offset >= c.codes@.len() {
        Seq::<char>::empty()
    } else if !step_ok(c, offset) {
        Seq::<char>::empty()
    } else {
        render_instr(c, offset) + render_prefix(c, offset + width_at(c, offset))
    }
}

/// The offset where decoding from `offset` first fails, or the stream's
/// length if every instruction decodes.
pub open spec fn fail_offset(c: Chunk, offset: int) -> int
    decreases c.codes@.len() - offset,
    when 0 <= offset <= c.codes@.len()
{
    if offset >= c.codes@.len() {
        offset
    } else if !step_ok(c, offset) {
        offset
    } else {
        fail_offset(c, offset + width_at(c, offset))
    }
}

/// Whether the whole instruction stream decodes without error.
pub open spec fn stream_ok(c: Chunk) -> bool {
    fail_offset(c, 0) == c.codes@.len()
}

/// Law: in the rendered trace, an instruction that starts on the same source
/// line as the one before it shows the continuation marker in its line
/// column; a line change, or the instruction at offset 0, shows the line
/// number itself.
pub proof fn lemma_line_column_continuation(c: Chunk, offset: int)
    requires
        0 <= offset < c.lines@.len(),
    ensures
        offset > 0 && c.lines@[offset] == c.lines@[offset - 1] ==> line_column(c, offset)
            == "   |"@,
        offset > 0 && c.lines@[offset] != c.lines@[offset - 1] ==> line_column(c, offset)
            == pad_left(dec(c.lines@[offset] as nat), ' ', 4),
        offset == 0 ==> line_column(c, offset) == pad_left(dec(c.lines@[offset] as nat), ' ', 4),
{
}

/// A disassembler over a finished chunk, with the display name that heads
/// its trace.
pub struct Disassembler<'a> {
    pub chunk: &'a Chunk,
    pub name: &'a str,
}

impl<'a> Disassembler<'a> {
    /// A disassembler over `chunk`, titled `name`.
    pub fn new(chunk: &'a Chunk, name: &'a str) -> (d: Disassembler<'a>)
        ensures
            d.chunk == chunk,
            d.name == name,
    {
        Disassembler { chunk, name }
    }

    /// Renders the whole instruction stream onto the end of `out`: the
    /// header, then every instruction up to the end of the stream or to the
    /// first one that fails to decode. Succeeds exactly when the whole
    /// stream decodes; otherwise returns the first instruction's error,
    /// leaving the instructions already rendered in place.
    pub fn write(&self, out: &mut String) -> (r: Result<(), DisassembleError>)
        requires
            self.chunk.wf(),
        ensures
            final(out)@ == old(out)@ + header(self.name@) + render_prefix(*self.chunk, 0),
            r is Ok <==> stream_ok(*self.chunk),
            r matches Err(e) ==> (spec_instr(*self.chunk, fail_offset(*self.chunk, 0))
                == Err::<OpCode, DisassembleError>(e)),
    {
        out.append("== ");
        out.append(self.name);
        out.append(" ==\n");
        assert(out@ =~= old(out)@ + header(self.name@));

        let n = self.chunk.codes.count();
        let mut offset: usize = 0;
        let ghost mut rendered: Seq<char> = Seq::<char>::empty();
        proof {
            assert(rendered + render_prefix(*self.chunk, 0) =~= render_prefix(*self.chunk, 0));
        }
        while offset < n
            invariant
                self.chunk.wf(),
                n == self.chunk.codes@.len(),
                offset <= n,
                out@ == old(out)@ + header(self.name@) + rendered,
                render_prefix(*self.chunk, 0) == rendered + render_prefix(*self.chunk, offset as int),
                fail_offset(*self.chunk, 0) == fail_offset(*self.chunk, offset as int),
            decreases n - offset,
        {
            match self.disassemble_instruction(out, offset) {
                Ok(next) => {
                    proof {
                        assert(render_prefix(*self.chunk, offset as int) == render_instr(
                            *self.chunk,
                            offset as int,
                        ) + render_prefix(*self.chunk, next as int));
                        assert(rendered + (render_instr(*self.chunk, offset as int)
                            + render_prefix(*self.chunk, next as int)) =~= (rendered + render_instr(
                            *self.chunk,
                            offset as int,
                        )) + render_prefix(*self.chunk, next as int));
                        rendered = rendered + render_instr(*self.chunk, offset as int);
                        assert(out@ =~= old(out)@ + header(self.name@) + rendered);
                    }
                    offset = next;
                },
                Err(e) => {
                    proof {
                        assert(render_prefix(*self.chunk, offset as int)
                            =~= Seq::<char>::empty());
                        assert(rendered + render_prefix(*self.chunk, offset as int) =~= rendered);
                    }
                    return Err(e);
                },
            }
        }
        proof {
            assert(render_prefix(*self.chunk, n as int) =~= Seq::<char>::empty());
            assert(rendered + render_prefix(*self.chunk, n as int) =~= rendered);
        }
        Ok(())
    }

    /// Appends the offset column and the source-line column of the
    /// instruction at `offset`.
    fn push_columns(&self, out: &mut String, offset: usize)
        requires
            self.chunk.wf(),
            offset < self.chunk.codes@.len(),
        ensures
            final(out)@ == old(out)@ + pad_left(dec(offset as nat), '0', 4) + " "@ + line_column(
                *self.chunk,
                offset as int,
            ) + " "@,
    {
        push_dec_padded(out, offset, 4, '0');
        out.append(" ");
        let line = *self.chunk.lines.index(offset);
        if offset > 0 && line == *self.chunk.lines.index(offset - 1) {
            out.append("   |");
        } else {
            push_dec_padded(out, line, 4, ' ');
        }
        out.append(" ");
        assert(out@ =~= old(out)@ + pad_left(dec(offset as nat), '0', 4) + " "@ + line_column(
            *self.chunk,
            offset as int,
        ) + " "@);
    }

    /// Appends the instruction body of a `Constant`: the padded mnemonic,
    /// the operand byte, and the quoted text of the value it refers to.
    fn push_constant_body(&self, out: &mut String, operand: u8)
        requires
            (operand as int) < self.chunk.constants@.len(),
        ensures
            final(out)@ == old(out)@ + pad_right(OpCode::Constant.spec_mnemonic(), ' ', 16) + " "@
                + pad_left(dec(operand as nat), ' ', 4) + " '"@ + self.chunk.constants@[
                operand as int
            ]@ + "'\n"@,
    {
        let name = OpCode::Constant.name();
        push_str_padded(out, name.as_str(), 16);
        out.append(" ");
        push_dec_padded(out, operand as usize, 4, ' ');
        out.append(" '");
        let value = self.chunk.constants.index(operand as usize);
        out.append(value.as_text());
        out.append("'\n");
        assert(out@ =~= old(out)@ + pad_right(OpCode::Constant.spec_mnemonic(), ' ', 16) + " "@
            + pad_left(dec(operand as nat), ' ', 4) + " '"@ + self.chunk.constants@[
            operand as int
        ]@ + "'\n"@);
    }

    /// Decodes and renders the one instruction starting at `offset`,
    /// returning the offset just past it. An instruction that fails to
    /// decode renders nothing.
    fn disassemble_instruction(&self, out: &mut String, offset: usize) -> (r: Result<
        usize,
        DisassembleError,
    >)
        requires
            self.chunk.wf(),
            offset < self.chunk.codes@.len(),
        ensures
            r matches Ok(next) ==> step_ok(*self.chunk, offset as int) && next == offset + width_at(
                *self.chunk,
                offset as int,
            ) && final(out)@ == old(out)@ + render_instr(*self.chunk, offset as int),
            r matches Err(e) ==> !step_ok(*self.chunk, offset as int) && (spec_instr(
                *self.chunk,
                offset as int,
            ) == Err::<OpCode, DisassembleError>(e)) && final(out)@ == old(out)@,
    {
        let n = self.chunk.codes.count();
        let opcode_byte = *self.chunk.codes.index(offset);
        let opcode = match OpCode::try_from(opcode_byte) {
            Ok(opcode) => opcode,
            Err(e) => {
                return Err(DisassembleError::UnknownOpcode(e));
            },
        };

        // Validate the whole instruction before rendering any of it, so that
        // a failing instruction leaves no partial line behind.
        let operand: u8 = match opcode {
            OpCode::Constant => {
                if offset + 1 >= n {
                    return Err(DisassembleError::MissingOperand { offset });
                }
                let index = *self.chunk.codes.index(offset + 1);
                if index as usize >= self.chunk.constants.count() {
                    return Err(DisassembleError::InvalidConstantIndex { index });
                }
                index
            },
            OpCode::Return => 0,
        };

        // Offset column, then the source-line column, then the instruction.
        self.push_columns(out, offset);
        match opcode {
            OpCode::Constant => {
                self.push_constant_body(out, operand);
                assert(out@ =~= old(out)@ + render_instr(*self.chunk, offset as int));
                Ok(offset + 2)
            },
            OpCode::Return => {
                let name = opcode.name();
                out.append(name.as_str());
                out.append("\n");
                assert(out@ =~= old(out)@ + render_instr(*self.chunk, offset as int));
                Ok(offset + 1)
            },
        }
    }
}

} // verus!
