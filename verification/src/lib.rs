//! Storage and inspection layer for a bytecode virtual machine:
//! a growable buffer, a bytecode chunk built from three such buffers,
//! and a disassembler that renders a chunk's instruction stream as text.

pub mod array;
pub mod chunk;
pub mod disassembler;
pub mod opcode;
pub mod text;
pub mod value;
