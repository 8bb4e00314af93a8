//! The errors of a disassembly pass.

use vstd::prelude::*;

verus! {

/// Why a read from the byte source returned no value.
#[derive(Clone, Copy, Debug, PartialEq, Eq, Structural)]
pub enum ReadError {
    /// The source holds fewer bytes than the read asks for.
    Eof,
    /// Any other failure of the source.
    Io,
}

/// A well-framed instruction that no rule of its resolver matches, with the
/// raw bits and the selectors that the resolver went by.
#[derive(Clone, Copy, Debug, PartialEq, Eq, Structural)]
#[allow(inconsistent_fields)]
pub enum Malformed {
    /// A 32-bit word.
    Word { bits: u32, opcode: u8, funct3: u8, funct7: u8 },
    /// A 16-bit compressed instruction: its quadrant (bits 1 to 0) and its
    /// selector (bits 15 to 13).
    Compressed { bits: u16, quadrant: u8, selector: u8 },
}

/// Why a pass over a byte source stopped.
#[derive(Clone, Copy, Debug, PartialEq, Eq, Structural)]
pub enum DumpError {
    /// The source was exhausted at an instruction boundary: the clean end
    /// of a pass.
    EndOfStream,
    /// The source was exhausted after the first word of the instruction at
    /// `offset` had announced more.
    TruncatedInstruction { offset: usize, first: u16 },
    /// The instruction at `offset` is well framed, but no rule matches it.
    MalformedEncoding { offset: usize, cause: Malformed },
    /// The source failed while the instruction at `offset` was read, or the
    /// offset itself can no longer be counted.
    IoFailure { offset: usize },
}

} // verus!
