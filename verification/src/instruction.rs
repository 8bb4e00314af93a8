//! One framed instruction, and the line that stands for it.

use vstd::prelude::*;
use vstd::string::*;
use crate::base::{dump_u32, word_line};
use crate::compressed::{compressed_line, dump_u16};
use crate::error::Malformed;
use crate::frame::{frame_of, lemma_frame_length, Category, MAX_LENGTH};
use crate::line::{line_head, start_line};
use crate::text::{hex, push_hex};

verus! {

/// An instruction with its raw bits, by length class. Only the first two
/// classes are resolved; the others are known by their length alone.
#[derive(Debug, PartialEq, Eq)]
#[allow(inconsistent_fields)]
pub enum Instruction {
    Compressed16 { bits: u16 },
    Word32 { bits: u32 },
    /// 48 bits, the first word lowest.
    DoubleWord48 { bits: u64 },
    /// 64 bits, the first word lowest.
    QuadWord64 { bits: u64 },
    /// 80 bits and more: the 16-bit words in the order in which they were
    /// read, the first word included.
    Extended { words: Vec<u16> },
    /// The reserved class of 192 bits, which carries nothing.
    Reserved192,
}

/// An instruction as a mathematical value.
#[allow(inconsistent_fields)]
pub enum Shape {
    Compressed16 { bits: u16 },
    Word32 { bits: u32 },
    DoubleWord48 { bits: u64 },
    QuadWord64 { bits: u64 },
    Extended { words: Seq<u16> },
    Reserved192,
}

impl View for Instruction {
    type V = Shape;

    open spec fn view(&self) -> Shape {
        match *self {
            Instruction::Compressed16 { bits } => Shape::Compressed16 { bits },
            Instruction::Word32 { bits } => Shape::Word32 { bits },
            Instruction::DoubleWord48 { bits } => Shape::DoubleWord48 { bits },
            Instruction::QuadWord64 { bits } => Shape::QuadWord64 { bits },
            Instruction::Extended { words } => Shape::Extended { words: words@ },
            Instruction::Reserved192 => Shape::Reserved192,
        }
    }
}

/// The words of an extended instruction, each in hexadecimal of at least
/// two digits, one after the other.
pub open spec fn words_text(words: Seq<u16>) -> Seq<char>
    decreases words.len(),
{
    if words.len() == 0 {
        Seq::empty()
    } else {
        words_text(words.drop_last()) + hex(words.last() as nat, 2, false)
    }
}

/// The line of an instruction of 80 bits and more: the offset, a colon and a
/// tab, `0x` and the words.
pub open spec fn extended_line(offset: nat, words: Seq<u16>) -> Seq<char> {
    hex(offset, 1, false) + ":\t0x"@ + words_text(words)
}

impl Shape {
    /// Whether the instruction is what its first word announces: of the
    /// class and of the length that the frame of the first word gives.
    pub open spec fn well_framed(self) -> bool {
        match self {
            Shape::Compressed16 { bits } => frame_of(bits).category == Category::Compressed16,
            Shape::Word32 { bits } => frame_of((bits % 0x1_0000) as u16).category
                == Category::Word32,
            Shape::DoubleWord48 { bits } => bits < 0x1_0000_0000_0000 && frame_of(
                (bits % 0x1_0000) as u16,
            ).category == Category::DoubleWord48,
            Shape::QuadWord64 { bits } => frame_of((bits % 0x1_0000) as u16).category
                == Category::QuadWord64,
            Shape::Extended { words } => words.len() > 0 && frame_of(words[0]).category
                == Category::Extended && words.len() == frame_of(words[0]).halfwords + 1,
            Shape::Reserved192 => true,
        }
    }

    /// The length of the instruction in bytes.
    pub open spec fn byte_len(self) -> nat {
        match self {
            Shape::Compressed16 { .. } => 2,
            Shape::Word32 { .. } => 4,
            Shape::DoubleWord48 { .. } => 6,
            Shape::QuadWord64 { .. } => 8,
            Shape::Extended { words } => 2 * words.len(),
            Shape::Reserved192 => 24,
        }
    }

    /// The line for the instruction at the byte offset `offset`. The two
    /// resolved classes show mnemonic and operands, and may fail to resolve;
    /// the classes of 48 and 64 bits show the raw bits in 16 and in 32
    /// digits; the reserved class shows a fixed marker.
    pub open spec fn line(self, offset: nat) -> Result<Seq<char>, Malformed> {
        match self {
            Shape::Compressed16 { bits } => compressed_line(offset, bits),
            Shape::Word32 { bits } => word_line(offset, bits),
            Shape::DoubleWord48 { bits } => Ok(line_head(offset, bits as nat, 16)),
            Shape::QuadWord64 { bits } => Ok(line_head(offset, bits as nat, 32)),
            Shape::Extended { words } => Ok(extended_line(offset, words)),
            Shape::Reserved192 => Ok("Reserved!"@),
        }
    }
}

/// A well-framed instruction is at least two bytes long, and no longer than
/// the longest frame.
pub proof fn lemma_well_framed_length(shape: Shape)
    requires
        shape.well_framed(),
    ensures
        2 <= shape.byte_len() <= MAX_LENGTH,
{
    if let Shape::Extended { words } = shape {
        lemma_frame_length(words[0]);
    }
}

/// Writes the line for the 48-bit instruction `src` at the byte offset
/// `ptr`.
pub fn dump_u48(src: u64, ptr: usize) -> (s: String)
    ensures
        s@ == line_head(ptr as nat, src as nat, 16),
{
    start_line(ptr, src, 16)
}

/// Writes the line for the 64-bit instruction `src` at the byte offset
/// `ptr`.
pub fn dump_u64(src: u64, ptr: usize) -> (s: String)
    ensures
        s@ == line_head(ptr as nat, src as nat, 32),
{
    start_line(ptr, src, 32)
}

/// Writes the line for the instruction of 80 bits and more whose words are
/// `src`, at the byte offset `ptr`.
pub fn dump_u80_u176(src: &[u16], ptr: usize) -> (s: String)
    ensures
        s@ == extended_line(ptr as nat, src@),
{
    let mut s = String::new();
    push_hex(&mut s, ptr as u64, 1, false);
    s.append(":\t0x");
    let ghost head = s@;
    let mut i: usize = 0;
    assert(s@ =~= head + words_text(src@.take(0)));
    while i < src.len()
        invariant
            i <= src.len(),
            head == hex(ptr as nat, 1, false) + ":\t0x"@,
            s@ == head + words_text(src@.take(i as int)),
        decreases src.len() - i,
    {
        push_hex(&mut s, src[i] as u64, 2, false);
        i += 1;
        proof {
            assert(src@.take(i as int).drop_last() =~= src@.take(i - 1));
            assert(s@ =~= head + words_text(src@.take(i as int)));
        }
    }
    assert(src@.take(src.len() as int) =~= src@);
    s
}

/// Writes the line that marks an instruction of the reserved class.
pub fn dump_u192_reserved() -> (s: String)
    ensures
        s@ == "Reserved!"@,
{
    String::from_str("Reserved!")
}

impl Instruction {
    /// The length of the instruction in bytes.
    pub fn byte_len(&self) -> (n: usize)
        requires
            self@.byte_len() <= usize::MAX,
        ensures
            n == self@.byte_len(),
    {
        match self {
            Instruction::Compressed16 { .. } => 2,
            Instruction::Word32 { .. } => 4,
            Instruction::DoubleWord48 { .. } => 6,
            Instruction::QuadWord64 { .. } => 8,
            Instruction::Extended { words } => 2 * words.len(),
            Instruction::Reserved192 => 24,
        }
    }

    /// Writes the line for the instruction at the byte offset `ptr`, or says
    /// why the instruction does not resolve.
    pub fn line(&self, ptr: usize) -> (r: Result<String, Malformed>)
        ensures
            match r {
                Ok(s) => self@.line(ptr as nat) == Ok::<Seq<char>, Malformed>(s@),
                Err(e) => self@.line(ptr as nat) == Err::<Seq<char>, Malformed>(e),
            },
    {
        match self {
            Instruction::Compressed16 { bits } => dump_u16(*bits, ptr),
            Instruction::Word32 { bits } => dump_u32(*bits, ptr),
            Instruction::DoubleWord48 { bits } => Ok(dump_u48(*bits, ptr)),
            Instruction::QuadWord64 { bits } => Ok(dump_u64(*bits, ptr)),
            Instruction::Extended { words } => Ok(dump_u80_u176(words.as_slice(), ptr)),
            Instruction::Reserved192 => Ok(dump_u192_reserved()),
        }
    }
}

} // verus!
