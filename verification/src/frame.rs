//! The length classifier.
//!
//! The first 16-bit word of an instruction says how long the instruction
//! is: the longer the run of ones in its low bits, the wider the class.

use vstd::prelude::*;
use vstd::arithmetic::power2::lemma2_to64;
use crate::bits::{bit, field, field32};

verus! {

/// The length classes of an instruction.
#[derive(Clone, Copy, Debug, PartialEq, Eq, Structural)]
pub enum Category {
    /// 16 bits: a compressed instruction.
    Compressed16,
    /// 32 bits: a base instruction.
    Word32,
    /// 48 bits.
    DoubleWord48,
    /// 64 bits.
    QuadWord64,
    /// 80 bits and more, by the length field in bits 14 to 12.
    Extended,
    /// 192 bits: the length field is all ones.
    Reserved192,
}

/// What the first word tells: the class of the instruction, its length in
/// bytes, and what is still to be read after the first word, as a number of
/// 16-bit reads followed by a number of 32-bit reads.
#[derive(Clone, Copy, Debug, PartialEq, Eq, Structural)]
pub struct Frame {
    pub category: Category,
    pub length: usize,
    pub halfwords: usize,
    pub words: usize,
}

/// The longest instruction, in bytes.
pub const MAX_LENGTH: usize = 34;

/// The frame that the first word `first` announces. The rules are tried in
/// this order: bits 1 to 0 other than `11` give 16 bits; bits 4 to 2 other
/// than `111` give 32 bits; bit 5 clear gives 48 bits; bit 6 clear gives 64
/// bits; a length field `n` in bits 14 to 12 other than `111` gives `4 + 2n`
/// further 16-bit words; what is left is the reserved class of 192 bits.
pub open spec fn frame_of(first: u16) -> Frame {
    let w = first as nat;
    if field(w, 0, 2) != 0b11 {
        Frame { category: Category::Compressed16, length: 2, halfwords: 0, words: 0 }
    } else if field(w, 2, 3) != 0b111 {
        Frame { category: Category::Word32, length: 4, halfwords: 1, words: 0 }
    } else if !bit(w, 5) {
        Frame { category: Category::DoubleWord48, length: 6, halfwords: 2, words: 0 }
    } else if !bit(w, 6) {
        Frame { category: Category::QuadWord64, length: 8, halfwords: 1, words: 1 }
    } else if field(w, 12, 3) != 0b111 {
        Frame {
            category: Category::Extended,
            length: (2 * (4 + 2 * field(w, 12, 3) + 1)) as usize,
            halfwords: (4 + 2 * field(w, 12, 3)) as usize,
            words: 0,
        }
    } else {
        Frame { category: Category::Reserved192, length: 24, halfwords: 11, words: 0 }
    }
}

/// The length of a frame is that of its first word and of the reads that
/// follow, and no frame is longer than the longest instruction. Only a
/// compressed instruction is done with its first word.
pub proof fn lemma_frame_length(first: u16)
    ensures
        frame_of(first).length == 2 + 2 * frame_of(first).halfwords + 4 * frame_of(first).words,
        2 <= frame_of(first).length <= MAX_LENGTH,
        frame_of(first).length == 2 <==> frame_of(first).category == Category::Compressed16,
        frame_of(first).category == Category::Compressed16 <==> field(first as nat, 0, 2) != 0b11,
{
    lemma2_to64();
    crate::bits::lemma_field_bound(first as nat, 12, 3);
}

/// What each class reads after the first word, and how long it is.
pub proof fn lemma_frame_by_category(first: u16)
    ensures
        match frame_of(first).category {
            Category::Compressed16 => frame_of(first).length == 2 && frame_of(first).halfwords
                == 0 && frame_of(first).words == 0,
            Category::Word32 => frame_of(first).length == 4 && frame_of(first).halfwords == 1
                && frame_of(first).words == 0,
            Category::DoubleWord48 => frame_of(first).length == 6 && frame_of(first).halfwords
                == 2 && frame_of(first).words == 0,
            Category::QuadWord64 => frame_of(first).length == 8 && frame_of(first).halfwords == 1
                && frame_of(first).words == 1,
            Category::Extended => frame_of(first).length == 2 + 2 * frame_of(first).halfwords && 4
                <= frame_of(first).halfwords <= 16 && frame_of(first).words == 0,
            Category::Reserved192 => frame_of(first).length == 24 && frame_of(first).halfwords
                == 11 && frame_of(first).words == 0,
        },
{
    lemma2_to64();
    crate::bits::lemma_field_bound(first as nat, 12, 3);
}

/// Classifies an instruction by its first word.
pub fn classify(first: u16) -> (r: Frame)
    ensures
        r == frame_of(first),
{
    proof {
        lemma2_to64();
    }
    let w = first as u32;
    if field32(w, 0, 2) != 0b11 {
        Frame { category: Category::Compressed16, length: 2, halfwords: 0, words: 0 }
    } else if field32(w, 2, 3) != 0b111 {
        Frame { category: Category::Word32, length: 4, halfwords: 1, words: 0 }
    } else if field32(w, 5, 1) == 0 {
        Frame { category: Category::DoubleWord48, length: 6, halfwords: 2, words: 0 }
    } else if field32(w, 6, 1) == 0 {
        Frame { category: Category::QuadWord64, length: 8, halfwords: 1, words: 1 }
    } else {
        let n = field32(w, 12, 3) as usize;
        if n != 0b111 {
            Frame {
                category: Category::Extended,
                length: 2 * (4 + 2 * n + 1),
                halfwords: 4 + 2 * n,
                words: 0,
            }
        } else {
            Frame { category: Category::Reserved192, length: 24, halfwords: 11, words: 0 }
        }
    }
}

} // verus!
