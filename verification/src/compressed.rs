//! The resolver of the 16-bit compressed encodings.
//!
//! An encoding is keyed on its quadrant (bits 1 to 0) and its selector
//! (bits 15 to 13). A register field of three bits names one of `x8` to
//! `x15`; a field of five bits names any register.

use vstd::prelude::*;
use vstd::arithmetic::power2::lemma2_to64;
use crate::bits::{biased, bit, field, field32, twos};
use crate::error::Malformed;
use crate::layout::Immediate;
use crate::line::{line_head, start_line};
use crate::mnemonic::Mnemonic;
use crate::operand::{Decoded, Operand, Operands};

verus! {

/// Quadrant 0.
pub const OPCODE_C0: u32 = 0b00;

/// Quadrant 1.
pub const OPCODE_C1: u32 = 0b01;

/// Quadrant 2.
pub const OPCODE_C2: u32 = 0b10;

/// The register that `c.addi16sp` adds to: the stack pointer.
pub const REG_SP: u32 = 2;

/// Bits 1 to 0.
pub open spec fn quadrant(w: u16) -> nat {
    field(w as nat, 0, 2)
}

/// Bits 15 to 13.
pub open spec fn selector(w: u16) -> nat {
    field(w as nat, 13, 3)
}

/// The register that the three bits from bit `lo` on name.
pub open spec fn narrow_reg(w: u16, lo: nat) -> nat {
    8 + field(w as nat, lo, 3)
}

/// The register that the five bits from bit `lo` on name.
pub open spec fn wide_reg(w: u16, lo: nat) -> nat {
    field(w as nat, lo, 5)
}

/// The signed immediate of `c.addi`: the magnitude in bits 6 to 2, the sign
/// in bit 12.
pub open spec fn addi_imm(w: u16) -> int {
    biased(field(w as nat, 2, 5), bit(w as nat, 12))
}

/// The signed immediate of `c.addi16sp`, with the sign in bit 12.
pub open spec fn addi16sp_imm(w: u16) -> int {
    biased(Immediate::CAddi16sp.of(w as nat), bit(w as nat, 12))
}

/// The mnemonic of the compressed encoding `w`, or `None` where the
/// encoding is illegal, reserved or not defined.
pub open spec fn compressed_mnemonic(w: u16) -> Option<Mnemonic> {
    let q = quadrant(w);
    let s = selector(w);
    if q == OPCODE_C0 {
        if s == 0b000 {
            if Immediate::CAddi4spn.of(w as nat) != 0 {
                Some(Mnemonic::CAddi4spn)
            } else {
                None
            }
        } else if s == 0b001 {
            Some(Mnemonic::CFld)
        } else if s == 0b010 {
            Some(Mnemonic::CLw)
        } else if s == 0b011 {
            Some(Mnemonic::CFlw)
        } else if s == 0b101 {
            Some(Mnemonic::CFsd)
        } else if s == 0b110 {
            Some(Mnemonic::CSw)
        } else if s == 0b111 {
            Some(Mnemonic::CFsw)
        } else {
            None
        }
    } else if q == OPCODE_C1 {
        if s == 0b000 {
            Some(Mnemonic::CAddi)
        } else if s == 0b001 {
            Some(Mnemonic::CJal)
        } else if s == 0b010 {
            Some(Mnemonic::CLi)
        } else if s == 0b011 {
            if wide_reg(w, 7) == REG_SP {
                Some(Mnemonic::CAddi16sp)
            } else {
                Some(Mnemonic::CLui)
            }
        } else if s == 0b100 {
            arithmetic(field(w as nat, 10, 2), field(w as nat, 5, 2))
        } else if s == 0b101 {
            Some(Mnemonic::CJ)
        } else if s == 0b110 {
            Some(Mnemonic::CBeqz)
        } else {
            Some(Mnemonic::CBnez)
        }
    } else if q == OPCODE_C2 {
        if s == 0b000 {
            if Immediate::CImm.of(w as nat) == 0 {
                Some(Mnemonic::CSlli64)
            } else {
                Some(Mnemonic::CSlli)
            }
        } else if s == 0b001 {
            Some(Mnemonic::CFldsp)
        } else if s == 0b010 {
            Some(Mnemonic::CLwsp)
        } else if s == 0b011 {
            Some(Mnemonic::CFlwsp)
        } else if s == 0b100 {
            Some(register_group(bit(w as nat, 12), wide_reg(w, 7) != 0, wide_reg(w, 2) != 0))
        } else if s == 0b101 {
            Some(Mnemonic::CFsdsp)
        } else if s == 0b110 {
            Some(Mnemonic::CSwsp)
        } else {
            Some(Mnemonic::CFswsp)
        }
    } else {
        None
    }
}

/// The arithmetic group of quadrant 1: `high` is bits 11 to 10, `low` is
/// bits 6 to 5.
pub open spec fn arithmetic(high: nat, low: nat) -> Option<Mnemonic> {
    if high == 0b10 {
        Some(Mnemonic::CAndi)
    } else if high == 0b11 {
        if low == 0b00 {
            Some(Mnemonic::CSub)
        } else if low == 0b01 {
            Some(Mnemonic::CXor)
        } else if low == 0b10 {
            Some(Mnemonic::COr)
        } else {
            Some(Mnemonic::CAnd)
        }
    } else {
        None
    }
}

/// The register and jump group of quadrant 2, keyed on bit 12 and on
/// whether the fields in bits 11 to 7 and in bits 6 to 2 are zero.
pub open spec fn register_group(bit12: bool, first: bool, second: bool) -> Mnemonic {
    if second {
        if bit12 {
            Mnemonic::CAdd
        } else {
            Mnemonic::CMv
        }
    } else if !bit12 {
        Mnemonic::CJr
    } else if first {
        Mnemonic::CJalr
    } else {
        Mnemonic::CEbreak
    }
}

/// An unsigned immediate as an operand.
pub open spec fn unsigned_imm(value: nat, digits: u8) -> Operand {
    Operand::Imm { pattern: value as u32, digits, value: value as i64 }
}

/// A signed immediate as an operand, its pattern in 16 bits.
pub open spec fn signed_imm(value: int, digits: u8) -> Operand {
    Operand::Imm { pattern: twos(value, 16) as u32, digits, value: value as i64 }
}

/// The operands of the compressed encoding `w` under the mnemonic `m`.
///
/// In quadrant 0 the first register is the narrow field in bits 4 to 2, the
/// second the one in bits 9 to 7. The arithmetic group of quadrant 1 names
/// the narrow field in bits 4 to 2, the branches the one in bits 9 to 7.
/// Elsewhere the first register is the wide field in bits 11 to 7 and the
/// second the one in bits 6 to 2; `c.swsp` and `c.fswsp` name the latter
/// alone. Of the immediates only those of `c.addi` and `c.addi16sp` are
/// signed.
pub open spec fn compressed_operands(m: Mnemonic, w: u16) -> Operands {
    match m {
        Mnemonic::CAddi4spn => Operands::Two(
            Operand::Reg(narrow_reg(w, 2) as u8),
            unsigned_imm(Immediate::CAddi4spn.of(w as nat), 3),
        ),
        Mnemonic::CFld | Mnemonic::CFsd => Operands::Three(
            Operand::Reg(narrow_reg(w, 2) as u8),
            Operand::Reg(narrow_reg(w, 7) as u8),
            unsigned_imm(Immediate::CDouble.of(w as nat), 2),
        ),
        Mnemonic::CLw | Mnemonic::CFlw | Mnemonic::CSw | Mnemonic::CFsw => Operands::Three(
            Operand::Reg(narrow_reg(w, 2) as u8),
            Operand::Reg(narrow_reg(w, 7) as u8),
            unsigned_imm(Immediate::CWord.of(w as nat), 2),
        ),
        Mnemonic::CAddi => Operands::Two(
            Operand::Reg(wide_reg(w, 7) as u8),
            signed_imm(addi_imm(w), 2),
        ),
        Mnemonic::CJal | Mnemonic::CJ => Operands::One(
            unsigned_imm(Immediate::CJump.of(w as nat), 3),
        ),
        Mnemonic::CLi => Operands::Two(
            Operand::Reg(wide_reg(w, 7) as u8),
            unsigned_imm(Immediate::CImm.of(w as nat), 2),
        ),
        Mnemonic::CAddi16sp => Operands::One(signed_imm(addi16sp_imm(w), 3)),
        Mnemonic::CLui => Operands::Two(
            Operand::Reg(wide_reg(w, 7) as u8),
            unsigned_imm(Immediate::CLui.of(w as nat), 5),
        ),
        Mnemonic::CAndi => Operands::Two(
            Operand::Reg(narrow_reg(w, 2) as u8),
            unsigned_imm(Immediate::CImm.of(w as nat), 3),
        ),
        Mnemonic::CSub | Mnemonic::CXor | Mnemonic::COr | Mnemonic::CAnd => Operands::Two(
            Operand::Reg(narrow_reg(w, 2) as u8),
            Operand::Reg(narrow_reg(w, 2) as u8),
        ),
        Mnemonic::CBeqz | Mnemonic::CBnez => Operands::Two(
            Operand::Reg(narrow_reg(w, 7) as u8),
            unsigned_imm(Immediate::CBranch.of(w as nat), 3),
        ),
        Mnemonic::CSlli64 | Mnemonic::CJr | Mnemonic::CJalr => Operands::One(
            Operand::Reg(wide_reg(w, 7) as u8),
        ),
        Mnemonic::CSlli => Operands::Two(
            Operand::Reg(wide_reg(w, 7) as u8),
            unsigned_imm(Immediate::CImm.of(w as nat), 2),
        ),
        Mnemonic::CFldsp => Operands::Two(
            Operand::Reg(wide_reg(w, 7) as u8),
            unsigned_imm(Immediate::CLdsp.of(w as nat), 2),
        ),
        Mnemonic::CLwsp | Mnemonic::CFlwsp => Operands::Two(
            Operand::Reg(wide_reg(w, 7) as u8),
            unsigned_imm(Immediate::CLwsp.of(w as nat), 2),
        ),
        Mnemonic::CMv | Mnemonic::CAdd => Operands::Two(
            Operand::Reg(wide_reg(w, 7) as u8),
            Operand::Reg(wide_reg(w, 2) as u8),
        ),
        Mnemonic::CFsdsp => Operands::Two(
            Operand::Reg(wide_reg(w, 7) as u8),
            unsigned_imm(Immediate::CSdsp.of(w as nat), 3),
        ),
        Mnemonic::CSwsp => Operands::Two(
            Operand::Reg(wide_reg(w, 2) as u8),
            unsigned_imm(Immediate::CSwsp.of(w as nat), 2),
        ),
        Mnemonic::CFswsp => Operands::Two(
            Operand::Reg(wide_reg(w, 2) as u8),
            unsigned_imm(Immediate::CSdsp.of(w as nat), 3),
        ),
        _ => Operands::Bare,
    }
}

/// What the compressed encoding `w` resolves to: its mnemonic with the
/// operands of that mnemonic, or the error that names its quadrant and
/// selector.
pub open spec fn resolve_compressed(w: u16) -> Result<Decoded, Malformed> {
    match compressed_mnemonic(w) {
        Some(m) => Ok(Decoded { mnemonic: m, operands: compressed_operands(m, w) }),
        None => Err(
            Malformed::Compressed {
                bits: w,
                quadrant: quadrant(w) as u8,
                selector: selector(w) as u8,
            },
        ),
    }
}

/// The line for the compressed encoding `w` at `offset`: the head with the
/// encoding in four digits, then the resolved instruction.
pub open spec fn compressed_line(offset: nat, w: u16) -> Result<Seq<char>, Malformed> {
    match resolve_compressed(w) {
        Ok(d) => Ok(line_head(offset, w as nat, 4) + d.text()),
        Err(e) => Err(e),
    }
}

/// A register operand from the three bits of `w` that start at bit `lo`.
fn narrow(w: u16, lo: u32) -> (r: Operand)
    requires
        lo <= 13,
    ensures
        r == Operand::Reg(narrow_reg(w, lo as nat) as u8),
{
    proof {
        lemma2_to64();
    }
    Operand::Reg((8 + field32(w as u32, lo, 3)) as u8)
}

/// A register operand from the five bits of `w` that start at bit `lo`.
fn wide(w: u16, lo: u32) -> (r: Operand)
    requires
        lo <= 11,
    ensures
        r == Operand::Reg(wide_reg(w, lo as nat) as u8),
{
    proof {
        lemma2_to64();
    }
    Operand::Reg(field32(w as u32, lo, 5) as u8)
}

/// The operand for the unsigned immediate `which` of `w`.
fn unsigned(which: Immediate, w: u16, digits: u8) -> (r: Operand)
    ensures
        r == unsigned_imm(which.of(w as nat), digits),
{
    let value = which.extract(w as u32);
    Operand::Imm { pattern: value, digits, value: value as i64 }
}

/// The operand for a signed immediate with the sign in bit 12 of `w`.
fn signed(magnitude: u32, w: u16, digits: u8) -> (r: Operand)
    requires
        magnitude < 0x8000,
    ensures
        r == signed_imm(biased(magnitude as nat, bit(w as nat, 12)), digits),
{
    proof {
        lemma2_to64();
    }
    if field32(w as u32, 12, 1) == 1 {
        Operand::Imm { pattern: 0xFFFF - magnitude, digits, value: -(magnitude as i64 + 1) }
    } else {
        Operand::Imm { pattern: magnitude, digits, value: magnitude as i64 }
    }
}

/// Looks up the mnemonic of the compressed encoding `w`.
fn lookup_compressed(w: u16) -> (r: Option<Mnemonic>)
    ensures
        r == compressed_mnemonic(w),
{
    proof {
        lemma2_to64();
    }
    let src = w as u32;
    let quadrant = field32(src, 0, 2);
    let selector = field32(src, 13, 3);
    match (quadrant, selector) {
        (OPCODE_C0, 0b000) => if Immediate::CAddi4spn.extract(src) != 0 {
            Some(Mnemonic::CAddi4spn)
        } else {
            None
        },
        (OPCODE_C0, 0b001) => Some(Mnemonic::CFld),
        (OPCODE_C0, 0b010) => Some(Mnemonic::CLw),
        (OPCODE_C0, 0b011) => Some(Mnemonic::CFlw),
        (OPCODE_C0, 0b101) => Some(Mnemonic::CFsd),
        (OPCODE_C0, 0b110) => Some(Mnemonic::CSw),
        (OPCODE_C0, 0b111) => Some(Mnemonic::CFsw),
        (OPCODE_C1, 0b000) => Some(Mnemonic::CAddi),
        (OPCODE_C1, 0b001) => Some(Mnemonic::CJal),
        (OPCODE_C1, 0b010) => Some(Mnemonic::CLi),
        (OPCODE_C1, 0b011) => if field32(src, 7, 5) == REG_SP {
            Some(Mnemonic::CAddi16sp)
        } else {
            Some(Mnemonic::CLui)
        },
        (OPCODE_C1, 0b100) => match (field32(src, 10, 2), field32(src, 5, 2)) {
            (0b10, _) => Some(Mnemonic::CAndi),
            (0b11, 0b00) => Some(Mnemonic::CSub),
            (0b11, 0b01) => Some(Mnemonic::CXor),
            (0b11, 0b10) => Some(Mnemonic::COr),
            (0b11, _) => Some(Mnemonic::CAnd),
            _ => None,
        },
        (OPCODE_C1, 0b101) => Some(Mnemonic::CJ),
        (OPCODE_C1, 0b110) => Some(Mnemonic::CBeqz),
        (OPCODE_C1, _) => Some(Mnemonic::CBnez),
        (OPCODE_C2, 0b000) => if Immediate::CImm.extract(src) == 0 {
            Some(Mnemonic::CSlli64)
        } else {
            Some(Mnemonic::CSlli)
        },
        (OPCODE_C2, 0b001) => Some(Mnemonic::CFldsp),
        (OPCODE_C2, 0b010) => Some(Mnemonic::CLwsp),
        (OPCODE_C2, 0b011) => Some(Mnemonic::CFlwsp),
        (OPCODE_C2, 0b100) => match (field32(src, 12, 1), field32(src, 7, 5), field32(src, 2, 5)) {
            (0, _, 0) => Some(Mnemonic::CJr),
            (0, _, _) => Some(Mnemonic::CMv),
            (_, 0, 0) => Some(Mnemonic::CEbreak),
            (_, _, 0) => Some(Mnemonic::CJalr),
            (_, _, _) => Some(Mnemonic::CAdd),
        },
        (OPCODE_C2, 0b101) => Some(Mnemonic::CFsdsp),
        (OPCODE_C2, 0b110) => Some(Mnemonic::CSwsp),
        (OPCODE_C2, _) => Some(Mnemonic::CFswsp),
        _ => None,
    }
}

/// The operands of the compressed encoding `w` under the mnemonic `m`.
fn operands_of(m: Mnemonic, w: u16) -> (r: Operands)
    ensures
        r == compressed_operands(m, w),
{
    proof {
        lemma2_to64();
    }
    match m {
        Mnemonic::CAddi4spn => Operands::Two(narrow(w, 2), unsigned(Immediate::CAddi4spn, w, 3)),
        Mnemonic::CFld | Mnemonic::CFsd => Operands::Three(
            narrow(w, 2),
            narrow(w, 7),
            unsigned(Immediate::CDouble, w, 2),
        ),
        Mnemonic::CLw | Mnemonic::CFlw | Mnemonic::CSw | Mnemonic::CFsw => Operands::Three(
            narrow(w, 2),
            narrow(w, 7),
            unsigned(Immediate::CWord, w, 2),
        ),
        Mnemonic::CAddi => Operands::Two(wide(w, 7), signed(field32(w as u32, 2, 5), w, 2)),
        Mnemonic::CJal | Mnemonic::CJ => Operands::One(unsigned(Immediate::CJump, w, 3)),
        Mnemonic::CLi => Operands::Two(wide(w, 7), unsigned(Immediate::CImm, w, 2)),
        Mnemonic::CAddi16sp => Operands::One(
            signed(Immediate::CAddi16sp.extract(w as u32), w, 3),
        ),
        Mnemonic::CLui => Operands::Two(wide(w, 7), unsigned(Immediate::CLui, w, 5)),
        Mnemonic::CAndi => Operands::Two(narrow(w, 2), unsigned(Immediate::CImm, w, 3)),
        Mnemonic::CSub | Mnemonic::CXor | Mnemonic::COr | Mnemonic::CAnd => Operands::Two(
            narrow(w, 2),
            narrow(w, 2),
        ),
        Mnemonic::CBeqz | Mnemonic::CBnez => Operands::Two(
            narrow(w, 7),
            unsigned(Immediate::CBranch, w, 3),
        ),
        Mnemonic::CSlli64 | Mnemonic::CJr | Mnemonic::CJalr => Operands::One(wide(w, 7)),
        Mnemonic::CSlli => Operands::Two(wide(w, 7), unsigned(Immediate::CImm, w, 2)),
        Mnemonic::CFldsp => Operands::Two(wide(w, 7), unsigned(Immediate::CLdsp, w, 2)),
        Mnemonic::CLwsp | Mnemonic::CFlwsp => Operands::Two(
            wide(w, 7),
            unsigned(Immediate::CLwsp, w, 2),
        ),
        Mnemonic::CMv | Mnemonic::CAdd => Operands::Two(wide(w, 7), wide(w, 2)),
        Mnemonic::CFsdsp => Operands::Two(wide(w, 7), unsigned(Immediate::CSdsp, w, 3)),
        Mnemonic::CSwsp => Operands::Two(wide(w, 2), unsigned(Immediate::CSwsp, w, 2)),
        Mnemonic::CFswsp => Operands::Two(wide(w, 2), unsigned(Immediate::CSdsp, w, 3)),
        _ => Operands::Bare,
    }
}

/// Resolves the compressed encoding `src` into a mnemonic and its operands.
pub fn decode_u16(src: u16) -> (r: Result<Decoded, Malformed>)
    ensures
        r == resolve_compressed(src),
{
    proof {
        lemma2_to64();
    }
    match lookup_compressed(src) {
        Some(m) => Ok(Decoded { mnemonic: m, operands: operands_of(m, src) }),
        None => Err(
            Malformed::Compressed {
                bits: src,
                quadrant: field32(src as u32, 0, 2) as u8,
                selector: field32(src as u32, 13, 3) as u8,
            },
        ),
    }
}

/// Writes the line for the compressed encoding `src` at the byte offset
/// `ptr`, or says why the encoding does not resolve.
pub fn dump_u16(src: u16, ptr: usize) -> (r: Result<String, Malformed>)
    ensures
        match r {
            Ok(s) => compressed_line(ptr as nat, src) == Ok::<Seq<char>, Malformed>(s@),
            Err(e) => compressed_line(ptr as nat, src) == Err::<Seq<char>, Malformed>(e),
        },
{
    match decode_u16(src) {
        Ok(d) => {
            let mut s = start_line(ptr, src as u64, 4);
            d.push(&mut s);
            Ok(s)
        },
        Err(e) => Err(e),
    }
}

/// What resolves is an encoding of one of the three compressed quadrants,
/// and its mnemonic is one of the compressed extension.
pub proof fn lemma_resolves_in_quadrant(w: u16)
    ensures
        resolve_compressed(w) is Ok <==> compressed_mnemonic(w) is Some,
        resolve_compressed(w) matches Ok(d) ==> quadrant(w) != 0b11 && d.mnemonic.is_compressed()
            && Some(d.mnemonic) == compressed_mnemonic(w),
{
}

} // verus!
