//! The resolver of the 32-bit base encodings.
//!
//! A word is resolved in two steps: a table takes the opcode, `funct3`,
//! `funct7` and the `rs2` field to the mnemonic, and the mnemonic says which
//! fields of the word are its operands.

use vstd::prelude::*;
use vstd::arithmetic::power2::lemma2_to64;
use crate::bits::{biased, bit, field, field32, twos};
use crate::layout::Immediate;
use crate::error::Malformed;
use crate::mnemonic::Mnemonic;
use crate::operand::{Decoded, Operand, Operands};
use crate::line::{line_head, start_line};

verus! {

/// The opcode of the loads.
pub const OPCODE_LOAD: u32 = 0b000_0011;
/// The opcode of the fences.
pub const OPCODE_MISC_MEM: u32 = 0b000_1111;
/// The opcode of the operations on a register and an immediate.
pub const OPCODE_OP_IMM: u32 = 0b001_0011;
/// The opcode of `auipc`.
pub const OPCODE_AUIPC: u32 = 0b001_0111;
/// The opcode of the stores.
pub const OPCODE_STORE: u32 = 0b010_0011;
/// The opcode of the operations on two registers.
pub const OPCODE_OP: u32 = 0b011_0011;
/// The opcode of `lui`.
pub const OPCODE_LUI: u32 = 0b011_0111;
/// The opcode of the branches.
pub const OPCODE_BRANCH: u32 = 0b110_0011;
/// The opcode of `jalr`.
pub const OPCODE_JALR: u32 = 0b110_0111;
/// The opcode of `jal`.
pub const OPCODE_JAL: u32 = 0b110_1111;
/// The opcode of the control register and the privileged instructions.
pub const OPCODE_SYSTEM: u32 = 0b111_0011;

/// `funct3` of `add`, `sub` and `addi`.
pub const FUNCT3_OP_ADD_SUB: u32 = 0b000;
/// `funct3` of `sll` and `slli`.
pub const FUNCT3_OP_SLL: u32 = 0b001;
/// `funct3` of `slt` and `slti`.
pub const FUNCT3_OP_SLT: u32 = 0b010;
/// `funct3` of `sltu` and `sltiu`.
pub const FUNCT3_OP_SLTU: u32 = 0b011;
/// `funct3` of `xor` and `xori`.
pub const FUNCT3_OP_XOR: u32 = 0b100;
/// `funct3` of `srl`, `sra`, `srli` and `srai`.
pub const FUNCT3_OP_SRL_SRA: u32 = 0b101;
/// `funct3` of `or` and `ori`.
pub const FUNCT3_OP_OR: u32 = 0b110;
/// `funct3` of `and` and `andi`.
pub const FUNCT3_OP_AND: u32 = 0b111;

/// `funct3` of `beq`.
pub const FUNCT3_BRANCH_BEQ: u32 = 0b000;
/// `funct3` of `bne`.
pub const FUNCT3_BRANCH_BNE: u32 = 0b001;
/// `funct3` of `blt`.
pub const FUNCT3_BRANCH_BLT: u32 = 0b100;
/// `funct3` of `bge`.
pub const FUNCT3_BRANCH_BGE: u32 = 0b101;
/// `funct3` of `bltu`.
pub const FUNCT3_BRANCH_BLTU: u32 = 0b110;
/// `funct3` of `bgeu`.
pub const FUNCT3_BRANCH_BGEU: u32 = 0b111;

/// `funct3` of `sb`.
pub const FUNCT3_STORE_SB: u32 = 0b000;
/// `funct3` of `sh`.
pub const FUNCT3_STORE_SH: u32 = 0b001;
/// `funct3` of `sw`.
pub const FUNCT3_STORE_SW: u32 = 0b010;

/// `funct3` of `lb`.
pub const FUNCT3_LOAD_LB: u32 = 0b000;
/// `funct3` of `lh`.
pub const FUNCT3_LOAD_LH: u32 = 0b001;
/// `funct3` of `lw`.
pub const FUNCT3_LOAD_LW: u32 = 0b010;
/// `funct3` of `lbu`.
pub const FUNCT3_LOAD_LBU: u32 = 0b100;
/// `funct3` of `lhu`.
pub const FUNCT3_LOAD_LHU: u32 = 0b101;

/// `funct3` of the privileged instructions.
pub const FUNCT3_SYSTEM_PRIV: u32 = 0b000;
/// `funct3` of `csrrw`.
pub const FUNCT3_SYSTEM_CSRRW: u32 = 0b001;
/// `funct3` of `csrrs`.
pub const FUNCT3_SYSTEM_CSRRS: u32 = 0b010;
/// `funct3` of `csrrc`.
pub const FUNCT3_SYSTEM_CSRRC: u32 = 0b011;
/// `funct3` of `csrrwi`.
pub const FUNCT3_SYSTEM_CSRRWI: u32 = 0b101;
/// `funct3` of `csrrsi`.
pub const FUNCT3_SYSTEM_CSRRSI: u32 = 0b110;
/// `funct3` of `csrrci`.
pub const FUNCT3_SYSTEM_CSRRCI: u32 = 0b111;

/// `funct3` of `fence`.
pub const FUNCT3_MISC_MEM_FENCE: u32 = 0b000;
/// `funct3` of `fence.i`.
pub const FUNCT3_MISC_MEM_FENCE_I: u32 = 0b001;

/// The `funct7` of the second mnemonic where two share a `funct3`
/// (`sub`, `sra`, `srai`).
pub const FUNCT7_ALTERNATE: u32 = 0b010_0000;

/// Bits 6 to 0.
pub open spec fn opcode(w: u32) -> nat {
    field(w as nat, 0, 7)
}

/// Bits 11 to 7.
pub open spec fn rd(w: u32) -> nat {
    field(w as nat, 7, 5)
}

/// Bits 14 to 12.
pub open spec fn funct3(w: u32) -> nat {
    field(w as nat, 12, 3)
}

/// Bits 19 to 15.
pub open spec fn rs1(w: u32) -> nat {
    field(w as nat, 15, 5)
}

/// Bits 24 to 20: the second source register, or the shift amount.
pub open spec fn rs2(w: u32) -> nat {
    field(w as nat, 20, 5)
}

/// Bits 31 to 25.
pub open spec fn funct7(w: u32) -> nat {
    field(w as nat, 25, 7)
}

/// Bits 31 to 20: the immediate `imm[11:0]`, read as unsigned.
pub open spec fn imm12(w: u32) -> nat {
    field(w as nat, 20, 12)
}

/// Bits 27 to 20: the predecessor and successor sets of a fence.
pub open spec fn fence_sets(w: u32) -> nat {
    field(w as nat, 20, 8)
}

/// The immediate of `lui` and `auipc`.
pub open spec fn upper_imm(w: u32) -> nat {
    Immediate::Upper.of(w as nat)
}

/// The offset of a store, read as unsigned.
pub open spec fn store_offset(w: u32) -> nat {
    Immediate::Store.of(w as nat)
}

/// The displacement of a branch, in bytes.
pub open spec fn branch_offset(w: u32) -> int {
    2 * biased(Immediate::Branch.of(w as nat), bit(w as nat, 31))
}

/// The displacement of a jump, in bytes.
pub open spec fn jump_offset(w: u32) -> int {
    2 * biased(Immediate::Jump.of(w as nat), bit(w as nat, 31))
}

/// The table of the 32-bit encodings: the mnemonic for an opcode, a
/// `funct3`, a `funct7` and an `rs2` field, or `None` where the encoding is
/// not defined. `funct7` counts only where two mnemonics share a `funct3`,
/// and for the privileged instructions, which are told apart by the full
/// immediate, `funct7` and `rs2` together.
pub open spec fn word_mnemonic(opcode: nat, funct3: nat, funct7: nat, rs2: nat) -> Option<
    Mnemonic,
> {
    if opcode == OPCODE_LUI {
        Some(Mnemonic::Lui)
    } else if opcode == OPCODE_AUIPC {
        Some(Mnemonic::Auipc)
    } else if opcode == OPCODE_JAL {
        Some(Mnemonic::Jal)
    } else if opcode == OPCODE_JALR {
        Some(Mnemonic::Jalr)
    } else if opcode == OPCODE_LOAD {
        if funct3 == FUNCT3_LOAD_LB {
            Some(Mnemonic::Lb)
        } else if funct3 == FUNCT3_LOAD_LH {
            Some(Mnemonic::Lh)
        } else if funct3 == FUNCT3_LOAD_LW {
            Some(Mnemonic::Lw)
        } else if funct3 == FUNCT3_LOAD_LBU {
            Some(Mnemonic::Lbu)
        } else if funct3 == FUNCT3_LOAD_LHU {
            Some(Mnemonic::Lhu)
        } else {
            None
        }
    } else if opcode == OPCODE_STORE {
        if funct3 == FUNCT3_STORE_SB {
            Some(Mnemonic::Sb)
        } else if funct3 == FUNCT3_STORE_SH {
            Some(Mnemonic::Sh)
        } else if funct3 == FUNCT3_STORE_SW {
            Some(Mnemonic::Sw)
        } else {
            None
        }
    } else if opcode == OPCODE_BRANCH {
        if funct3 == FUNCT3_BRANCH_BEQ {
            Some(Mnemonic::Beq)
        } else if funct3 == FUNCT3_BRANCH_BNE {
            Some(Mnemonic::Bne)
        } else if funct3 == FUNCT3_BRANCH_BLT {
            Some(Mnemonic::Blt)
        } else if funct3 == FUNCT3_BRANCH_BGE {
            Some(Mnemonic::Bge)
        } else if funct3 == FUNCT3_BRANCH_BLTU {
            Some(Mnemonic::Bltu)
        } else if funct3 == FUNCT3_BRANCH_BGEU {
            Some(Mnemonic::Bgeu)
        } else {
            None
        }
    } else if opcode == OPCODE_OP_IMM {
        if funct3 == FUNCT3_OP_ADD_SUB {
            Some(Mnemonic::Addi)
        } else if funct3 == FUNCT3_OP_SLT {
            Some(Mnemonic::Slti)
        } else if funct3 == FUNCT3_OP_SLTU {
            Some(Mnemonic::Sltiu)
        } else if funct3 == FUNCT3_OP_XOR {
            Some(Mnemonic::Xori)
        } else if funct3 == FUNCT3_OP_OR {
            Some(Mnemonic::Ori)
        } else if funct3 == FUNCT3_OP_AND {
            Some(Mnemonic::Andi)
        } else if funct3 == FUNCT3_OP_SLL && funct7 == 0 {
            Some(Mnemonic::Slli)
        } else if funct3 == FUNCT3_OP_SRL_SRA && funct7 == 0 {
            Some(Mnemonic::Srli)
        } else if funct3 == FUNCT3_OP_SRL_SRA && funct7 == FUNCT7_ALTERNATE {
            Some(Mnemonic::Srai)
        } else {
            None
        }
    } else if opcode == OPCODE_OP {
        if funct3 == FUNCT3_OP_SLT {
            Some(Mnemonic::Slt)
        } else if funct3 == FUNCT3_OP_SLTU {
            Some(Mnemonic::Sltu)
        } else if funct3 == FUNCT3_OP_XOR {
            Some(Mnemonic::Xor)
        } else if funct3 == FUNCT3_OP_OR {
            Some(Mnemonic::Or)
        } else if funct3 == FUNCT3_OP_AND {
            Some(Mnemonic::And)
        } else if funct3 == FUNCT3_OP_ADD_SUB && funct7 == 0 {
            Some(Mnemonic::Add)
        } else if funct3 == FUNCT3_OP_ADD_SUB && funct7 == FUNCT7_ALTERNATE {
            Some(Mnemonic::Sub)
        } else if funct3 == FUNCT3_OP_SLL && funct7 == 0 {
            Some(Mnemonic::Sll)
        } else if funct3 == FUNCT3_OP_SRL_SRA && funct7 == 0 {
            Some(Mnemonic::Srl)
        } else if funct3 == FUNCT3_OP_SRL_SRA && funct7 == FUNCT7_ALTERNATE {
            Some(Mnemonic::Sra)
        } else {
            None
        }
    } else if opcode == OPCODE_SYSTEM {
        if funct3 == FUNCT3_SYSTEM_CSRRW {
            Some(Mnemonic::Csrrw)
        } else if funct3 == FUNCT3_SYSTEM_CSRRS {
            Some(Mnemonic::Csrrs)
        } else if funct3 == FUNCT3_SYSTEM_CSRRC {
            Some(Mnemonic::Csrrc)
        } else if funct3 == FUNCT3_SYSTEM_CSRRWI {
            Some(Mnemonic::Csrrwi)
        } else if funct3 == FUNCT3_SYSTEM_CSRRSI {
            Some(Mnemonic::Csrrsi)
        } else if funct3 == FUNCT3_SYSTEM_CSRRCI {
            Some(Mnemonic::Csrrci)
        } else if funct3 == FUNCT3_SYSTEM_PRIV {
            privileged(32 * funct7 + rs2)
        } else {
            None
        }
    } else if opcode == OPCODE_MISC_MEM {
        if funct3 == FUNCT3_MISC_MEM_FENCE {
            Some(Mnemonic::Fence)
        } else if funct3 == FUNCT3_MISC_MEM_FENCE_I {
            Some(Mnemonic::FenceI)
        } else {
            None
        }
    } else {
        None
    }
}

/// The privileged instruction that the 12-bit immediate `imm` selects.
pub open spec fn privileged(imm: nat) -> Option<Mnemonic> {
    if imm == 0 {
        Some(Mnemonic::Ecall)
    } else if imm == 1 {
        Some(Mnemonic::Ebreak)
    } else if imm == 0b0000000_00010 {
        Some(Mnemonic::Uret)
    } else if imm == 0b0001000_00010 {
        Some(Mnemonic::Sret)
    } else if imm == 0b0011000_00010 {
        Some(Mnemonic::Mret)
    } else if imm == 0b0001000_00101 {
        Some(Mnemonic::Wfi)
    } else {
        None
    }
}

/// The operands of the word `w` under the mnemonic `m`.
pub open spec fn word_operands(m: Mnemonic, w: u32) -> Operands {
    match m {
        Mnemonic::Lui | Mnemonic::Auipc => Operands::Two(
            Operand::Reg(rd(w) as u8),
            Operand::Imm { pattern: upper_imm(w) as u32, digits: 8, value: upper_imm(w) as i64 },
        ),
        Mnemonic::Jal => Operands::Two(
            Operand::Reg(rd(w) as u8),
            Operand::Imm {
                pattern: twos(jump_offset(w), 32) as u32,
                digits: 8,
                value: jump_offset(w) as i64,
            },
        ),
        Mnemonic::Jalr
        | Mnemonic::Addi
        | Mnemonic::Slti
        | Mnemonic::Sltiu
        | Mnemonic::Xori
        | Mnemonic::Ori
        | Mnemonic::Andi => Operands::Three(
            Operand::Reg(rd(w) as u8),
            Operand::Reg(rs1(w) as u8),
            Operand::Imm { pattern: imm12(w) as u32, digits: 3, value: imm12(w) as i64 },
        ),
        Mnemonic::Lb | Mnemonic::Lh | Mnemonic::Lw | Mnemonic::Lbu | Mnemonic::Lhu => {
            Operands::Three(
                Operand::Reg(rd(w) as u8),
                Operand::Reg(rs1(w) as u8),
                Operand::Offset(imm12(w) as i32),
            )
        },
        Mnemonic::Sb | Mnemonic::Sh | Mnemonic::Sw => Operands::Three(
            Operand::Reg(rs1(w) as u8),
            Operand::Reg(rs2(w) as u8),
            Operand::Offset(store_offset(w) as i32),
        ),
        Mnemonic::Beq
        | Mnemonic::Bne
        | Mnemonic::Blt
        | Mnemonic::Bge
        | Mnemonic::Bltu
        | Mnemonic::Bgeu => Operands::Three(
            Operand::Reg(rs1(w) as u8),
            Operand::Reg(rs2(w) as u8),
            Operand::Offset(branch_offset(w) as i32),
        ),
        Mnemonic::Slli | Mnemonic::Srli | Mnemonic::Srai => Operands::Three(
            Operand::Reg(rd(w) as u8),
            Operand::Reg(rs1(w) as u8),
            Operand::Number(rs2(w) as u32),
        ),
        Mnemonic::Add
        | Mnemonic::Sub
        | Mnemonic::Sll
        | Mnemonic::Slt
        | Mnemonic::Sltu
        | Mnemonic::Xor
        | Mnemonic::Srl
        | Mnemonic::Sra
        | Mnemonic::Or
        | Mnemonic::And => Operands::Three(
            Operand::Reg(rd(w) as u8),
            Operand::Reg(rs1(w) as u8),
            Operand::Reg(rs2(w) as u8),
        ),
        Mnemonic::Csrrw
        | Mnemonic::Csrrs
        | Mnemonic::Csrrc
        | Mnemonic::Csrrwi
        | Mnemonic::Csrrsi
        | Mnemonic::Csrrci => Operands::Three(
            Operand::Reg(rd(w) as u8),
            Operand::Reg(rs1(w) as u8),
            Operand::Number(imm12(w) as u32),
        ),
        Mnemonic::Fence => Operands::One(Operand::Flags(fence_sets(w) as u8)),
        _ => Operands::Bare,
    }
}

/// What the word `w` resolves to: the mnemonic that the table gives for its
/// fields, with the operands of that mnemonic, or the error that names the
/// fields for which the table has no entry.
pub open spec fn resolve_word(w: u32) -> Result<Decoded, Malformed> {
    match word_mnemonic(opcode(w), funct3(w), funct7(w), rs2(w)) {
        Some(m) => Ok(Decoded { mnemonic: m, operands: word_operands(m, w) }),
        None => Err(
            Malformed::Word {
                bits: w,
                opcode: opcode(w) as u8,
                funct3: funct3(w) as u8,
                funct7: funct7(w) as u8,
            },
        ),
    }
}

/// The line for the word `w` at `offset`: the head with the word in eight
/// digits, then the resolved instruction.
pub open spec fn word_line(offset: nat, w: u32) -> Result<Seq<char>, Malformed> {
    match resolve_word(w) {
        Ok(d) => Ok(line_head(offset, w as nat, 8) + d.text()),
        Err(e) => Err(e),
    }
}

/// A register operand from the five bits of `w` that start at bit `lo`.
fn reg(w: u32, lo: u32) -> (r: Operand)
    requires
        lo <= 27,
    ensures
        r == Operand::Reg(field(w as nat, lo as nat, 5) as u8),
{
    proof {
        lemma2_to64();
    }
    Operand::Reg(field32(w, lo, 5) as u8)
}

/// The immediate `imm[11:0]`.
fn imm12_of(w: u32) -> (r: u32)
    ensures
        r == imm12(w),
        r < 4096,
{
    proof {
        lemma2_to64();
    }
    field32(w, 20, 12)
}

/// The offset of a store.
fn store_offset_of(w: u32) -> (r: u32)
    ensures
        r == store_offset(w),
        r < 4096,
{
    proof {
        lemma2_to64();
    }
    Immediate::Store.extract(w)
}

/// The sign and the magnitude of a displacement in units of two bytes, as
/// bytes.
fn displacement(magnitude: u32, negative: bool) -> (r: i32)
    requires
        magnitude < 0x2000_0000,
    ensures
        r == 2 * biased(magnitude as nat, negative),
{
    if negative {
        -2 * (magnitude as i32 + 1)
    } else {
        2 * (magnitude as i32)
    }
}

/// The displacement of a branch.
fn branch_offset_of(w: u32) -> (r: i32)
    ensures
        r == branch_offset(w),
{
    proof {
        lemma2_to64();
    }
    displacement(Immediate::Branch.extract(w), field32(w, 31, 1) == 1)
}

/// The displacement of a jump.
fn jump_offset_of(w: u32) -> (r: i32)
    ensures
        r == jump_offset(w),
{
    proof {
        lemma2_to64();
    }
    displacement(Immediate::Jump.extract(w), field32(w, 31, 1) == 1)
}

/// The bit pattern of a 32-bit value in two's complement.
fn pattern32(value: i32) -> (r: u32)
    ensures
        r == twos(value as int, 32),
{
    proof {
        lemma2_to64();
    }
    if value < 0 {
        let below: u32 = (-(value + 1)) as u32;
        0xFFFF_FFFF - below
    } else {
        value as u32
    }
}

/// The privileged instruction that the immediate `imm` selects.
fn lookup_privileged(imm: u32) -> (r: Option<Mnemonic>)
    ensures
        r == privileged(imm as nat),
{
    match imm {
        0 => Some(Mnemonic::Ecall),
        1 => Some(Mnemonic::Ebreak),
        0b0000000_00010 => Some(Mnemonic::Uret),
        0b0001000_00010 => Some(Mnemonic::Sret),
        0b0011000_00010 => Some(Mnemonic::Mret),
        0b0001000_00101 => Some(Mnemonic::Wfi),
        _ => None,
    }
}

/// Looks the mnemonic up in the table of the 32-bit encodings.
fn lookup_word(opcode: u32, funct3: u32, funct7: u32, rs2: u32) -> (r: Option<Mnemonic>)
    requires
        funct7 < 128,
        rs2 < 32,
    ensures
        r == word_mnemonic(opcode as nat, funct3 as nat, funct7 as nat, rs2 as nat),
{
    match opcode {
        OPCODE_LUI => Some(Mnemonic::Lui),
        OPCODE_AUIPC => Some(Mnemonic::Auipc),
        OPCODE_JAL => Some(Mnemonic::Jal),
        OPCODE_JALR => Some(Mnemonic::Jalr),
        OPCODE_LOAD => match funct3 {
            FUNCT3_LOAD_LB => Some(Mnemonic::Lb),
            FUNCT3_LOAD_LH => Some(Mnemonic::Lh),
            FUNCT3_LOAD_LW => Some(Mnemonic::Lw),
            FUNCT3_LOAD_LBU => Some(Mnemonic::Lbu),
            FUNCT3_LOAD_LHU => Some(Mnemonic::Lhu),
            _ => None,
        },
        OPCODE_STORE => match funct3 {
            FUNCT3_STORE_SB => Some(Mnemonic::Sb),
            FUNCT3_STORE_SH => Some(Mnemonic::Sh),
            FUNCT3_STORE_SW => Some(Mnemonic::Sw),
            _ => None,
        },
        OPCODE_BRANCH => match funct3 {
            FUNCT3_BRANCH_BEQ => Some(Mnemonic::Beq),
            FUNCT3_BRANCH_BNE => Some(Mnemonic::Bne),
            FUNCT3_BRANCH_BLT => Some(Mnemonic::Blt),
            FUNCT3_BRANCH_BGE => Some(Mnemonic::Bge),
            FUNCT3_BRANCH_BLTU => Some(Mnemonic::Bltu),
            FUNCT3_BRANCH_BGEU => Some(Mnemonic::Bgeu),
            _ => None,
        },
        OPCODE_OP_IMM => match funct3 {
            FUNCT3_OP_ADD_SUB => Some(Mnemonic::Addi),
            FUNCT3_OP_SLT => Some(Mnemonic::Slti),
            FUNCT3_OP_SLTU => Some(Mnemonic::Sltiu),
            FUNCT3_OP_XOR => Some(Mnemonic::Xori),
            FUNCT3_OP_OR => Some(Mnemonic::Ori),
            FUNCT3_OP_AND => Some(Mnemonic::Andi),
            _ => match (funct3, funct7) {
                (FUNCT3_OP_SLL, 0) => Some(Mnemonic::Slli),
                (FUNCT3_OP_SRL_SRA, 0) => Some(Mnemonic::Srli),
                (FUNCT3_OP_SRL_SRA, FUNCT7_ALTERNATE) => Some(Mnemonic::Srai),
                _ => None,
            },
        },
        OPCODE_OP => match funct3 {
            FUNCT3_OP_SLT => Some(Mnemonic::Slt),
            FUNCT3_OP_SLTU => Some(Mnemonic::Sltu),
            FUNCT3_OP_XOR => Some(Mnemonic::Xor),
            FUNCT3_OP_OR => Some(Mnemonic::Or),
            FUNCT3_OP_AND => Some(Mnemonic::And),
            _ => match (funct3, funct7) {
                (FUNCT3_OP_ADD_SUB, 0) => Some(Mnemonic::Add),
                (FUNCT3_OP_ADD_SUB, FUNCT7_ALTERNATE) => Some(Mnemonic::Sub),
                (FUNCT3_OP_SLL, 0) => Some(Mnemonic::Sll),
                (FUNCT3_OP_SRL_SRA, 0) => Some(Mnemonic::Srl),
                (FUNCT3_OP_SRL_SRA, FUNCT7_ALTERNATE) => Some(Mnemonic::Sra),
                _ => None,
            },
        },
        OPCODE_SYSTEM => match funct3 {
            FUNCT3_SYSTEM_CSRRW => Some(Mnemonic::Csrrw),
            FUNCT3_SYSTEM_CSRRS => Some(Mnemonic::Csrrs),
            FUNCT3_SYSTEM_CSRRC => Some(Mnemonic::Csrrc),
            FUNCT3_SYSTEM_CSRRWI => Some(Mnemonic::Csrrwi),
            FUNCT3_SYSTEM_CSRRSI => Some(Mnemonic::Csrrsi),
            FUNCT3_SYSTEM_CSRRCI => Some(Mnemonic::Csrrci),
            FUNCT3_SYSTEM_PRIV => lookup_privileged(32 * funct7 + rs2),
            _ => None,
        },
        OPCODE_MISC_MEM => match funct3 {
            FUNCT3_MISC_MEM_FENCE => Some(Mnemonic::Fence),
            FUNCT3_MISC_MEM_FENCE_I => Some(Mnemonic::FenceI),
            _ => None,
        },
        _ => None,
    }
}

/// The operands of the word `w` under the mnemonic `m`.
fn operands_of(m: Mnemonic, w: u32) -> (r: Operands)
    ensures
        r == word_operands(m, w),
{
    proof {
        lemma2_to64();
    }
    match m {
        Mnemonic::Lui | Mnemonic::Auipc => {
            let imm = Immediate::Upper.extract(w);
            Operands::Two(reg(w, 7), Operand::Imm { pattern: imm, digits: 8, value: imm as i64 })
        },
        Mnemonic::Jal => {
            let offset = jump_offset_of(w);
            Operands::Two(
                reg(w, 7),
                Operand::Imm { pattern: pattern32(offset), digits: 8, value: offset as i64 },
            )
        },
        Mnemonic::Jalr
        | Mnemonic::Addi
        | Mnemonic::Slti
        | Mnemonic::Sltiu
        | Mnemonic::Xori
        | Mnemonic::Ori
        | Mnemonic::Andi => {
            let imm = imm12_of(w);
            Operands::Three(
                reg(w, 7),
                reg(w, 15),
                Operand::Imm { pattern: imm, digits: 3, value: imm as i64 },
            )
        },
        Mnemonic::Lb | Mnemonic::Lh | Mnemonic::Lw | Mnemonic::Lbu | Mnemonic::Lhu => {
            Operands::Three(reg(w, 7), reg(w, 15), Operand::Offset(imm12_of(w) as i32))
        },
        Mnemonic::Sb | Mnemonic::Sh | Mnemonic::Sw => {
            Operands::Three(reg(w, 15), reg(w, 20), Operand::Offset(store_offset_of(w) as i32))
        },
        Mnemonic::Beq
        | Mnemonic::Bne
        | Mnemonic::Blt
        | Mnemonic::Bge
        | Mnemonic::Bltu
        | Mnemonic::Bgeu => {
            Operands::Three(reg(w, 15), reg(w, 20), Operand::Offset(branch_offset_of(w)))
        },
        Mnemonic::Slli | Mnemonic::Srli | Mnemonic::Srai => {
            Operands::Three(reg(w, 7), reg(w, 15), Operand::Number(field32(w, 20, 5)))
        },
        Mnemonic::Add
        | Mnemonic::Sub
        | Mnemonic::Sll
        | Mnemonic::Slt
        | Mnemonic::Sltu
        | Mnemonic::Xor
        | Mnemonic::Srl
        | Mnemonic::Sra
        | Mnemonic::Or
        | Mnemonic::And => Operands::Three(reg(w, 7), reg(w, 15), reg(w, 20)),
        Mnemonic::Csrrw
        | Mnemonic::Csrrs
        | Mnemonic::Csrrc
        | Mnemonic::Csrrwi
        | Mnemonic::Csrrsi
        | Mnemonic::Csrrci => {
            Operands::Three(reg(w, 7), reg(w, 15), Operand::Number(imm12_of(w)))
        },
        Mnemonic::Fence => Operands::One(Operand::Flags(field32(w, 20, 8) as u8)),
        _ => Operands::Bare,
    }
}

/// Resolves the 32-bit word `src` into a mnemonic and its operands.
pub fn decode_u32(src: u32) -> (r: Result<Decoded, Malformed>)
    ensures
        r == resolve_word(src),
{
    proof {
        lemma2_to64();
    }
    let opcode = field32(src, 0, 7);
    let funct3 = field32(src, 12, 3);
    let funct7 = field32(src, 25, 7);
    let rs2 = field32(src, 20, 5);
    match lookup_word(opcode, funct3, funct7, rs2) {
        Some(m) => Ok(Decoded { mnemonic: m, operands: operands_of(m, src) }),
        None => Err(
            Malformed::Word {
                bits: src,
                opcode: opcode as u8,
                funct3: funct3 as u8,
                funct7: funct7 as u8,
            },
        ),
    }
}

/// Writes the line for the 32-bit word `src` at the byte offset `ptr`, or
/// says why the word does not resolve.
pub fn dump_u32(src: u32, ptr: usize) -> (r: Result<String, Malformed>)
    ensures
        match r {
            Ok(s) => word_line(ptr as nat, src) == Ok::<Seq<char>, Malformed>(s@),
            Err(e) => word_line(ptr as nat, src) == Err::<Seq<char>, Malformed>(e),
        },
{
    match decode_u32(src) {
        Ok(d) => {
            let mut s = start_line(ptr, src as u64, 8);
            d.push(&mut s);
            Ok(s)
        },
        Err(e) => Err(e),
    }
}

/// Whether two mnemonics share the `funct3` under the opcode, so that
/// `funct7` has to tell them apart: the shifts among the operations with an
/// immediate; addition, subtraction and the shifts among those on
/// registers.
pub open spec fn shared_funct3(opcode: nat, funct3: nat) -> bool {
    ||| opcode == OPCODE_OP_IMM && (funct3 == FUNCT3_OP_SLL || funct3 == FUNCT3_OP_SRL_SRA)
    ||| opcode == OPCODE_OP && (funct3 == FUNCT3_OP_ADD_SUB || funct3 == FUNCT3_OP_SLL || funct3
        == FUNCT3_OP_SRL_SRA)
}

/// Whether the table has an entry for the opcode, the `funct3` and the
/// `funct7`, under some `rs2` field.
pub open spec fn defined(opcode: nat, funct3: nat, funct7: nat) -> bool {
    exists|rs2: nat| rs2 < 32 && (#[trigger] word_mnemonic(opcode, funct3, funct7, rs2)) is Some
}

/// Where two mnemonics share a `funct3`, `funct7` alone decides. Of two
/// words with the same opcode and the same shared `funct3`: if they agree in
/// `funct7`, both resolve to the same mnemonic or neither resolves, whatever
/// their other fields hold; if both resolve, their mnemonics are the same
/// only if their `funct7` are; and a word resolves only with one of the two
/// values of `funct7` that the table knows.
pub proof fn lemma_funct7_decides(a: u32, b: u32)
    requires
        shared_funct3(opcode(a), funct3(a)),
        opcode(b) == opcode(a),
        funct3(b) == funct3(a),
    ensures
        funct7(a) == funct7(b) ==> (resolve_word(a) is Ok <==> resolve_word(b) is Ok),
        resolve_word(a) matches Ok(x) ==> resolve_word(b) matches Ok(y) ==> (x.mnemonic
            == y.mnemonic <==> funct7(a) == funct7(b)),
        resolve_word(a) is Ok ==> funct7(a) == 0 || funct7(a) == FUNCT7_ALTERNATE,
{
}

/// A word whose opcode, `funct3` and `funct7` have no entry in the table
/// does not resolve: it is reported as malformed, with these three fields.
pub proof fn lemma_undefined_is_malformed(w: u32)
    requires
        !defined(opcode(w), funct3(w), funct7(w)),
    ensures
        resolve_word(w) == Err::<Decoded, Malformed>(
            Malformed::Word {
                bits: w,
                opcode: opcode(w) as u8,
                funct3: funct3(w) as u8,
                funct7: funct7(w) as u8,
            },
        ),
{
    lemma2_to64();
    crate::bits::lemma_field_bound(w as nat, 20, 5);
    assert(word_mnemonic(opcode(w), funct3(w), funct7(w), rs2(w)) is None);
}

/// A word resolves exactly where the table has an entry for its fields, and
/// then to the mnemonic of that entry.
pub proof fn lemma_resolves_by_table(w: u32)
    ensures
        resolve_word(w) is Ok <==> word_mnemonic(opcode(w), funct3(w), funct7(w), rs2(w)) is Some,
        resolve_word(w) matches Ok(d) ==> Some(d.mnemonic) == word_mnemonic(
            opcode(w),
            funct3(w),
            funct7(w),
            rs2(w),
        ) && !d.mnemonic.is_compressed(),
{
}

} // verus!
