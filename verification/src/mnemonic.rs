//! The mnemonics that the two resolvers know.

use vstd::prelude::*;

verus! {

/// A mnemonic of the base instruction set or of the compressed extension.
#[derive(Clone, Copy, Debug, PartialEq, Eq, Structural)]
pub enum Mnemonic {
    Lui,
    Auipc,
    Jal,
    Jalr,
    Lb,
    Lh,
    Lw,
    Lbu,
    Lhu,
    Sb,
    Sh,
    Sw,
    Beq,
    Bne,
    Blt,
    Bge,
    Bltu,
    Bgeu,
    Addi,
    Slti,
    Sltiu,
    Xori,
    Ori,
    Andi,
    Slli,
    Srli,
    Srai,
    Add,
    Sub,
    Sll,
    Slt,
    Sltu,
    Xor,
    Srl,
    Sra,
    Or,
    And,
    Fence,
    FenceI,
    Ecall,
    Ebreak,
    Uret,
    Sret,
    Mret,
    Wfi,
    Csrrw,
    Csrrs,
    Csrrc,
    Csrrwi,
    Csrrsi,
    Csrrci,
    CAddi4spn,
    CFld,
    CLw,
    CFlw,
    CFsd,
    CSw,
    CFsw,
    CAddi,
    CJal,
    CLi,
    CAddi16sp,
    CLui,
    CAndi,
    CSub,
    CXor,
    COr,
    CAnd,
    CJ,
    CBeqz,
    CBnez,
    CSlli64,
    CSlli,
    CFldsp,
    CLwsp,
    CFlwsp,
    CJr,
    CMv,
    CEbreak,
    CJalr,
    CAdd,
    CFsdsp,
    CSwsp,
    CFswsp,
}

impl Mnemonic {
    /// The mnemonic as it is written in a listing.
    pub open spec fn text(self) -> Seq<char> {
        match self {
            Mnemonic::Lui => "lui"@,
            Mnemonic::Auipc => "auipc"@,
            Mnemonic::Jal => "jal"@,
            Mnemonic::Jalr => "jalr"@,
            Mnemonic::Lb => "lb"@,
            Mnemonic::Lh => "lh"@,
            Mnemonic::Lw => "lw"@,
            Mnemonic::Lbu => "lbu"@,
            Mnemonic::Lhu => "lhu"@,
            Mnemonic::Sb => "sb"@,
            Mnemonic::Sh => "sh"@,
            Mnemonic::Sw => "sw"@,
            Mnemonic::Beq => "beq"@,
            Mnemonic::Bne => "bne"@,
            Mnemonic::Blt => "blt"@,
            Mnemonic::Bge => "bge"@,
            Mnemonic::Bltu => "bltu"@,
            Mnemonic::Bgeu => "bgeu"@,
            Mnemonic::Addi => "addi"@,
            Mnemonic::Slti => "slti"@,
            Mnemonic::Sltiu => "sltiu"@,
            Mnemonic::Xori => "xori"@,
            Mnemonic::Ori => "ori"@,
            Mnemonic::Andi => "andi"@,
            Mnemonic::Slli => "slli"@,
            Mnemonic::Srli => "srli"@,
            Mnemonic::Srai => "srai"@,
            Mnemonic::Add => "add"@,
            Mnemonic::Sub => "sub"@,
            Mnemonic::Sll => "sll"@,
            Mnemonic::Slt => "slt"@,
            Mnemonic::Sltu => "sltu"@,
            Mnemonic::Xor => "xor"@,
            Mnemonic::Srl => "srl"@,
            Mnemonic::Sra => "sra"@,
            Mnemonic::Or => "or"@,
            Mnemonic::And => "and"@,
            Mnemonic::Fence => "fence"@,
            Mnemonic::FenceI => "fence.i"@,
            Mnemonic::Ecall => "ecall"@,
            Mnemonic::Ebreak => "ebreak"@,
            Mnemonic::Uret => "uret"@,
            Mnemonic::Sret => "sret"@,
            Mnemonic::Mret => "mret"@,
            Mnemonic::Wfi => "wfi"@,
            Mnemonic::Csrrw => "csrrw"@,
            Mnemonic::Csrrs => "csrrs"@,
            Mnemonic::Csrrc => "csrrc"@,
            Mnemonic::Csrrwi => "csrrwi"@,
            Mnemonic::Csrrsi => "csrrsi"@,
            Mnemonic::Csrrci => "csrrci"@,
            Mnemonic::CAddi4spn => "c.addi4spn"@,
            Mnemonic::CFld => "c.fld"@,
            Mnemonic::CLw => "c.lw"@,
            Mnemonic::CFlw => "c.flw"@,
            Mnemonic::CFsd => "c.fsd"@,
            Mnemonic::CSw => "c.sw"@,
            Mnemonic::CFsw => "c.fsw"@,
            Mnemonic::CAddi => "c.addi"@,
            Mnemonic::CJal => "c.jal"@,
            Mnemonic::CLi => "c.li"@,
            Mnemonic::CAddi16sp => "c.addi16sp"@,
            Mnemonic::CLui => "c.lui"@,
            Mnemonic::CAndi => "c.andi"@,
            Mnemonic::CSub => "c.sub"@,
            Mnemonic::CXor => "c.xor"@,
            Mnemonic::COr => "c.or"@,
            Mnemonic::CAnd => "c.and"@,
            Mnemonic::CJ => "c.j"@,
            Mnemonic::CBeqz => "c.beqz"@,
            Mnemonic::CBnez => "c.bnez"@,
            Mnemonic::CSlli64 => "c.slli64"@,
            Mnemonic::CSlli => "c.slli"@,
            Mnemonic::CFldsp => "c.fldsp"@,
            Mnemonic::CLwsp => "c.lwsp"@,
            Mnemonic::CFlwsp => "c.flwsp"@,
            Mnemonic::CJr => "c.jr"@,
            Mnemonic::CMv => "c.mv"@,
            Mnemonic::CEbreak => "c.ebreak"@,
            Mnemonic::CJalr => "c.jalr"@,
            Mnemonic::CAdd => "c.add"@,
            Mnemonic::CFsdsp => "c.fsdsp"@,
            Mnemonic::CSwsp => "c.swsp"@,
            Mnemonic::CFswsp => "c.fswsp"@,
        }
    }

    /// Whether the mnemonic belongs to the compressed extension.
    pub open spec fn is_compressed(self) -> bool {
        match self {
            Mnemonic::CAddi4spn
            | Mnemonic::CFld
            | Mnemonic::CLw
            | Mnemonic::CFlw
            | Mnemonic::CFsd
            | Mnemonic::CSw
            | Mnemonic::CFsw
            | Mnemonic::CAddi
            | Mnemonic::CJal
            | Mnemonic::CLi
            | Mnemonic::CAddi16sp
            | Mnemonic::CLui
            | Mnemonic::CAndi
            | Mnemonic::CSub
            | Mnemonic::CXor
            | Mnemonic::COr
            | Mnemonic::CAnd
            | Mnemonic::CJ
            | Mnemonic::CBeqz
            | Mnemonic::CBnez
            | Mnemonic::CSlli64
            | Mnemonic::CSlli
            | Mnemonic::CFldsp
            | Mnemonic::CLwsp
            | Mnemonic::CFlwsp
            | Mnemonic::CJr
            | Mnemonic::CMv
            | Mnemonic::CEbreak
            | Mnemonic::CJalr
            | Mnemonic::CAdd
            | Mnemonic::CFsdsp
            | Mnemonic::CSwsp
            | Mnemonic::CFswsp => true,
            _ => false,
        }
    }

    /// The mnemonic as it is written in a listing.
    pub fn name(self) -> (s: &'static str)
        ensures
            s@ == self.text(),
    {
        match self {
            Mnemonic::Lui => "lui",
            Mnemonic::Auipc => "auipc",
            Mnemonic::Jal => "jal",
            Mnemonic::Jalr => "jalr",
            Mnemonic::Lb => "lb",
            Mnemonic::Lh => "lh",
            Mnemonic::Lw => "lw",
            Mnemonic::Lbu => "lbu",
            Mnemonic::Lhu => "lhu",
            Mnemonic::Sb => "sb",
            Mnemonic::Sh => "sh",
            Mnemonic::Sw => "sw",
            Mnemonic::Beq => "beq",
            Mnemonic::Bne => "bne",
            Mnemonic::Blt => "blt",
            Mnemonic::Bge => "bge",
            Mnemonic::Bltu => "bltu",
            Mnemonic::Bgeu => "bgeu",
            Mnemonic::Addi => "addi",
            Mnemonic::Slti => "slti",
            Mnemonic::Sltiu => "sltiu",
            Mnemonic::Xori => "xori",
            Mnemonic::Ori => "ori",
            Mnemonic::Andi => "andi",
            Mnemonic::Slli => "slli",
            Mnemonic::Srli => "srli",
            Mnemonic::Srai => "srai",
            Mnemonic::Add => "add",
            Mnemonic::Sub => "sub",
            Mnemonic::Sll => "sll",
            Mnemonic::Slt => "slt",
            Mnemonic::Sltu => "sltu",
            Mnemonic::Xor => "xor",
            Mnemonic::Srl => "srl",
            Mnemonic::Sra => "sra",
            Mnemonic::Or => "or",
            Mnemonic::And => "and",
            Mnemonic::Fence => "fence",
            Mnemonic::FenceI => "fence.i",
            Mnemonic::Ecall => "ecall",
            Mnemonic::Ebreak => "ebreak",
            Mnemonic::Uret => "uret",
            Mnemonic::Sret => "sret",
            Mnemonic::Mret => "mret",
            Mnemonic::Wfi => "wfi",
            Mnemonic::Csrrw => "csrrw",
            Mnemonic::Csrrs => "csrrs",
            Mnemonic::Csrrc => "csrrc",
            Mnemonic::Csrrwi => "csrrwi",
            Mnemonic::Csrrsi => "csrrsi",
            Mnemonic::Csrrci => "csrrci",
            Mnemonic::CAddi4spn => "c.addi4spn",
            Mnemonic::CFld => "c.fld",
            Mnemonic::CLw => "c.lw",
            Mnemonic::CFlw => "c.flw",
            Mnemonic::CFsd => "c.fsd",
            Mnemonic::CSw => "c.sw",
            Mnemonic::CFsw => "c.fsw",
            Mnemonic::CAddi => "c.addi",
            Mnemonic::CJal => "c.jal",
            Mnemonic::CLi => "c.li",
            Mnemonic::CAddi16sp => "c.addi16sp",
            Mnemonic::CLui => "c.lui",
            Mnemonic::CAndi => "c.andi",
            Mnemonic::CSub => "c.sub",
            Mnemonic::CXor => "c.xor",
            Mnemonic::COr => "c.or",
            Mnemonic::CAnd => "c.and",
            Mnemonic::CJ => "c.j",
            Mnemonic::CBeqz => "c.beqz",
            Mnemonic::CBnez => "c.bnez",
            Mnemonic::CSlli64 => "c.slli64",
            Mnemonic::CSlli => "c.slli",
            Mnemonic::CFldsp => "c.fldsp",
            Mnemonic::CLwsp => "c.lwsp",
            Mnemonic::CFlwsp => "c.flwsp",
            Mnemonic::CJr => "c.jr",
            Mnemonic::CMv => "c.mv",
            Mnemonic::CEbreak => "c.ebreak",
            Mnemonic::CJalr => "c.jalr",
            Mnemonic::CAdd => "c.add",
            Mnemonic::CFsdsp => "c.fsdsp",
            Mnemonic::CSwsp => "c.swsp",
            Mnemonic::CFswsp => "c.fswsp",
        }
    }
}

} // verus!
