use rvda::base::{
    FUNCT3_OP_ADD_SUB, FUNCT3_OP_SLL, FUNCT3_OP_SRL_SRA, OPCODE_BRANCH, OPCODE_LOAD, OPCODE_OP,
    OPCODE_OP_IMM, OPCODE_STORE, OPCODE_SYSTEM,
};
use rvda::{decode_u32, dump_u32, Decoded, Malformed, Mnemonic, Operand, Operands};

fn r_type(opcode: u32, rd: u32, funct3: u32, rs1: u32, rs2: u32, funct7: u32) -> u32 {
    opcode | (rd << 7) | (funct3 << 12) | (rs1 << 15) | (rs2 << 20) | (funct7 << 25)
}

fn i_type(opcode: u32, rd: u32, funct3: u32, rs1: u32, imm: u32) -> u32 {
    opcode | (rd << 7) | (funct3 << 12) | (rs1 << 15) | (imm << 20)
}

fn text(word: u32) -> String {
    decode_u32(word).unwrap().render()
}

fn mnemonic(word: u32) -> Mnemonic {
    decode_u32(word).unwrap().mnemonic
}

#[test]
fn lui_and_auipc_show_the_upper_immediate() {
    assert_eq!(text(0x1234_52B7), "lui x5, #0x12345000 ; 305418240");
    assert_eq!(text(0xFFFF_F097), "auipc x1, #0xFFFFF000 ; 4294963200");
    assert_eq!(text(0x0000_0037), "lui x0, #0x00000000 ; 0");
}

#[test]
fn jal_forward_is_twice_the_magnitude() {
    // imm[10:1] = 4, in bits 30 to 21
    assert_eq!(text(0x0080_00EF), "jal x1, #0x00000008 ; 8");
    // imm[11] alone, bit 20
    assert_eq!(text(0x0010_006F), "jal x0, #0x00000800 ; 2048");
    // imm[19:12] = 1, bits 19 to 12
    assert_eq!(text(0x0000_106F), "jal x0, #0x00001000 ; 4096");
}

#[test]
fn jal_with_the_sign_bit_is_minus_magnitude_plus_one_doubled() {
    // sign alone: magnitude 0 stands for -1, doubled
    assert_eq!(text(0x8000_006F), "jal x0, #0xFFFFFFFE ; -2");
    // sign and imm[10:1] = 4: -(4 + 1) * 2
    assert_eq!(text(0x8080_006F), "jal x0, #0xFFFFFFF6 ; -10");
    // every bit set: magnitude 2^19 - 1
    assert_eq!(text(0xFFFF_F06F), "jal x0, #0xFFF00000 ; -1048576");
}

#[test]
fn jalr_takes_any_funct3() {
    assert_eq!(text(0x0040_80E7), "jalr x1, x1, #0x004 ; 4");
    assert_eq!(mnemonic(0x0040_F0E7), Mnemonic::Jalr);
    assert_eq!(text(0xFFF0_80E7), "jalr x1, x1, #0xFFF ; 4095");
}

#[test]
fn loads_by_funct3() {
    assert_eq!(text(i_type(OPCODE_LOAD, 5, 0, 6, 7)), "lb x5, x6, #7");
    assert_eq!(text(i_type(OPCODE_LOAD, 5, 1, 6, 7)), "lh x5, x6, #7");
    assert_eq!(text(i_type(OPCODE_LOAD, 5, 2, 6, 7)), "lw x5, x6, #7");
    assert_eq!(text(i_type(OPCODE_LOAD, 5, 4, 6, 7)), "lbu x5, x6, #7");
    assert_eq!(text(i_type(OPCODE_LOAD, 31, 5, 31, 0xFFF)), "lhu x31, x31, #4095");
    for funct3 in [3, 6, 7] {
        let word = i_type(OPCODE_LOAD, 5, funct3, 6, 7);
        assert_eq!(
            decode_u32(word),
            Err(Malformed::Word { bits: word, opcode: 0b000_0011, funct3: funct3 as u8, funct7: 0 })
        );
    }
}

#[test]
fn stores_join_the_two_halves_of_the_offset() {
    // imm[4:0] = 0b00101 in rd's place, imm[11:5] = 0b0000011 in funct7's
    assert_eq!(text(r_type(OPCODE_STORE, 0b00101, 0, 2, 3, 0b0000011)), "sb x2, x3, #101");
    assert_eq!(text(r_type(OPCODE_STORE, 0, 1, 2, 3, 1)), "sh x2, x3, #32");
    assert_eq!(text(r_type(OPCODE_STORE, 0x1F, 2, 2, 3, 0x7F)), "sw x2, x3, #4095");
    for funct3 in 3..8 {
        assert!(decode_u32(r_type(OPCODE_STORE, 0, funct3, 2, 3, 0)).is_err());
    }
}

#[test]
fn branches_by_funct3() {
    let names = [(0, "beq"), (1, "bne"), (4, "blt"), (5, "bge"), (6, "bltu"), (7, "bgeu")];
    for (funct3, name) in names {
        // imm[4:1] = 0b0100 in bits 11 to 8
        let word = r_type(OPCODE_BRANCH, 0b01000, funct3, 1, 2, 0);
        assert_eq!(text(word), format!("{} x1, x2, #8", name));
    }
    for funct3 in [2, 3] {
        let word = r_type(OPCODE_BRANCH, 0b01000, funct3, 1, 2, 0);
        assert_eq!(
            decode_u32(word),
            Err(Malformed::Word { bits: word, opcode: 0b110_0011, funct3: funct3 as u8, funct7: 0 })
        );
    }
}

#[test]
fn branch_offset_places_and_sign() {
    // imm[11] from bit 7: magnitude 2^10, doubled
    assert_eq!(text(r_type(OPCODE_BRANCH, 0b00001, 0, 1, 2, 0)), "beq x1, x2, #2048");
    // imm[10:5] = 1 from bits 30 to 25: magnitude 2^4, doubled
    assert_eq!(text(r_type(OPCODE_BRANCH, 0, 0, 1, 2, 1)), "beq x1, x2, #32");
    // the sign alone
    assert_eq!(text(r_type(OPCODE_BRANCH, 0, 0, 1, 2, 0b1000000)), "beq x1, x2, #-2");
    // the sign with every magnitude bit: -(2047 + 1) * 2
    assert_eq!(text(r_type(OPCODE_BRANCH, 0x1F, 0, 1, 2, 0x7F)), "beq x1, x2, #-4096");
}

#[test]
fn immediate_operations_by_funct3() {
    let names = [(0, "addi"), (2, "slti"), (3, "sltiu"), (4, "xori"), (6, "ori"), (7, "andi")];
    for (funct3, name) in names {
        let word = i_type(OPCODE_OP_IMM, 3, funct3, 4, 0x7FF);
        assert_eq!(text(word), format!("{} x3, x4, #0x7FF ; 2047", name));
    }
    // the immediate is read as unsigned
    assert_eq!(text(0xFFF0_0093), "addi x1, x0, #0xFFF ; 4095");
}

#[test]
fn shifts_by_immediate_need_their_funct7() {
    assert_eq!(text(r_type(OPCODE_OP_IMM, 1, FUNCT3_OP_SLL, 2, 3, 0)), "slli x1, x2, 3");
    assert_eq!(text(r_type(OPCODE_OP_IMM, 1, FUNCT3_OP_SRL_SRA, 2, 31, 0)), "srli x1, x2, 31");
    assert_eq!(text(r_type(OPCODE_OP_IMM, 1, FUNCT3_OP_SRL_SRA, 2, 3, 0b0100000)), "srai x1, x2, 3");
    for funct7 in 1..128 {
        let sll = r_type(OPCODE_OP_IMM, 1, FUNCT3_OP_SLL, 2, 3, funct7);
        assert_eq!(
            decode_u32(sll),
            Err(Malformed::Word {
                bits: sll,
                opcode: 0b001_0011,
                funct3: 1,
                funct7: funct7 as u8
            })
        );
        let srl = r_type(OPCODE_OP_IMM, 1, FUNCT3_OP_SRL_SRA, 2, 3, funct7);
        assert_eq!(decode_u32(srl).is_ok(), funct7 == 0b0100000);
    }
}

#[test]
fn register_operations_by_funct3_and_funct7() {
    let plain = [(2, "slt"), (3, "sltu"), (4, "xor"), (6, "or"), (7, "and")];
    for (funct3, name) in plain {
        assert_eq!(text(r_type(OPCODE_OP, 1, funct3, 2, 3, 0)), format!("{} x1, x2, x3", name));
        // where one mnemonic owns the funct3, funct7 does not count
        assert_eq!(text(r_type(OPCODE_OP, 1, funct3, 2, 3, 0x55)), format!("{} x1, x2, x3", name));
    }
    assert_eq!(text(r_type(OPCODE_OP, 1, FUNCT3_OP_ADD_SUB, 2, 3, 0)), "add x1, x2, x3");
    assert_eq!(text(r_type(OPCODE_OP, 1, FUNCT3_OP_ADD_SUB, 2, 3, 0b0100000)), "sub x1, x2, x3");
    assert_eq!(text(r_type(OPCODE_OP, 1, FUNCT3_OP_SLL, 2, 3, 0)), "sll x1, x2, x3");
    assert_eq!(text(r_type(OPCODE_OP, 1, FUNCT3_OP_SRL_SRA, 2, 3, 0)), "srl x1, x2, x3");
    assert_eq!(text(r_type(OPCODE_OP, 31, FUNCT3_OP_SRL_SRA, 30, 29, 0b0100000)), "sra x31, x30, x29");
}

#[test]
fn shared_funct3_goes_by_funct7_alone() {
    for funct3 in [FUNCT3_OP_ADD_SUB, FUNCT3_OP_SLL, FUNCT3_OP_SRL_SRA] {
        for funct7 in 0..128 {
            let one = decode_u32(r_type(OPCODE_OP, 1, funct3, 2, 3, funct7));
            let other = decode_u32(r_type(OPCODE_OP, 31, funct3, 17, 9, funct7));
            assert_eq!(one.is_ok(), other.is_ok());
            if let (Ok(a), Ok(b)) = (one, other) {
                assert_eq!(a.mnemonic, b.mnemonic);
                assert!(funct7 == 0 || funct7 == 0b0100000);
            }
        }
    }
    // never a guess: sll has no second mnemonic
    let word = r_type(OPCODE_OP, 1, FUNCT3_OP_SLL, 2, 3, 0b0100000);
    assert_eq!(
        decode_u32(word),
        Err(Malformed::Word { bits: word, opcode: 0b011_0011, funct3: 1, funct7: 0b0100000 })
    );
}

#[test]
fn control_register_instructions() {
    let names =
        [(1, "csrrw"), (2, "csrrs"), (3, "csrrc"), (5, "csrrwi"), (6, "csrrsi"), (7, "csrrci")];
    for (funct3, name) in names {
        let word = i_type(OPCODE_SYSTEM, 1, funct3, 2, 0x305);
        assert_eq!(text(word), format!("{} x1, x2, 773", name));
    }
    assert!(decode_u32(i_type(OPCODE_SYSTEM, 1, 4, 2, 0x305)).is_err());
}

#[test]
fn privileged_instructions_by_immediate() {
    let names = [
        (0, "ecall"),
        (1, "ebreak"),
        (0b0000000_00010, "uret"),
        (0b0001000_00010, "sret"),
        (0b0011000_00010, "mret"),
        (0b0001000_00101, "wfi"),
    ];
    for (imm, name) in names {
        assert_eq!(text(i_type(OPCODE_SYSTEM, 0, 0, 0, imm)), name);
    }
    assert_eq!(dump_u32(0x0000_0073, 16).unwrap(), "10:\t00000073\tecall");
    let word = i_type(OPCODE_SYSTEM, 0, 0, 0, 3);
    assert_eq!(
        decode_u32(word),
        Err(Malformed::Word { bits: word, opcode: 0b111_0011, funct3: 0, funct7: 0 })
    );
}

#[test]
fn fence_lists_its_flags() {
    assert_eq!(text(0x0FF0_000F), "fence sw, sr, so, si, pw, pr, po, pi");
    assert_eq!(text(0x0330_000F), "fence sw, sr, pw, pr");
    assert_eq!(text(0x0800_000F), "fence pi");
    assert_eq!(text(0x0000_000F), "fence ");
    assert_eq!(
        decode_u32(0x0210_000F),
        Ok(Decoded { mnemonic: Mnemonic::Fence, operands: Operands::One(Operand::Flags(0x21)) })
    );
    assert_eq!(text(0x0000_100F), "fence.i");
    assert!(decode_u32(0x0000_200F).is_err());
}

#[test]
fn unknown_opcodes_are_malformed() {
    for word in [0x0000_0000u32, 0xFFFF_FFFF, 0x0000_007F, 0x0000_0007, 0x0000_002F] {
        let e = decode_u32(word).unwrap_err();
        assert_eq!(
            e,
            Malformed::Word {
                bits: word,
                opcode: (word & 0x7F) as u8,
                funct3: ((word >> 12) & 7) as u8,
                funct7: (word >> 25) as u8
            }
        );
        assert_eq!(dump_u32(word, 0), Err(e));
    }
}

#[test]
fn word_line_shows_offset_and_raw_bits() {
    assert_eq!(dump_u32(0x0050_0093, 0x1A2B).unwrap(), "1a2b:\t00500093\taddi x1, x0, #0x005 ; 5");
    assert_eq!(
        dump_u32(0xFFF0_0093, usize::MAX).unwrap(),
        format!("{:x}:\tfff00093\taddi x1, x0, #0xFFF ; 4095", usize::MAX)
    );
}
