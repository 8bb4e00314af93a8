use rvda::{decode_u16, dump_u16, Decoded, Malformed, Mnemonic, Operand, Operands};

fn text(word: u16) -> String {
    decode_u16(word).unwrap().render()
}

fn malformed(word: u16) -> Malformed {
    Malformed::Compressed { bits: word, quadrant: (word & 3) as u8, selector: (word >> 13) as u8 }
}

#[test]
fn addi4spn_rebuilds_its_immediate() {
    // bit 5 -> 3, bit 6 -> 2, bits 10:7 -> 9:6, bits 12:11 -> 5:4
    assert_eq!(text(0x0020), "c.addi4spn x8, #0x008 ; 8");
    assert_eq!(text(0x0040), "c.addi4spn x8, #0x004 ; 4");
    assert_eq!(text(0x0080), "c.addi4spn x8, #0x040 ; 64");
    assert_eq!(text(0x0800), "c.addi4spn x8, #0x010 ; 16");
    assert_eq!(text(0x1FFC), "c.addi4spn x15, #0x3FC ; 1020");
}

#[test]
fn addi4spn_without_immediate_is_illegal() {
    assert_eq!(decode_u16(0x0000), Err(malformed(0x0000)));
    assert_eq!(
        decode_u16(0x001C),
        Err(Malformed::Compressed { bits: 0x001C, quadrant: 0, selector: 0 })
    );
    assert_eq!(dump_u16(0x0000, 0), Err(malformed(0x0000)));
}

#[test]
fn quadrant_zero_selector_four_is_reserved() {
    for word in [0x8000u16, 0x9FFC, 0x8004] {
        assert_eq!(
            decode_u16(word),
            Err(Malformed::Compressed { bits: word, quadrant: 0, selector: 4 })
        );
    }
}

#[test]
fn quadrant_zero_loads_and_stores() {
    // registers: bits 4:2 and bits 9:7, each plus 8
    assert_eq!(text(0x2000 | (1 << 2) | (2 << 7)), "c.fld x9, x10, #0x00 ; 0");
    // uimm[5:3] from bits 12:10, uimm[7:6] from bits 6:5
    assert_eq!(text(0x2000 | (1 << 10)), "c.fld x8, x8, #0x08 ; 8");
    assert_eq!(text(0x2000 | (1 << 5)), "c.fld x8, x8, #0x40 ; 64");
    assert_eq!(text(0x3C60), "c.fld x8, x8, #0xF8 ; 248");
    assert_eq!(text(0xBC60), "c.fsd x8, x8, #0xF8 ; 248");
    // uimm[2] from bit 6, uimm[6] from bit 5
    assert_eq!(text(0x4000 | (1 << 6)), "c.lw x8, x8, #0x04 ; 4");
    assert_eq!(text(0x4000 | (1 << 5)), "c.lw x8, x8, #0x40 ; 64");
    assert_eq!(text(0x4000 | (1 << 10)), "c.lw x8, x8, #0x08 ; 8");
    assert_eq!(text(0x4000 | (1 << 12)), "c.lw x8, x8, #0x20 ; 32");
    assert_eq!(text(0x5C60), "c.lw x8, x8, #0x7C ; 124");
    assert_eq!(text(0x7C60), "c.flw x8, x8, #0x7C ; 124");
    assert_eq!(text(0xDC60), "c.sw x8, x8, #0x7C ; 124");
    assert_eq!(text(0xFFFC), "c.fsw x15, x15, #0x7C ; 124");
}

#[test]
fn c_addi_sign_rule() {
    // magnitude in bits 6:2, sign in bit 12
    assert_eq!(text(0x0001), "c.addi x0, #0x00 ; 0");
    assert_eq!(text(0x0095), "c.addi x1, #0x05 ; 5");
    assert_eq!(text(0x007D), "c.addi x0, #0x1F ; 31");
    // with the sign, the magnitude v stands for -(v + 1), shown in 16 bits
    assert_eq!(text(0x1001), "c.addi x0, #0xFFFF ; -1");
    assert_eq!(text(0x1095), "c.addi x1, #0xFFFA ; -6");
    assert_eq!(text(0x107D), "c.addi x0, #0xFFE0 ; -32");
    assert_eq!(
        decode_u16(0x1095),
        Ok(Decoded {
            mnemonic: Mnemonic::CAddi,
            operands: Operands::Two(
                Operand::Reg(1),
                Operand::Imm { pattern: 0xFFFA, digits: 2, value: -6 }
            ),
        })
    );
}

#[test]
fn jump_immediate_places() {
    let places = [
        (2, 5),
        (3, 1),
        (4, 2),
        (5, 3),
        (6, 7),
        (7, 6),
        (8, 10),
        (9, 8),
        (10, 9),
        (11, 4),
        (12, 11),
    ];
    for (from, to) in places {
        let word = 0xA001u16 | (1 << from);
        let value = 1u32 << to;
        assert_eq!(
            decode_u16(word).unwrap(),
            Decoded {
                mnemonic: Mnemonic::CJ,
                operands: Operands::One(Operand::Imm {
                    pattern: value,
                    digits: 3,
                    value: value as i64
                }),
            }
        );
    }
    assert_eq!(text(0xA001), "c.j #0x000 ; 0");
    assert_eq!(text(0xBFFD), "c.j #0xFFE ; 4094");
    assert_eq!(text(0x2001), "c.jal #0x000 ; 0");
    assert_eq!(text(0x2005), "c.jal #0x020 ; 32");
}

#[test]
fn c_li_c_lui_and_c_addi16sp() {
    assert_eq!(text(0x4501), "c.li x10, #0x00 ; 0");
    assert_eq!(text(0x557D), "c.li x10, #0x3F ; 63");
    // rd = 2 makes it c.addi16sp
    assert_eq!(text(0x6101), "c.addi16sp #0x000 ; 0");
    // bit 6 -> 4, bit 2 -> 5, bit 5 -> 6, bits 4:3 -> 8:7
    assert_eq!(text(0x6141), "c.addi16sp #0x010 ; 16");
    assert_eq!(text(0x6105), "c.addi16sp #0x020 ; 32");
    assert_eq!(text(0x6121), "c.addi16sp #0x040 ; 64");
    assert_eq!(text(0x6109), "c.addi16sp #0x080 ; 128");
    assert_eq!(text(0x6111), "c.addi16sp #0x100 ; 256");
    assert_eq!(text(0x7101), "c.addi16sp #0xFFFF ; -1");
    assert_eq!(text(0x717D), "c.addi16sp #0xFE0F ; -497");
    // any other rd is c.lui
    assert_eq!(text(0x6081), "c.lui x1, #0x00000 ; 0");
    assert_eq!(text(0x6085), "c.lui x1, #0x01000 ; 4096");
    assert_eq!(text(0x7FFD), "c.lui x31, #0x3F000 ; 258048");
    assert_eq!(text(0x6001), "c.lui x0, #0x00000 ; 0");
}

#[test]
fn quadrant_one_arithmetic_group() {
    // bits 11:10 = 10
    assert_eq!(text(0x8801), "c.andi x8, #0x000 ; 0");
    assert_eq!(text(0x9805), "c.andi x9, #0x021 ; 33");
    // bits 11:10 = 11, then bits 6:5
    assert_eq!(text(0x8C01), "c.sub x8, x8");
    assert_eq!(text(0x8C25), "c.xor x9, x9");
    assert_eq!(text(0x8C49), "c.or x10, x10");
    assert_eq!(text(0x8C7D), "c.and x15, x15");
    // bits 11:10 = 00 and 01 have no rule
    for word in [0x8001u16, 0x8401, 0x9001, 0x947D] {
        assert_eq!(
            decode_u16(word),
            Err(Malformed::Compressed { bits: word, quadrant: 1, selector: 4 })
        );
    }
}

#[test]
fn compressed_branches() {
    assert_eq!(text(0xC001), "c.beqz x8, #0x000 ; 0");
    assert_eq!(text(0xE381), "c.bnez x15, #0x000 ; 0");
    let places = [(2, 5), (3, 1), (4, 2), (5, 6), (6, 7), (10, 3), (11, 4), (12, 8)];
    for (from, to) in places {
        let word = 0xC001u16 | (1 << from);
        let value = 1u32 << to;
        assert_eq!(
            decode_u16(word).unwrap().operands,
            Operands::Two(
                Operand::Reg(8),
                Operand::Imm { pattern: value, digits: 3, value: value as i64 }
            )
        );
    }
    assert_eq!(text(0xDC7D), "c.beqz x8, #0x1FE ; 510");
}

#[test]
fn c_slli_and_c_slli64() {
    assert_eq!(text(0x0002), "c.slli64 x0");
    assert_eq!(text(0x0F82), "c.slli64 x31");
    assert_eq!(text(0x0086), "c.slli x1, #0x01 ; 1");
    assert_eq!(text(0x1082), "c.slli x1, #0x20 ; 32");
    assert_eq!(text(0x10FE), "c.slli x1, #0x3F ; 63");
}

#[test]
fn stack_pointer_loads_and_stores() {
    // c.fldsp: bits 6:5 -> 4:3, bit 12 -> 5, bits 4:2 -> 8:6
    assert_eq!(text(0x2082 | (1 << 5)), "c.fldsp x1, #0x08 ; 8");
    assert_eq!(text(0x2082 | (1 << 12)), "c.fldsp x1, #0x20 ; 32");
    assert_eq!(text(0x2082 | (1 << 2)), "c.fldsp x1, #0x40 ; 64");
    assert_eq!(text(0x2082 | (1 << 4)), "c.fldsp x1, #0x100 ; 256");
    // c.lwsp: bits 6:4 -> 4:2, bit 12 -> 5, bits 3:2 -> 7:6
    assert_eq!(text(0x4082 | (1 << 4)), "c.lwsp x1, #0x04 ; 4");
    assert_eq!(text(0x4082 | (1 << 2)), "c.lwsp x1, #0x40 ; 64");
    assert_eq!(text(0x4082 | (1 << 3)), "c.lwsp x1, #0x80 ; 128");
    assert_eq!(text(0x50FE), "c.lwsp x1, #0xFC ; 252");
    assert_eq!(text(0x70FE), "c.flwsp x1, #0xFC ; 252");
    // c.fsdsp and c.fswsp: bits 12:10 -> 5:3, bits 9:7 -> 8:6; the register of
    // c.fsdsp is the field in bits 11:7, that of c.fswsp the one in bits 6:2
    assert_eq!(text(0xA002 | (1 << 10) | (3 << 2)), "c.fsdsp x8, #0x008 ; 8");
    assert_eq!(text(0xA002 | (1 << 7)), "c.fsdsp x1, #0x040 ; 64");
    assert_eq!(text(0xE002 | (1 << 9) | (5 << 2)), "c.fswsp x5, #0x100 ; 256");
    // c.swsp: bits 12:9 -> 5:2, bits 8:7 -> 7:6
    assert_eq!(text(0xC002 | (1 << 9) | (5 << 2)), "c.swsp x5, #0x04 ; 4");
    assert_eq!(text(0xC002 | (1 << 8) | (5 << 2)), "c.swsp x5, #0x80 ; 128");
    assert_eq!(text(0xDFFE), "c.swsp x31, #0xFC ; 252");
}

#[test]
fn register_and_jump_group() {
    assert_eq!(text(0x8082), "c.jr x1");
    assert_eq!(text(0x8002), "c.jr x0");
    assert_eq!(text(0x808A), "c.mv x1, x2");
    assert_eq!(text(0x800A), "c.mv x0, x2");
    assert_eq!(text(0x9002), "c.ebreak");
    assert_eq!(text(0x9082), "c.jalr x1");
    assert_eq!(text(0x908A), "c.add x1, x2");
    assert_eq!(text(0x900A), "c.add x0, x2");
    assert_eq!(
        decode_u16(0x9002),
        Ok(Decoded { mnemonic: Mnemonic::CEbreak, operands: Operands::Bare })
    );
}

#[test]
fn quadrant_three_is_no_compressed_encoding() {
    for word in [0x0003u16, 0xFFFF, 0x4503, 0x8093] {
        assert_eq!(
            decode_u16(word),
            Err(Malformed::Compressed { bits: word, quadrant: 3, selector: (word >> 13) as u8 })
        );
    }
}

#[test]
fn every_compressed_encoding_resolves_or_names_its_selectors() {
    for word in 0..=u16::MAX {
        match decode_u16(word) {
            Ok(d) => {
                assert!(d.mnemonic.name().starts_with("c."));
                assert_ne!(word & 3, 3);
            }
            Err(e) => assert_eq!(e, malformed(word)),
        }
    }
}

#[test]
fn compressed_line_shows_offset_and_raw_bits() {
    assert_eq!(dump_u16(0x9002, 0xFE).unwrap(), "fe:\t9002\tc.ebreak");
    assert_eq!(dump_u16(0x0095, 2).unwrap(), "2:\t0095\tc.addi x1, #0x05 ; 5");
}
