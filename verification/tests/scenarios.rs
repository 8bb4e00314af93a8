use rvda::{
    decode_u16, decode_u32, dump, dump_u16, dump_u32, ByteCursor, ByteOrder, Decoded, DumpError,
    Mnemonic, Operand, Operands,
};

fn listing(bytes: Vec<u8>) -> (Vec<String>, Result<(), DumpError>) {
    let mut input = ByteCursor::new(bytes, ByteOrder::Little);
    let mut out = Vec::new();
    let end = dump(&mut input, &mut out);
    (out, end)
}

#[test]
fn addi_x1_x0_5_resolves() {
    let d = decode_u32(0x0050_0093).unwrap();
    assert_eq!(
        d,
        Decoded {
            mnemonic: Mnemonic::Addi,
            operands: Operands::Three(
                Operand::Reg(1),
                Operand::Reg(0),
                Operand::Imm { pattern: 5, digits: 3, value: 5 },
            ),
        }
    );
    assert_eq!(d.render(), "addi x1, x0, #0x005 ; 5");
}

#[test]
fn canonical_nop_text() {
    assert_eq!(decode_u32(0x0000_0013).unwrap().render(), "addi x0, x0, #0x000 ; 0");
    assert_eq!(dump_u32(0x0000_0013, 0).unwrap(), "0:\t00000013\taddi x0, x0, #0x000 ; 0");
}

#[test]
fn c_li_is_not_c_addi() {
    let d = decode_u16(0x4501).unwrap();
    assert_eq!(d.mnemonic, Mnemonic::CLi);
    assert_eq!(
        d.operands,
        Operands::Two(Operand::Reg(10), Operand::Imm { pattern: 0, digits: 2, value: 0 })
    );
    assert_eq!(dump_u16(0x4501, 0).unwrap(), "0:\t4501\tc.li x10, #0x00 ; 0");
}

#[test]
fn lone_first_half_of_a_word_is_truncated() {
    let (lines, end) = listing(vec![0x03, 0x00]);
    assert!(lines.is_empty());
    assert_eq!(end, Err(DumpError::TruncatedInstruction { offset: 0, first: 0x0003 }));
}

#[test]
fn second_line_is_at_offset_two() {
    let (lines, end) = listing(vec![0x01, 0x45, 0x93, 0x00, 0x50, 0x00]);
    assert_eq!(end, Ok(()));
    assert_eq!(lines.len(), 2);
    assert_eq!(lines[0], "0:\t4501\tc.li x10, #0x00 ; 0");
    assert_eq!(lines[1], "2:\t00500093\taddi x1, x0, #0x005 ; 5");
}
