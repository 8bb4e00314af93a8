use rvda::bits::{field32, gather, Run};
use rvda::layout::Immediate;
use rvda::text::{push_decimal, push_digits, push_hex};
use rvda::{
    classify, dump_u192_reserved, dump_u48, dump_u64, dump_u80_u176, Category, Frame,
    Instruction, Operand,
};

#[test]
fn low_bits_other_than_11_are_compressed() {
    for first in [0x0000u16, 0x0001, 0x0002, 0x4501, 0xFFFC, 0xFFFD, 0xFFFE] {
        assert_eq!(
            classify(first),
            Frame { category: Category::Compressed16, length: 2, halfwords: 0, words: 0 }
        );
    }
}

#[test]
fn bits_4_to_2_other_than_111_are_words() {
    for first in [0x0003u16, 0x0093, 0x0013, 0xFFE3, 0x001B, 0x000F] {
        assert_eq!(
            classify(first),
            Frame { category: Category::Word32, length: 4, halfwords: 1, words: 0 }
        );
    }
}

#[test]
fn longer_classes_by_the_run_of_ones() {
    assert_eq!(
        classify(0x001F),
        Frame { category: Category::DoubleWord48, length: 6, halfwords: 2, words: 0 }
    );
    assert_eq!(
        classify(0xFFDF),
        Frame { category: Category::DoubleWord48, length: 6, halfwords: 2, words: 0 }
    );
    assert_eq!(
        classify(0x003F),
        Frame { category: Category::QuadWord64, length: 8, halfwords: 1, words: 1 }
    );
    assert_eq!(
        classify(0xFFBF),
        Frame { category: Category::QuadWord64, length: 8, halfwords: 1, words: 1 }
    );
}

#[test]
fn extended_length_by_its_field() {
    for n in 0..7usize {
        let first = 0x007F | ((n as u16) << 12);
        assert_eq!(
            classify(first),
            Frame {
                category: Category::Extended,
                length: 2 * (4 + 2 * n + 1),
                halfwords: 4 + 2 * n,
                words: 0
            }
        );
    }
    assert_eq!(classify(0x007F).length, 10);
    assert_eq!(classify(0x607F).length, 34);
    // bit 15 and the bits between do not count
    assert_eq!(classify(0x8FFF), classify(0x007F));
}

#[test]
fn all_ones_length_field_is_reserved() {
    for first in [0x707Fu16, 0xFFFF, 0x7FFF, 0xF07F] {
        assert_eq!(
            classify(first),
            Frame { category: Category::Reserved192, length: 24, halfwords: 11, words: 0 }
        );
    }
}

#[test]
fn every_first_word_has_a_consistent_frame() {
    for first in 0..=u16::MAX {
        let f = classify(first);
        assert_eq!(f.length, 2 + 2 * f.halfwords + 4 * f.words);
        assert!(2 <= f.length && f.length <= 34);
        assert_eq!(f.category == Category::Compressed16, first & 3 != 3);
    }
}

#[test]
fn framed_only_lines() {
    assert_eq!(dump_u48(0x1234_5678_9ABC, 0), "0:\t0000123456789abc\t");
    assert_eq!(dump_u48(0x1F, 0x20), "20:\t000000000000001f\t");
    assert_eq!(dump_u64(0x3F, 6), "6:\t0000000000000000000000000000003f\t");
    assert_eq!(dump_u64(u64::MAX, 8), "8:\t0000000000000000ffffffffffffffff\t");
    assert_eq!(dump_u192_reserved(), "Reserved!");
}

#[test]
fn extended_line_is_each_word_in_two_digits_at_least() {
    assert_eq!(dump_u80_u176(&[0x007F, 0x0001, 0x00AB, 0x0ABC, 0xABCD], 10), "a:\t0x7f01ababcabcd");
    assert_eq!(dump_u80_u176(&[], 0), "0:\t0x");
    assert_eq!(dump_u80_u176(&[0], 0xFF), "ff:\t0x00");
}

#[test]
fn instruction_lines_and_lengths() {
    let cases = [
        (Instruction::Compressed16 { bits: 0x4501 }, 2, "4:\t4501\tc.li x10, #0x00 ; 0"),
        (Instruction::Word32 { bits: 0x13 }, 4, "4:\t00000013\taddi x0, x0, #0x000 ; 0"),
        (Instruction::DoubleWord48 { bits: 0x1F }, 6, "4:\t000000000000001f\t"),
        (Instruction::QuadWord64 { bits: 0x3F }, 8, "4:\t0000000000000000000000000000003f\t"),
        (Instruction::Extended { words: vec![0x7F, 1, 2, 3, 4] }, 10, "4:\t0x7f01020304"),
        (Instruction::Reserved192, 24, "Reserved!"),
    ];
    for (instruction, length, line) in cases {
        assert_eq!(instruction.byte_len(), length);
        assert_eq!(instruction.line(4).unwrap(), line);
    }
    assert!(Instruction::Word32 { bits: 0 }.line(0).is_err());
    assert!(Instruction::Compressed16 { bits: 0 }.line(0).is_err());
}

#[test]
fn fields_of_a_word() {
    assert_eq!(field32(0x0050_0093, 0, 7), 0x13);
    assert_eq!(field32(0x0050_0093, 7, 5), 1);
    assert_eq!(field32(0x0050_0093, 20, 12), 5);
    assert_eq!(field32(0xFFFF_FFFF, 31, 1), 1);
    assert_eq!(field32(0xFFFF_FFFF, 1, 31), 0x7FFF_FFFF);
    assert_eq!(field32(0xFFFF_FFFF, 0, 0), 0);
    assert_eq!(field32(0x8000_0000, 30, 1), 0);
}

#[test]
fn gather_moves_each_run_to_its_place() {
    let runs = [Run { from: 4, to: 0, len: 4 }, Run { from: 0, to: 4, len: 4 }];
    assert_eq!(gather(0xAB, &runs), 0xBA);
    assert_eq!(gather(0xFFFF_FFFF, &[]), 0);
    assert_eq!(gather(0xFFFF_FFFF, &[Run { from: 31, to: 31, len: 1 }]), 0x8000_0000);
    assert_eq!(gather(0x1234_5678, &[Run { from: 12, to: 12, len: 20 }]), 0x1234_5000);
}

#[test]
fn immediates_of_all_ones() {
    let cases = [
        (Immediate::Upper, 0xFFFF_F000u32),
        (Immediate::Store, 0xFFF),
        (Immediate::Branch, 0x7FF),
        (Immediate::Jump, 0x7_FFFF),
        (Immediate::CAddi4spn, 0x3FC),
        (Immediate::CDouble, 0xF8),
        (Immediate::CWord, 0x7C),
        (Immediate::CImm, 0x3F),
        (Immediate::CAddi16sp, 0x1F0),
        (Immediate::CLui, 0x3_F000),
        (Immediate::CJump, 0xFFE),
        (Immediate::CBranch, 0x1FE),
        (Immediate::CSwsp, 0xFC),
        (Immediate::CLdsp, 0x1F8),
        (Immediate::CLwsp, 0xFC),
        (Immediate::CSdsp, 0x1F8),
    ];
    for (which, value) in cases {
        assert_eq!(which.extract(0xFFFF_FFFF), value);
        assert_eq!(which.extract(0), 0);
    }
}

#[test]
fn numerals() {
    let mut s = String::from(">");
    push_hex(&mut s, 0, 1, false);
    push_hex(&mut s, 0xABC, 0, false);
    push_hex(&mut s, 0xABC, 8, true);
    push_hex(&mut s, u64::MAX, 2, true);
    assert_eq!(s, ">0abc00000ABCFFFFFFFFFFFFFFFF");
    let mut d = String::new();
    push_digits(&mut d, 0);
    push_digits(&mut d, 1234567890);
    push_digits(&mut d, u64::MAX);
    assert_eq!(d, "0123456789018446744073709551615");
    let mut v = String::new();
    push_decimal(&mut v, -1);
    push_decimal(&mut v, 0);
    push_decimal(&mut v, i64::MIN);
    push_decimal(&mut v, i64::MAX);
    assert_eq!(v, "-10-92233720368547758089223372036854775807");
}

#[test]
fn operands_as_text() {
    let cases = [
        (Operand::Reg(0), "x0", ""),
        (Operand::Reg(31), "x31", ""),
        (Operand::Imm { pattern: 0xFFFA, digits: 2, value: -6 }, "#0xFFFA", " ; -6"),
        (Operand::Imm { pattern: 5, digits: 8, value: 5 }, "#0x00000005", " ; 5"),
        (Operand::Offset(-4096), "#-4096", ""),
        (Operand::Number(773), "773", ""),
        (Operand::Flags(0), "", ""),
        (Operand::Flags(0x81), "sw, pi", ""),
    ];
    for (operand, text, note) in cases {
        let mut s = String::new();
        operand.push(&mut s);
        assert_eq!(s, text);
        let mut n = String::new();
        operand.push_note(&mut n);
        assert_eq!(n, note);
    }
}
