use rvda::loader::digit;
use rvda::{dump, hex_bytes, ByteCursor, ByteOrder};

#[test]
fn digits_in_both_cases() {
    assert_eq!(digit(b'0'), Some(0));
    assert_eq!(digit(b'9'), Some(9));
    assert_eq!(digit(b'a'), Some(10));
    assert_eq!(digit(b'f'), Some(15));
    assert_eq!(digit(b'A'), Some(10));
    assert_eq!(digit(b'F'), Some(15));
    for c in [b'/', b':', b'`', b'g', b'@', b'G', b' ', b'\n', 0, 0xFF] {
        assert_eq!(digit(c), None);
    }
}

#[test]
fn pairs_of_digits_make_bytes() {
    assert_eq!(hex_bytes(b""), Vec::<u8>::new());
    assert_eq!(hex_bytes(b"00"), vec![0]);
    assert_eq!(hex_bytes(b"0145 9300\n5000"), vec![0x01, 0x45, 0x93, 0x00, 0x50, 0x00]);
    assert_eq!(hex_bytes(b"aBcDeF"), vec![0xAB, 0xCD, 0xEF]);
    assert_eq!(hex_bytes(b"1, 2; 3 -> 4"), vec![0x12, 0x34]);
}

#[test]
fn a_last_digit_alone_is_left_out() {
    assert_eq!(hex_bytes(b"1"), Vec::<u8>::new());
    assert_eq!(hex_bytes(b"123"), vec![0x12]);
    assert_eq!(hex_bytes("12 \u{e9} 3".as_bytes()), vec![0x12]);
}

#[test]
fn listing_from_text() {
    let bytes = hex_bytes(b"0145 93005000");
    let mut input = ByteCursor::new(bytes, ByteOrder::Little);
    let mut out = Vec::new();
    assert_eq!(dump(&mut input, &mut out), Ok(()));
    assert_eq!(
        out,
        vec!["0:\t4501\tc.li x10, #0x00 ; 0", "2:\t00500093\taddi x1, x0, #0x005 ; 5"]
    );
}
