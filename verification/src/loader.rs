//! Bytes from a text of hexadecimal digits.
//!
//! The text may hold anything between its digits: only the digits count.
//! Two digits make one byte, the first the high half.

use vstd::prelude::*;

verus! {

/// The value of the character `c` as a hexadecimal digit, in either case,
/// or `None` where it is no digit.
pub open spec fn digit_value(c: u8) -> Option<u8> {
    if 0x30 <= c <= 0x39 {
        Some((c - 0x30) as u8)
    } else if 0x61 <= c <= 0x66 {
        Some((c - 0x61 + 10) as u8)
    } else if 0x41 <= c <= 0x46 {
        Some((c - 0x41 + 10) as u8)
    } else {
        None
    }
}

/// The values of the digits of `text`, in their order.
pub open spec fn digits_of(text: Seq<u8>) -> Seq<u8>
    decreases text.len(),
{
    if text.len() == 0 {
        Seq::empty()
    } else {
        match digit_value(text.last()) {
            Some(d) => digits_of(text.drop_last()).push(d),
            None => digits_of(text.drop_last()),
        }
    }
}

/// The bytes that `digits` make two by two. A last digit without a partner
/// is left out.
pub open spec fn paired(digits: Seq<u8>) -> Seq<u8> {
    Seq::new(digits.len() / 2, |i: int| (16 * digits[2 * i] + digits[2 * i + 1]) as u8)
}

/// The value of `c` as a hexadecimal digit.
pub fn digit(c: u8) -> (r: Option<u8>)
    ensures
        r == digit_value(c),
{
    if 0x30 <= c && c <= 0x39 {
        Some(c - 0x30)
    } else if 0x61 <= c && c <= 0x66 {
        Some(c - 0x61 + 10)
    } else if 0x41 <= c && c <= 0x46 {
        Some(c - 0x41 + 10)
    } else {
        None
    }
}

/// Reads the bytes that the hexadecimal digits of `text` spell.
pub fn hex_bytes(text: &[u8]) -> (bytes: Vec<u8>)
    ensures
        bytes@ == paired(digits_of(text@)),
{
    let mut bytes: Vec<u8> = Vec::new();
    let mut high: Option<u8> = None;
    let mut i: usize = 0;
    assert(bytes@ =~= paired(digits_of(text@.take(0))));
    while i < text.len()
        invariant
            i <= text.len(),
            bytes@ == paired(digits_of(text@.take(i as int))),
            match high {
                Some(h) => digits_of(text@.take(i as int)).len() % 2 == 1 && h == digits_of(
                    text@.take(i as int),
                ).last() && h < 16,
                None => digits_of(text@.take(i as int)).len() % 2 == 0,
            },
        decreases text.len() - i,
    {
        let ghost before = digits_of(text@.take(i as int));
        proof {
            assert(text@.take(i + 1).drop_last() =~= text@.take(i as int));
        }
        match digit(text[i]) {
            Some(low) => {
                match high {
                    Some(h) => {
                        bytes.push(16 * h + low);
                        high = None;
                        assert(bytes@ =~= paired(before.push(low)));
                    },
                    None => {
                        high = Some(low);
                        assert(bytes@ =~= paired(before.push(low)));
                    },
                }
            },
            None => {},
        }
        i += 1;
    }
    assert(text@.take(text.len() as int) =~= text@);
    bytes
}

} // verus!
