//! Numbers as text.
//!
//! Offsets and raw encodings are written in lower-case hexadecimal,
//! immediates in upper-case hexadecimal and in decimal. A numeral is the
//! sequence of its digits, most significant first.

use vstd::prelude::*;
use vstd::string::*;

verus! {

/// The sixteen digits, with lower-case or upper-case letters.
pub open spec fn glyphs(upper: bool) -> Seq<char> {
    if upper {
        seq!['0', '1', '2', '3', '4', '5', '6', '7', '8', '9', 'A', 'B', 'C', 'D', 'E', 'F']
    } else {
        seq!['0', '1', '2', '3', '4', '5', '6', '7', '8', '9', 'a', 'b', 'c', 'd', 'e', 'f']
    }
}

/// The hexadecimal numeral of `n`, padded with zeros on the left to at
/// least `width` digits.
pub open spec fn hex(n: nat, width: nat, upper: bool) -> Seq<char>
    decreases n + width,
{
    if n < 16 && width <= 1 {
        seq![glyphs(upper)[n as int]]
    } else {
        hex(n / 16, if width == 0 { 0 } else { (width - 1) as nat }, upper).push(
            glyphs(upper)[(n % 16) as int],
        )
    }
}

/// The decimal numeral of a natural number.
pub open spec fn digits(n: nat) -> Seq<char>
    decreases n,
{
    if n < 10 {
        seq![glyphs(false)[n as int]]
    } else {
        digits(n / 10).push(glyphs(false)[(n % 10) as int])
    }
}

/// The decimal numeral of an integer, with a minus sign where it is
/// negative.
pub open spec fn decimal(i: int) -> Seq<char> {
    if i < 0 {
        seq!['-'] + digits((-i) as nat)
    } else {
        digits(i as nat)
    }
}

/// A numeral of at least `width` digits is at least `width` characters
/// long, and never empty.
pub proof fn lemma_hex_len(n: nat, width: nat, upper: bool)
    ensures
        hex(n, width, upper).len() >= width,
        hex(n, width, upper).len() >= 1,
    decreases n + width,
{
    if n < 16 && width <= 1 {
    } else {
        lemma_hex_len(n / 16, if width == 0 { 0 } else { (width - 1) as nat }, upper);
    }
}

/// The digit `d` as a string of one character.
fn glyph(d: u64, upper: bool) -> (s: &'static str)
    requires
        d < 16,
    ensures
        s@ == seq![glyphs(upper)[d as int]],
{
    proof {
        reveal_strlit("0");
        reveal_strlit("1");
        reveal_strlit("2");
        reveal_strlit("3");
        reveal_strlit("4");
        reveal_strlit("5");
        reveal_strlit("6");
        reveal_strlit("7");
        reveal_strlit("8");
        reveal_strlit("9");
        reveal_strlit("a");
        reveal_strlit("b");
        reveal_strlit("c");
        reveal_strlit("d");
        reveal_strlit("e");
        reveal_strlit("f");
        reveal_strlit("A");
        reveal_strlit("B");
        reveal_strlit("C");
        reveal_strlit("D");
        reveal_strlit("E");
        reveal_strlit("F");
    }
    let s = match d {
        0 => "0",
        1 => "1",
        2 => "2",
        3 => "3",
        4 => "4",
        5 => "5",
        6 => "6",
        7 => "7",
        8 => "8",
        9 => "9",
        10 => if upper { "A" } else { "a" },
        11 => if upper { "B" } else { "b" },
        12 => if upper { "C" } else { "c" },
        13 => if upper { "D" } else { "d" },
        14 => if upper { "E" } else { "e" },
        _ => if upper { "F" } else { "f" },
    };
    assert(s@ =~= seq![glyphs(upper)[d as int]]);
    s
}

/// Appends to `out` the hexadecimal numeral of `n`, at least `width`
/// digits long.
pub fn push_hex(out: &mut String, n: u64, width: u32, upper: bool)
    ensures
        final(out)@ == old(out)@ + hex(n as nat, width as nat, upper),
    decreases n + width,
{
    if n >= 16 || width > 1 {
        push_hex(out, n / 16, if width == 0 { 0 } else { width - 1 }, upper);
    }
    out.append(glyph(n % 16, upper));
    assert(final(out)@ =~= old(out)@ + hex(n as nat, width as nat, upper));
}

/// Appends to `out` the decimal numeral of `n`.
pub fn push_digits(out: &mut String, n: u64)
    ensures
        final(out)@ == old(out)@ + digits(n as nat),
    decreases n,
{
    if n >= 10 {
        push_digits(out, n / 10);
    }
    out.append(glyph(n % 10, false));
    assert(final(out)@ =~= old(out)@ + digits(n as nat));
}

/// Appends to `out` the decimal numeral of `v`.
pub fn push_decimal(out: &mut String, v: i64)
    ensures
        final(out)@ == old(out)@ + decimal(v as int),
{
    if v < 0 {
        proof {
            reveal_strlit("-");
        }
        out.append("-");
        let magnitude: u64 = (-(v + 1)) as u64 + 1;
        push_digits(out, magnitude);
        assert(final(out)@ =~= old(out)@ + decimal(v as int));
    } else {
        push_digits(out, v as u64);
    }
}

} // verus!
