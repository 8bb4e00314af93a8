//! What a resolver returns: a mnemonic with its operands, and how the two
//! are written.

use vstd::prelude::*;
use vstd::string::*;
use crate::bits::{bit, field32};
use crate::mnemonic::Mnemonic;
use crate::text::{decimal, digits, hex, push_decimal, push_digits, push_hex};

verus! {

/// One operand of an instruction, in the form in which it is written.
#[derive(Clone, Copy, Debug, PartialEq, Eq, Structural)]
pub enum Operand {
    /// An integer register, written `x` and its number.
    Reg(u8),
    /// An immediate that is shown twice: as `#0x` and the bit pattern in
    /// upper-case hexadecimal of at least `digits` digits where the operand
    /// stands, and as the decimal `value` after ` ; ` at the end of the
    /// line.
    Imm { pattern: u32, digits: u8, value: i64 },
    /// A displacement, written `#` and its decimal value.
    Offset(i32),
    /// A plain number (a shift amount, the number of a control register),
    /// written in decimal.
    Number(u32),
    /// The predecessor and successor sets of a fence, one bit for each of
    /// `sw`, `sr`, `so`, `si`, `pw`, `pr`, `po`, `pi`, from bit 0 up.
    Flags(u8),
}

/// The operands of an instruction, in the order in which they are written.
#[derive(Clone, Copy, Debug, PartialEq, Eq, Structural)]
pub enum Operands {
    Bare,
    One(Operand),
    Two(Operand, Operand),
    Three(Operand, Operand, Operand),
}

/// A resolved instruction.
#[derive(Clone, Copy, Debug, PartialEq, Eq, Structural)]
pub struct Decoded {
    pub mnemonic: Mnemonic,
    pub operands: Operands,
}

/// The letters of fence flag `i`.
pub open spec fn flag_name(i: nat) -> Seq<char> {
    if i == 0 {
        "sw"@
    } else if i == 1 {
        "sr"@
    } else if i == 2 {
        "so"@
    } else if i == 3 {
        "si"@
    } else if i == 4 {
        "pw"@
    } else if i == 5 {
        "pr"@
    } else if i == 6 {
        "po"@
    } else {
        "pi"@
    }
}

/// Whether one of the flags below bit `upto` is set in `f`.
pub open spec fn any_flag(f: nat, upto: nat) -> bool
    decreases upto,
{
    upto > 0 && (bit(f, (upto - 1) as nat) || any_flag(f, (upto - 1) as nat))
}

/// The names of the flags below bit `upto` that are set in `f`, in
/// ascending order of their bits, with `, ` between two of them.
pub open spec fn flags_text(f: nat, upto: nat) -> Seq<char>
    decreases upto,
{
    if upto == 0 {
        Seq::empty()
    } else {
        let below = flags_text(f, (upto - 1) as nat);
        if !bit(f, (upto - 1) as nat) {
            below
        } else if any_flag(f, (upto - 1) as nat) {
            below + ", "@ + flag_name((upto - 1) as nat)
        } else {
            below + flag_name((upto - 1) as nat)
        }
    }
}

impl Operand {
    /// The operand as it is written among the operands.
    pub open spec fn text(self) -> Seq<char> {
        match self {
            Operand::Reg(n) => "x"@ + digits(n as nat),
            Operand::Imm { pattern, digits, value } => "#0x"@ + hex(
                pattern as nat,
                digits as nat,
                true,
            ),
            Operand::Offset(v) => "#"@ + decimal(v as int),
            Operand::Number(n) => digits(n as nat),
            Operand::Flags(f) => flags_text(f as nat, 8),
        }
    }

    /// What the operand adds at the end of the line: for an immediate its
    /// decimal value, for the others nothing.
    pub open spec fn note(self) -> Seq<char> {
        match self {
            Operand::Imm { pattern, digits, value } => " ; "@ + decimal(value as int),
            _ => Seq::empty(),
        }
    }

    /// Appends the operand to `out`.
    pub fn push(self, out: &mut String)
        ensures
            final(out)@ == old(out)@ + self.text(),
    {
        match self {
            Operand::Reg(n) => {
                out.append("x");
                push_digits(out, n as u64);
            },
            Operand::Imm { pattern, digits, value } => {
                out.append("#0x");
                push_hex(out, pattern as u64, digits as u32, true);
            },
            Operand::Offset(v) => {
                out.append("#");
                push_decimal(out, v as i64);
            },
            Operand::Number(n) => {
                push_digits(out, n as u64);
            },
            Operand::Flags(f) => {
                push_flags(out, f);
            },
        }
        assert(final(out)@ =~= old(out)@ + self.text());
    }

    /// Appends to `out` what the operand adds at the end of the line.
    pub fn push_note(self, out: &mut String)
        ensures
            final(out)@ == old(out)@ + self.note(),
    {
        match self {
            Operand::Imm { pattern, digits, value } => {
                out.append(" ; ");
                push_decimal(out, value);
            },
            _ => {},
        }
        assert(final(out)@ =~= old(out)@ + self.note());
    }
}

/// The letters of fence flag `i`.
fn flag_str(i: u32) -> (s: &'static str)
    requires
        i < 8,
    ensures
        s@ == flag_name(i as nat),
{
    match i {
        0 => "sw",
        1 => "sr",
        2 => "so",
        3 => "si",
        4 => "pw",
        5 => "pr",
        6 => "po",
        _ => "pi",
    }
}

/// Appends to `out` the names of the flags that are set in `f`.
fn push_flags(out: &mut String, f: u8)
    ensures
        final(out)@ == old(out)@ + flags_text(f as nat, 8),
{
    let mut i: u32 = 0;
    let mut any = false;
    assert(out@ =~= old(out)@ + flags_text(f as nat, 0));
    while i < 8
        invariant
            i <= 8,
            any == any_flag(f as nat, i as nat),
            out@ == old(out)@ + flags_text(f as nat, i as nat),
        decreases 8 - i,
    {
        let ghost before = out@;
        let set = field32(f as u32, i, 1) == 1;
        assert(set == bit(f as nat, i as nat));
        if set {
            if any {
                out.append(", ");
            }
            out.append(flag_str(i));
            any = true;
        }
        i += 1;
        proof {
            let below = flags_text(f as nat, (i - 1) as nat);
            assert(before == old(out)@ + below);
            if set {
                if any_flag(f as nat, (i - 1) as nat) {
                    assert(out@ == before + ", "@ + flag_name((i - 1) as nat));
                    assert(flags_text(f as nat, i as nat) == below + ", "@ + flag_name((i - 1) as nat));
                } else {
                    assert(out@ == before + flag_name((i - 1) as nat));
                    assert(flags_text(f as nat, i as nat) == below + flag_name((i - 1) as nat));
                }
            }
            assert(out@ =~= old(out)@ + flags_text(f as nat, i as nat));
        }
    }
}

impl Decoded {
    /// The instruction as it is written in a listing: the mnemonic, after a
    /// space the operands with `, ` between them, and at the end what the
    /// last operand adds.
    pub open spec fn text(self) -> Seq<char> {
        match self.operands {
            Operands::Bare => self.mnemonic.text(),
            Operands::One(a) => self.mnemonic.text() + " "@ + a.text() + a.note(),
            Operands::Two(a, b) => self.mnemonic.text() + " "@ + a.text() + ", "@ + b.text()
                + b.note(),
            Operands::Three(a, b, c) => self.mnemonic.text() + " "@ + a.text() + ", "@ + b.text()
                + ", "@ + c.text() + c.note(),
        }
    }

    /// Appends the instruction to `out`.
    pub fn push(&self, out: &mut String)
        ensures
            final(out)@ == old(out)@ + self.text(),
    {
        out.append(self.mnemonic.name());
        match self.operands {
            Operands::Bare => {},
            Operands::One(a) => {
                out.append(" ");
                a.push(out);
                a.push_note(out);
            },
            Operands::Two(a, b) => {
                out.append(" ");
                a.push(out);
                out.append(", ");
                b.push(out);
                b.push_note(out);
            },
            Operands::Three(a, b, c) => {
                out.append(" ");
                a.push(out);
                out.append(", ");
                b.push(out);
                out.append(", ");
                c.push(out);
                c.push_note(out);
            },
        }
        assert(final(out)@ =~= old(out)@ + self.text());
    }

    /// The instruction as it is written in a listing.
    pub fn render(&self) -> (s: String)
        ensures
            s@ == self.text(),
    {
        let mut s = String::new();
        self.push(&mut s);
        assert(s@ =~= self.text());
        s
    }
}

} // verus!
