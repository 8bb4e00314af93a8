//! The head of a listing line.

use vstd::prelude::*;
use vstd::string::*;
use crate::text::{hex, push_hex};

verus! {

/// How a line starts: the byte offset in hexadecimal, a colon and a tab, the
/// raw bits in hexadecimal of at least `width` digits, and a tab.
pub open spec fn line_head(offset: nat, bits: nat, width: nat) -> Seq<char> {
    hex(offset, 1, false) + ":\t"@ + hex(bits, width, false) + "\t"@
}

/// Starts a line for the instruction `bits` at `offset`.
pub fn start_line(offset: usize, bits: u64, width: u32) -> (s: String)
    ensures
        s@ == line_head(offset as nat, bits as nat, width as nat),
{
    let mut s = String::new();
    push_hex(&mut s, offset as u64, 1, false);
    s.append(":\t");
    push_hex(&mut s, bits, width, false);
    s.append("\t");
    assert(s@ =~= line_head(offset as nat, bits as nat, width as nat));
    s
}

} // verus!
