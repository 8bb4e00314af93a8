//! Bit fields of a machine word.
//!
//! A word is modelled by its value as a natural number: bit `i` has the
//! weight `2^i`, and the field of `len` bits that starts at bit `lo` is
//! `(w / 2^lo) mod 2^len`. An immediate whose bits lie scattered over the
//! encoding is described by a layout, a list of runs, and rebuilt by one
//! routine for all of them.

use vstd::prelude::*;
use vstd::arithmetic::div_mod::{
    lemma_div_denominator, lemma_fundamental_div_mod, lemma_fundamental_div_mod_converse,
};
use vstd::arithmetic::mul::{lemma_mul_inequality, lemma_mul_is_distributive_sub_other_way};
use vstd::arithmetic::power2::{
    lemma2_to64, lemma_pow2_adds, lemma_pow2_pos, lemma_pow2_strictly_increases,
    lemma_pow2_unfold, pow2,
};
use vstd::bits::{
    lemma_u32_low_bits_mask_is_mod, lemma_u32_pow2_no_overflow, lemma_u32_shl_is_mul,
    lemma_u32_shr_is_div,
};

verus! {

/// The value of the `len` bits of `w` that start at bit `lo`.
pub open spec fn field(w: nat, lo: nat, len: nat) -> nat {
    (w / pow2(lo)) % pow2(len)
}

/// Bit `i` of `w`.
pub open spec fn bit(w: nat, i: nat) -> bool {
    field(w, i, 1) == 1
}

/// A run of bits that keep their order: the `len` bits of the source from
/// bit `from` on become the bits of the result from bit `to` on.
#[derive(Clone, Copy, Debug, PartialEq, Eq, Structural)]
pub struct Run {
    pub from: u8,
    pub to: u8,
    pub len: u8,
}

/// The first bit of the result that lies above every run of `runs`.
pub open spec fn span(runs: Seq<Run>) -> nat {
    if runs.len() == 0 {
        0
    } else {
        (runs.last().to + runs.last().len) as nat
    }
}

/// A layout is well formed when every run is non-empty and lies within 32
/// bits on both sides, and the runs come in ascending order of destination
/// without overlap.
pub open spec fn layout_wf(runs: Seq<Run>) -> bool {
    &&& forall|i: int|
        0 <= i < runs.len() ==> {
            &&& 0 < (#[trigger] runs[i]).len < 32
            &&& runs[i].from + runs[i].len <= 32
            &&& runs[i].to + runs[i].len <= 32
        }
    &&& forall|i: int, j: int|
        0 <= i < j < runs.len() ==> (#[trigger] runs[i]).to + runs[i].len <= (
        #[trigger] runs[j]).to
}

/// The value rebuilt from `w` by `runs`: the sum of the fields that the
/// runs name, each at the weight of its destination.
pub open spec fn scattered(w: nat, runs: Seq<Run>) -> nat
    decreases runs.len(),
{
    if runs.len() == 0 {
        0
    } else {
        scattered(w, runs.drop_last()) + field(
            w,
            runs.last().from as nat,
            runs.last().len as nat,
        ) * pow2(runs.last().to as nat)
    }
}

/// The signed reading of an immediate: with the sign bit set, the magnitude
/// `v` stands for `-(v + 1)`.
pub open spec fn biased(v: nat, negative: bool) -> int {
    if negative {
        -(v + 1)
    } else {
        v as int
    }
}

/// The bit pattern of `value` in two's complement of `bits` bits.
pub open spec fn twos(value: int, bits: nat) -> nat {
    (value % (pow2(bits) as int)) as nat
}

/// A field is smaller than two to the power of its length.
pub proof fn lemma_field_bound(w: nat, lo: nat, len: nat)
    ensures
        field(w, lo, len) < pow2(len),
{
    lemma_pow2_pos(lo);
    lemma_pow2_pos(len);
}

/// A field put at weight `2^to` on top of a value below `2^to` stays below
/// `2^(to + len)`.
proof fn lemma_place_bound(acc: nat, piece: nat, to: nat, len: nat)
    requires
        acc < pow2(to),
        piece < pow2(len),
    ensures
        acc + piece * pow2(to) < pow2(to + len),
{
    lemma_pow2_pos(to);
    lemma_pow2_adds(len, to);
    lemma_mul_inequality(piece as int, pow2(len) - 1, pow2(to) as int);
    lemma_mul_is_distributive_sub_other_way(pow2(to) as int, pow2(len) as int, 1);
}

/// The front of a well-formed layout is well formed, and every run of it
/// ends where the last run begins or below.
proof fn lemma_front_wf(runs: Seq<Run>)
    requires
        layout_wf(runs),
        runs.len() > 0,
    ensures
        layout_wf(runs.drop_last()),
        span(runs.drop_last()) <= runs.last().to,
        forall|k: int|
            0 <= k < runs.len() - 1 ==> (#[trigger] runs[k]).to + runs[k].len <= runs.last().to,
{
    let front = runs.drop_last();
    assert(runs[runs.len() - 1] == runs.last());
    assert forall|i: int| 0 <= i < front.len() implies {
        &&& 0 < (#[trigger] front[i]).len < 32
        &&& front[i].from + front[i].len <= 32
        &&& front[i].to + front[i].len <= 32
    } by {
        assert(front[i] == runs[i]);
    }
    assert forall|i: int, j: int| 0 <= i < j < front.len() implies (#[trigger] front[i]).to
        + front[i].len <= (#[trigger] front[j]).to by {
        assert(front[i] == runs[i]);
        assert(front[j] == runs[j]);
    }
    if front.len() > 0 {
        assert(front.last() == runs[runs.len() - 2]);
    }
}

/// What a well-formed layout rebuilds is smaller than two to the power of
/// its span.
pub proof fn lemma_scattered_bound(w: nat, runs: Seq<Run>)
    requires
        layout_wf(runs),
    ensures
        scattered(w, runs) < pow2(span(runs)),
    decreases runs.len(),
{
    if runs.len() == 0 {
        lemma_pow2_pos(0);
    } else {
        let front = runs.drop_last();
        let last = runs.last();
        lemma_front_wf(runs);
        lemma_scattered_bound(w, front);
        assert(runs[runs.len() - 1] == last);
        if span(front) < last.to {
            lemma_pow2_strictly_increases(span(front), last.to as nat);
        }
        lemma_field_bound(w, last.from as nat, last.len as nat);
        lemma_place_bound(
            scattered(w, front),
            field(w, last.from as nat, last.len as nat),
            last.to as nat,
            last.len as nat,
        );
    }
}

/// Whether `run` covers bit `d` of the result and brings a set bit of `w`
/// there.
pub open spec fn carries(run: Run, w: nat, d: nat) -> bool {
    run.to <= d < run.to + run.len && bit(w, (run.from + (d - run.to)) as nat)
}

/// The bits of a value below `2^t` with a multiple of `2^t` on top: below
/// bit `t` those of the value, from bit `t` on those of the multiplier.
proof fn lemma_bit_of_stack(a: nat, b: nat, t: nat, d: nat)
    requires
        a < pow2(t),
    ensures
        bit(a + b * pow2(t), d) == if d < t {
            bit(a, d)
        } else {
            bit(b, (d - t) as nat)
        },
{
    lemma_pow2_pos(t);
    lemma_pow2_pos(d);
    lemma2_to64();
    let x = a + b * pow2(t);
    if d < t {
        let up = (t - d) as nat;
        lemma_pow2_adds(up, d);
        lemma_pow2_unfold(up);
        let half = pow2((up - 1) as nat);
        let q = a / pow2(d);
        let r = a % pow2(d);
        lemma_fundamental_div_mod(a as int, pow2(d) as int);
        assert(b * pow2(t) == (b * pow2(up)) * pow2(d)) by (nonlinear_arith)
            requires
                pow2(t) == pow2(up) * pow2(d),
        ;
        assert(x == (q + b * pow2(up)) * pow2(d) + r) by (nonlinear_arith)
            requires
                x == a + b * pow2(t),
                b * pow2(t) == (b * pow2(up)) * pow2(d),
                a == pow2(d) * q + r,
        ;
        lemma_fundamental_div_mod_converse(
            x as int,
            pow2(d) as int,
            (q + b * pow2(up)) as int,
            r as int,
        );
        assert(b * pow2(up) == 2 * (b * half)) by (nonlinear_arith)
            requires
                pow2(up) == 2 * half,
        ;
        assert(x / pow2(d) == q + 2 * (b * half));
        assert((x / pow2(d)) % 2 == q % 2);
    } else {
        let up = (d - t) as nat;
        lemma_pow2_adds(t, up);
        lemma_pow2_pos(up);
        lemma_fundamental_div_mod_converse(x as int, pow2(t) as int, b as int, a as int);
        lemma_div_denominator(x as int, pow2(t) as int, pow2(up) as int);
        assert(d == t + up);
        assert(x / pow2(d) == b / pow2(up));
    }
}

/// The bits of a field are the bits of the word from the start of the field
/// on, as far as the field is long.
pub proof fn lemma_bit_of_field(w: nat, lo: nat, len: nat, j: nat)
    ensures
        bit(field(w, lo, len), j) == (j < len && bit(w, lo + j)),
{
    lemma_pow2_pos(lo);
    lemma_pow2_pos(len);
    lemma_pow2_pos(j);
    lemma2_to64();
    let y = w / pow2(lo);
    let f = field(w, lo, len);
    if j < len {
        let q = y / pow2(len);
        lemma_fundamental_div_mod(y as int, pow2(len) as int);
        assert(y == f + q * pow2(len)) by (nonlinear_arith)
            requires
                y == pow2(len) * q + f,
        ;
        lemma_bit_of_stack(f, q, len, j);
        assert(bit(y, j) == bit(f, j));
        lemma_pow2_adds(lo, j);
        lemma_div_denominator(w as int, pow2(lo) as int, pow2(j) as int);
        assert(y / pow2(j) == w / pow2(lo + j));
    } else {
        if len < j {
            lemma_pow2_strictly_increases(len, j);
        }
        assert(f < pow2(j));
        lemma_fundamental_div_mod_converse(f as int, pow2(j) as int, 0, f as int);
        assert(f / pow2(j) == 0);
    }
}

/// No bit of zero is set.
proof fn lemma_bit_of_zero(d: nat)
    ensures
        !bit(0, d),
{
    lemma_pow2_pos(d);
    lemma2_to64();
    lemma_fundamental_div_mod_converse(0, pow2(d) as int, 0, 0);
    assert(0nat / pow2(d) == 0);
}

/// The last run of a well-formed layout decides the bits from its
/// destination on, and leaves the bits below to the runs before it.
proof fn lemma_last_run_bit(w: nat, runs: Seq<Run>, d: nat)
    requires
        layout_wf(runs),
        runs.len() > 0,
    ensures
        bit(scattered(w, runs), d) == if d < runs.last().to {
            bit(scattered(w, runs.drop_last()), d)
        } else {
            carries(runs.last(), w, d)
        },
{
    let front = runs.drop_last();
    let last = runs.last();
    lemma_front_wf(runs);
    lemma_scattered_bound(w, front);
    if span(front) < last.to {
        lemma_pow2_strictly_increases(span(front), last.to as nat);
    }
    let piece = field(w, last.from as nat, last.len as nat);
    lemma_bit_of_stack(scattered(w, front), piece, last.to as nat, d);
    if d >= last.to {
        lemma_bit_of_field(w, last.from as nat, last.len as nat, (d - last.to) as nat);
    }
}

/// What a well-formed layout rebuilds, bit by bit: a bit of the result is
/// set exactly where one of the runs covers it and the bit of the source
/// that this run brings there is set. Every bit that no run covers is
/// clear.
pub proof fn lemma_scattered_bit(w: nat, runs: Seq<Run>, d: nat)
    requires
        layout_wf(runs),
    ensures
        bit(scattered(w, runs), d) <==> exists|k: int|
            0 <= k < runs.len() && carries(#[trigger] runs[k], w, d),
    decreases runs.len(),
{
    if runs.len() == 0 {
        lemma_bit_of_zero(d);
    } else {
        let front = runs.drop_last();
        let last = runs.last();
        let whole = bit(scattered(w, runs), d);
        let below = bit(scattered(w, front), d);
        lemma_front_wf(runs);
        lemma_scattered_bit(w, front, d);
        lemma_last_run_bit(w, runs, d);
        assert(runs[runs.len() - 1] == last);
        if whole {
            if d < last.to {
                let k = choose|k: int| 0 <= k < front.len() && carries(#[trigger] front[k], w, d);
                assert(runs[k] == front[k]);
                assert(carries(runs[k], w, d));
            } else {
                assert(carries(runs[runs.len() - 1], w, d));
            }
        }
        if exists|k: int| 0 <= k < runs.len() && carries(#[trigger] runs[k], w, d) {
            let k = choose|k: int| 0 <= k < runs.len() && carries(#[trigger] runs[k], w, d);
            if k < runs.len() - 1 {
                assert(front[k] == runs[k]);
                assert(carries(front[k], w, d));
                assert(runs[k].to + runs[k].len <= last.to);
                assert(d < last.to);
            }
        }
    }
}

/// Extracts the `len` bits of `w` that start at bit `lo`.
pub fn field32(w: u32, lo: u32, len: u32) -> (r: u32)
    requires
        lo < 32,
        len < 32,
    ensures
        r == field(w as nat, lo as nat, len as nat),
        r < pow2(len as nat),
{
    proof {
        lemma_u32_pow2_no_overflow(len as nat);
        lemma_u32_shl_is_mul(1, len);
        lemma_pow2_pos(len as nat);
        lemma_u32_shr_is_div(w, lo);
        lemma_u32_low_bits_mask_is_mod(w >> lo, len as nat);
    }
    let mask: u32 = (1u32 << len) - 1;
    (w >> lo) & mask
}

/// Rebuilds from `w` the value that `runs` describes.
pub fn gather(w: u32, runs: &[Run]) -> (r: u32)
    requires
        layout_wf(runs@),
    ensures
        r == scattered(w as nat, runs@),
        r < pow2(span(runs@)),
{
    let mut acc: u32 = 0;
    let mut i: usize = 0;
    proof {
        lemma_pow2_pos(0);
    }
    while i < runs.len()
        invariant
            i <= runs.len(),
            layout_wf(runs@),
            acc == scattered(w as nat, runs@.take(i as int)),
            acc < pow2(span(runs@.take(i as int))),
        decreases runs.len() - i,
    {
        let run = runs[i];
        let piece = field32(w, run.from as u32, run.len as u32);
        proof {
            let before = runs@.take(i as int);
            let after = runs@.take(i + 1);
            assert(after.drop_last() =~= before);
            assert(after.last() == run);
            if i > 0 {
                assert(before.last() == runs@[i - 1]);
            }
            assert(span(before) <= run.to);
            if span(before) < run.to {
                lemma_pow2_strictly_increases(span(before), run.to as nat);
            }
            lemma_place_bound(acc as nat, piece as nat, run.to as nat, run.len as nat);
            if run.to + run.len < 32 {
                lemma_pow2_strictly_increases((run.to + run.len) as nat, 32);
            }
            vstd::arithmetic::power2::lemma2_to64();
            lemma_u32_shl_is_mul(piece, run.to as u32);
        }
        acc = acc + (piece << (run.to as u32));
        i += 1;
    }
    proof {
        assert(runs@.take(runs.len() as int) =~= runs@);
    }
    acc
}

} // verus!
