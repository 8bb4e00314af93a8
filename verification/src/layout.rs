//! The immediates whose bits lie scattered over an encoding.
//!
//! Each is a layout: a list of runs in ascending order of destination. One
//! routine rebuilds all of them.

use vstd::prelude::*;
use vstd::arithmetic::power2::pow2;
use crate::bits::{bit, carries, gather, layout_wf, lemma_scattered_bit, scattered, span, Run};

verus! {

/// An immediate of the base or of the compressed encodings.
#[derive(Clone, Copy, Debug, PartialEq, Eq, Structural)]
pub enum Immediate {
    /// `imm[31:12]` of `lui` and `auipc`, at its place: bits 31 to 12.
    Upper,
    /// The offset of a store: `imm[4:0]` from bits 11 to 7, `imm[11:5]` from
    /// bits 31 to 25.
    Store,
    /// The magnitude of a branch displacement in units of two bytes:
    /// `imm[4:1]` from bits 11 to 8, `imm[10:5]` from bits 30 to 25,
    /// `imm[11]` from bit 7.
    Branch,
    /// The magnitude of a jump displacement in units of two bytes:
    /// `imm[10:1]` from bits 30 to 21, `imm[11]` from bit 20, `imm[19:12]`
    /// from bits 19 to 12.
    Jump,
    /// `nzuimm[5:4|9:6|2|3]` of `c.addi4spn`, from bits 12 to 5.
    CAddi4spn,
    /// `uimm[5:3]` from bits 12 to 10 and `uimm[7:6]` from bits 6 to 5: the
    /// offset of `c.fld` and `c.fsd`.
    CDouble,
    /// `uimm[5:3]` from bits 12 to 10, `uimm[2]` from bit 6 and `uimm[6]`
    /// from bit 5: the offset of `c.lw`, `c.flw`, `c.sw` and `c.fsw`.
    CWord,
    /// `imm[4:0]` from bits 6 to 2 and `imm[5]` from bit 12.
    CImm,
    /// The magnitude `nzimm[4|6|8:7|5]` of `c.addi16sp`, from bits 6 to 2.
    CAddi16sp,
    /// `nzuimm[16:12]` from bits 6 to 2 and `nzuimm[17]` from bit 12.
    CLui,
    /// `imm[11|4|9:8|10|6|7|3:1|5]` of `c.j` and `c.jal`, from bits 12 to 2.
    CJump,
    /// `imm[8|4:3]` from bits 12 to 10 and `imm[7:6|2:1|5]` from bits 6 to 2:
    /// the displacement of `c.beqz` and `c.bnez`.
    CBranch,
    /// `uimm[5:2|7:6]` from bits 12 to 7: the offset of `c.swsp`.
    CSwsp,
    /// `uimm[5]` from bit 12 and `uimm[4:3|8:6]` from bits 6 to 2: the offset
    /// of `c.fldsp`.
    CLdsp,
    /// `uimm[5]` from bit 12 and `uimm[4:2|7:6]` from bits 6 to 2: the offset
    /// of `c.lwsp` and `c.flwsp`.
    CLwsp,
    /// `uimm[5:3|8:6]` from bits 12 to 7: the offset of `c.fsdsp` and
    /// `c.fswsp`.
    CSdsp,
}

impl Immediate {
    /// The runs that make up the immediate.
    pub open spec fn layout(self) -> Seq<Run> {
        match self {
            Immediate::Upper => seq![Run { from: 12, to: 12, len: 20 }],
            Immediate::Store => seq![
                Run { from: 7, to: 0, len: 5 },
                Run { from: 25, to: 5, len: 7 },
            ],
            Immediate::Branch => seq![
                Run { from: 8, to: 0, len: 4 },
                Run { from: 25, to: 4, len: 6 },
                Run { from: 7, to: 10, len: 1 },
            ],
            Immediate::Jump => seq![
                Run { from: 21, to: 0, len: 10 },
                Run { from: 20, to: 10, len: 1 },
                Run { from: 12, to: 11, len: 8 },
            ],
            Immediate::CAddi4spn => seq![
                Run { from: 6, to: 2, len: 1 },
                Run { from: 5, to: 3, len: 1 },
                Run { from: 11, to: 4, len: 2 },
                Run { from: 7, to: 6, len: 4 },
            ],
            Immediate::CDouble => seq![
                Run { from: 10, to: 3, len: 3 },
                Run { from: 5, to: 6, len: 2 },
            ],
            Immediate::CWord => seq![
                Run { from: 6, to: 2, len: 1 },
                Run { from: 10, to: 3, len: 3 },
                Run { from: 5, to: 6, len: 1 },
            ],
            Immediate::CImm => seq![
                Run { from: 2, to: 0, len: 5 },
                Run { from: 12, to: 5, len: 1 },
            ],
            Immediate::CAddi16sp => seq![
                Run { from: 6, to: 4, len: 1 },
                Run { from: 2, to: 5, len: 1 },
                Run { from: 5, to: 6, len: 1 },
                Run { from: 3, to: 7, len: 2 },
            ],
            Immediate::CLui => seq![
                Run { from: 2, to: 12, len: 5 },
                Run { from: 12, to: 17, len: 1 },
            ],
            Immediate::CJump => seq![
                Run { from: 3, to: 1, len: 3 },
                Run { from: 11, to: 4, len: 1 },
                Run { from: 2, to: 5, len: 1 },
                Run { from: 7, to: 6, len: 1 },
                Run { from: 6, to: 7, len: 1 },
                Run { from: 9, to: 8, len: 2 },
                Run { from: 8, to: 10, len: 1 },
                Run { from: 12, to: 11, len: 1 },
            ],
            Immediate::CBranch => seq![
                Run { from: 3, to: 1, len: 2 },
                Run { from: 10, to: 3, len: 2 },
                Run { from: 2, to: 5, len: 1 },
                Run { from: 5, to: 6, len: 2 },
                Run { from: 12, to: 8, len: 1 },
            ],
            Immediate::CSwsp => seq![
                Run { from: 9, to: 2, len: 4 },
                Run { from: 7, to: 6, len: 2 },
            ],
            Immediate::CLdsp => seq![
                Run { from: 5, to: 3, len: 2 },
                Run { from: 12, to: 5, len: 1 },
                Run { from: 2, to: 6, len: 3 },
            ],
            Immediate::CLwsp => seq![
                Run { from: 4, to: 2, len: 3 },
                Run { from: 12, to: 5, len: 1 },
                Run { from: 2, to: 6, len: 2 },
            ],
            Immediate::CSdsp => seq![
                Run { from: 10, to: 3, len: 3 },
                Run { from: 7, to: 6, len: 3 },
            ],
        }
    }

    /// The value of the immediate in the encoding `w`.
    pub open spec fn of(self, w: nat) -> nat {
        scattered(w, self.layout())
    }

    /// Every layout is well formed.
    pub proof fn lemma_layout_wf(self)
        ensures
            layout_wf(self.layout()),
    {
    }

    /// The immediate bit by bit: a bit of it is set exactly where a run of
    /// its layout brings a set bit of the encoding there.
    pub proof fn lemma_bits(self, w: nat, d: nat)
        ensures
            bit(self.of(w), d) <==> exists|k: int|
                0 <= k < self.layout().len() && carries(#[trigger] self.layout()[k], w, d),
    {
        self.lemma_layout_wf();
        lemma_scattered_bit(w, self.layout(), d);
    }

    /// Reads the immediate out of the encoding `w`.
    pub fn extract(self, w: u32) -> (r: u32)
        ensures
            r == self.of(w as nat),
            r < pow2(span(self.layout())),
    {
        match self {
            Immediate::Upper => {
                let runs = [Run { from: 12, to: 12, len: 20 }];
                assert(runs@ =~= self.layout());
                gather(w, runs.as_slice())
            },
            Immediate::Store => {
                let runs = [
                    Run { from: 7, to: 0, len: 5 },
                    Run { from: 25, to: 5, len: 7 },
                ];
                assert(runs@ =~= self.layout());
                gather(w, runs.as_slice())
            },
            Immediate::Branch => {
                let runs = [
                    Run { from: 8, to: 0, len: 4 },
                    Run { from: 25, to: 4, len: 6 },
                    Run { from: 7, to: 10, len: 1 },
                ];
                assert(runs@ =~= self.layout());
                gather(w, runs.as_slice())
            },
            Immediate::Jump => {
                let runs = [
                    Run { from: 21, to: 0, len: 10 },
                    Run { from: 20, to: 10, len: 1 },
                    Run { from: 12, to: 11, len: 8 },
                ];
                assert(runs@ =~= self.layout());
                gather(w, runs.as_slice())
            },
            Immediate::CAddi4spn => {
                let runs = [
                    Run { from: 6, to: 2, len: 1 },
                    Run { from: 5, to: 3, len: 1 },
                    Run { from: 11, to: 4, len: 2 },
                    Run { from: 7, to: 6, len: 4 },
                ];
                assert(runs@ =~= self.layout());
                gather(w, runs.as_slice())
            },
            Immediate::CDouble => {
                let runs = [
                    Run { from: 10, to: 3, len: 3 },
                    Run { from: 5, to: 6, len: 2 },
                ];
                assert(runs@ =~= self.layout());
                gather(w, runs.as_slice())
            },
            Immediate::CWord => {
                let runs = [
                    Run { from: 6, to: 2, len: 1 },
                    Run { from: 10, to: 3, len: 3 },
                    Run { from: 5, to: 6, len: 1 },
                ];
                assert(runs@ =~= self.layout());
                gather(w, runs.as_slice())
            },
            Immediate::CImm => {
                let runs = [
                    Run { from: 2, to: 0, len: 5 },
                    Run { from: 12, to: 5, len: 1 },
                ];
                assert(runs@ =~= self.layout());
                gather(w, runs.as_slice())
            },
            Immediate::CAddi16sp => {
                let runs = [
                    Run { from: 6, to: 4, len: 1 },
                    Run { from: 2, to: 5, len: 1 },
                    Run { from: 5, to: 6, len: 1 },
                    Run { from: 3, to: 7, len: 2 },
                ];
                assert(runs@ =~= self.layout());
                gather(w, runs.as_slice())
            },
            Immediate::CLui => {
                let runs = [
                    Run { from: 2, to: 12, len: 5 },
                    Run { from: 12, to: 17, len: 1 },
                ];
                assert(runs@ =~= self.layout());
                gather(w, runs.as_slice())
            },
            Immediate::CJump => {
                let runs = [
                    Run { from: 3, to: 1, len: 3 },
                    Run { from: 11, to: 4, len: 1 },
                    Run { from: 2, to: 5, len: 1 },
                    Run { from: 7, to: 6, len: 1 },
                    Run { from: 6, to: 7, len: 1 },
                    Run { from: 9, to: 8, len: 2 },
                    Run { from: 8, to: 10, len: 1 },
                    Run { from: 12, to: 11, len: 1 },
                ];
                assert(runs@ =~= self.layout());
                gather(w, runs.as_slice())
            },
            Immediate::CBranch => {
                let runs = [
                    Run { from: 3, to: 1, len: 2 },
                    Run { from: 10, to: 3, len: 2 },
                    Run { from: 2, to: 5, len: 1 },
                    Run { from: 5, to: 6, len: 2 },
                    Run { from: 12, to: 8, len: 1 },
                ];
                assert(runs@ =~= self.layout());
                gather(w, runs.as_slice())
            },
            Immediate::CSwsp => {
                let runs = [
                    Run { from: 9, to: 2, len: 4 },
                    Run { from: 7, to: 6, len: 2 },
                ];
                assert(runs@ =~= self.layout());
                gather(w, runs.as_slice())
            },
            Immediate::CLdsp => {
                let runs = [
                    Run { from: 5, to: 3, len: 2 },
                    Run { from: 12, to: 5, len: 1 },
                    Run { from: 2, to: 6, len: 3 },
                ];
                assert(runs@ =~= self.layout());
                gather(w, runs.as_slice())
            },
            Immediate::CLwsp => {
                let runs = [
                    Run { from: 4, to: 2, len: 3 },
                    Run { from: 12, to: 5, len: 1 },
                    Run { from: 2, to: 6, len: 2 },
                ];
                assert(runs@ =~= self.layout());
                gather(w, runs.as_slice())
            },
            Immediate::CSdsp => {
                let runs = [
                    Run { from: 10, to: 3, len: 3 },
                    Run { from: 7, to: 6, len: 3 },
                ];
                assert(runs@ =~= self.layout());
                gather(w, runs.as_slice())
            },
        }
    }
}

} // verus!
