//! The pass over a byte source.
//!
//! A pass reads one instruction after the other, writes a line for each and
//! counts the bytes that it has consumed. It ends cleanly where the source
//! runs out of bytes between two instructions; every other failure stops
//! it.

use vstd::prelude::*;
use crate::error::{DumpError, Malformed, ReadError};
use crate::frame::{
    classify, frame_of, lemma_frame_by_category, lemma_frame_length, Category, MAX_LENGTH,
};
use crate::input::{unsigned, ByteOrder, Input, Source};
use crate::instruction::{lemma_well_framed_length, Instruction, Shape};
use crate::base::{resolve_word, word_line};
use crate::bits::field;
use crate::compressed::{compressed_line, resolve_compressed};
use crate::text::hex;

verus! {

/// The 16-bit integer that the two bytes from byte `at` on spell.
pub open spec fn halfword_at(bytes: Seq<u8>, order: ByteOrder, at: int) -> u16 {
    unsigned(bytes.subrange(at, at + 2), order) as u16
}

/// The 32-bit integer that the four bytes from byte `at` on spell.
pub open spec fn word_at(bytes: Seq<u8>, order: ByteOrder, at: int) -> u32 {
    unsigned(bytes.subrange(at, at + 4), order) as u32
}

/// The instruction at the head of `bytes`, which hold all of it. The first
/// word has the lowest weight; the class of 64 bits is the first two 16-bit
/// words below one 32-bit word.
pub open spec fn assemble(bytes: Seq<u8>, order: ByteOrder) -> Shape {
    let first = halfword_at(bytes, order, 0);
    match frame_of(first).category {
        Category::Compressed16 => Shape::Compressed16 { bits: first },
        Category::Word32 => Shape::Word32 {
            bits: (first + 0x1_0000 * halfword_at(bytes, order, 2)) as u32,
        },
        Category::DoubleWord48 => Shape::DoubleWord48 {
            bits: (first + 0x1_0000 * halfword_at(bytes, order, 2) + 0x1_0000_0000 * halfword_at(
                bytes,
                order,
                4,
            )) as u64,
        },
        Category::QuadWord64 => Shape::QuadWord64 {
            bits: (first + 0x1_0000 * halfword_at(bytes, order, 2) + 0x1_0000_0000 * word_at(
                bytes,
                order,
                4,
            )) as u64,
        },
        Category::Extended => Shape::Extended {
            words: Seq::new(
                (frame_of(first).halfwords + 1) as nat,
                |i: int| halfword_at(bytes, order, 2 * i),
            ),
        },
        Category::Reserved192 => Shape::Reserved192,
    }
}

/// What stands at the head of a stream.
pub enum Head {
    /// Fewer than two bytes: the stream ends here.
    End,
    /// A first word that announces more bytes than there are.
    Truncated { first: u16 },
    /// A whole instruction.
    Whole { shape: Shape },
}

/// What stands at the head of `bytes`.
pub open spec fn head(bytes: Seq<u8>, order: ByteOrder) -> Head {
    if bytes.len() < 2 {
        Head::End
    } else if bytes.len() < frame_of(halfword_at(bytes, order, 0)).length {
        Head::Truncated { first: halfword_at(bytes, order, 0) }
    } else {
        Head::Whole { shape: assemble(bytes, order) }
    }
}

/// An instruction at the head of a stream is as long as its frame says.
pub proof fn lemma_head_length(bytes: Seq<u8>, order: ByteOrder)
    ensures
        head(bytes, order) matches Head::Whole { shape } ==> {
            &&& shape.byte_len() == frame_of(halfword_at(bytes, order, 0)).length
            &&& 2 <= shape.byte_len() <= bytes.len()
            &&& shape.byte_len() <= MAX_LENGTH
        },
{
    lemma_frame_length(halfword_at(bytes, order, 0));
}

/// How a read of one instruction relates the source before it, the byte
/// offset, the outcome and the source after it. Of any source: an
/// instruction is what its first word announces, and a failure names the
/// offset. Of a source with a model: an instruction is the one at the head
/// of the pending bytes, and takes its bytes away; the end of the stream and
/// a truncated instruction are reported where the pending bytes show them;
/// a failure of the source only where the source is not faultless.
pub open spec fn fetched(
    before: Option<Source>,
    ptr: usize,
    outcome: Result<Shape, DumpError>,
    after: Option<Source>,
) -> bool {
    &&& match outcome {
        Ok(shape) => shape.well_framed(),
        Err(DumpError::EndOfStream) => true,
        Err(DumpError::TruncatedInstruction { offset, first }) => offset == ptr,
        Err(DumpError::IoFailure { offset }) => offset == ptr,
        Err(DumpError::MalformedEncoding { .. }) => false,
    }
    &&& before matches Some(b) ==> {
        &&& after is Some
        &&& after.unwrap().order == b.order
        &&& after.unwrap().faultless == b.faultless
        &&& match outcome {
            Ok(shape) => {
                &&& head(b.pending, b.order) == Head::Whole { shape }
                &&& after.unwrap().pending == b.pending.skip(shape.byte_len() as int)
            },
            Err(DumpError::EndOfStream) => head(b.pending, b.order) == Head::End,
            Err(DumpError::TruncatedInstruction { offset, first }) => head(b.pending, b.order)
                == Head::Truncated { first },
            Err(_) => !b.faultless,
        }
    }
}

/// The outcome of a fetch with the instruction as a mathematical value.
pub open spec fn fetch_outcome(r: Result<Instruction, DumpError>) -> Result<Shape, DumpError> {
    match r {
        Ok(instruction) => Ok(instruction@),
        Err(e) => Err(e),
    }
}

/// What is known in the middle of a fetch: the source stands `at` bytes
/// behind the head of `all`, the bytes that were pending when the fetch
/// began.
spec fn midway(before: Option<Source>, now: Option<Source>, at: int) -> bool {
    before matches Some(b) ==> {
        &&& now is Some
        &&& now.unwrap().order == b.order
        &&& now.unwrap().faultless == b.faultless
        &&& 0 <= at <= b.pending.len()
        &&& now.unwrap().pending == b.pending.skip(at)
    }
}

/// Reads one of the 16-bit words that follow the first.
fn next16<I: Input>(
    input: &mut I,
    ptr: usize,
    first: u16,
    Ghost(before): Ghost<Option<Source>>,
    Ghost(at): Ghost<int>,
) -> (r: Result<u16, DumpError>)
    requires
        midway(before, old(input).model(), at),
    ensures
        match r {
            Ok(v) => {
                &&& midway(before, final(input).model(), at + 2)
                &&& before matches Some(b) ==> v == halfword_at(b.pending, b.order, at)
            },
            Err(e) => {
                &&& before matches Some(b) ==> {
                    &&& final(input).model() is Some
                    &&& final(input).model().unwrap().order == b.order
                    &&& final(input).model().unwrap().faultless == b.faultless
                }
                &&& e == (DumpError::TruncatedInstruction { offset: ptr, first }) || e == (
                DumpError::IoFailure { offset: ptr })
                &&& before matches Some(b) ==> if e is IoFailure {
                    !b.faultless
                } else {
                    b.pending.len() < at + 2
                }
            },
        },
{
    match input.read_u16() {
        Ok(v) => {
            proof {
                if let Some(b) = before {
                    assert(b.pending.skip(at).take(2) =~= b.pending.subrange(at, at + 2));
                    assert(b.pending.skip(at).skip(2) =~= b.pending.skip(at + 2));
                }
            }
            Ok(v)
        },
        Err(ReadError::Eof) => Err(DumpError::TruncatedInstruction { offset: ptr, first }),
        Err(ReadError::Io) => Err(DumpError::IoFailure { offset: ptr }),
    }
}

/// Reads the 32-bit word that ends an instruction of 64 bits.
fn next32<I: Input>(
    input: &mut I,
    ptr: usize,
    first: u16,
    Ghost(before): Ghost<Option<Source>>,
    Ghost(at): Ghost<int>,
) -> (r: Result<u32, DumpError>)
    requires
        midway(before, old(input).model(), at),
    ensures
        match r {
            Ok(v) => {
                &&& midway(before, final(input).model(), at + 4)
                &&& before matches Some(b) ==> v == word_at(b.pending, b.order, at)
            },
            Err(e) => {
                &&& before matches Some(b) ==> {
                    &&& final(input).model() is Some
                    &&& final(input).model().unwrap().order == b.order
                    &&& final(input).model().unwrap().faultless == b.faultless
                }
                &&& e == (DumpError::TruncatedInstruction { offset: ptr, first }) || e == (
                DumpError::IoFailure { offset: ptr })
                &&& before matches Some(b) ==> if e is IoFailure {
                    !b.faultless
                } else {
                    b.pending.len() < at + 4
                }
            },
        },
{
    match input.read_u32() {
        Ok(v) => {
            proof {
                if let Some(b) = before {
                    assert(b.pending.skip(at).take(4) =~= b.pending.subrange(at, at + 4));
                    assert(b.pending.skip(at).skip(4) =~= b.pending.skip(at + 4));
                }
            }
            Ok(v)
        },
        Err(ReadError::Eof) => Err(DumpError::TruncatedInstruction { offset: ptr, first }),
        Err(ReadError::Io) => Err(DumpError::IoFailure { offset: ptr }),
    }
}

/// What is known once the first word of a fetch is read.
spec fn begun(before: Option<Source>, now: Option<Source>, first: u16) -> bool {
    &&& midway(before, now, 2)
    &&& before matches Some(b) ==> first == halfword_at(b.pending, b.order, 0)
}

/// Reads what follows the first word of a 32-bit instruction.
fn rest_of_word32<I: Input>(
    input: &mut I,
    ptr: usize,
    first: u16,
    Ghost(before): Ghost<Option<Source>>,
) -> (r: Result<Instruction, DumpError>)
    requires
        begun(before, old(input).model(), first),
        frame_of(first).category == Category::Word32,
    ensures
        fetched(before, ptr, fetch_outcome(r), final(input).model()),
{
    proof {
        lemma_frame_by_category(first);
    }
    let high = match next16(input, ptr, first, Ghost(before), Ghost(2)) {
        Ok(v) => v,
        Err(e) => {
            return Err(e);
        },
    };
    let bits = first as u32 + 0x1_0000 * (high as u32);
    assert((bits % 0x1_0000) as u16 == first);
    Ok(Instruction::Word32 { bits })
}

/// Reads what follows the first word of a 48-bit instruction.
fn rest_of_word48<I: Input>(
    input: &mut I,
    ptr: usize,
    first: u16,
    Ghost(before): Ghost<Option<Source>>,
) -> (r: Result<Instruction, DumpError>)
    requires
        begun(before, old(input).model(), first),
        frame_of(first).category == Category::DoubleWord48,
    ensures
        fetched(before, ptr, fetch_outcome(r), final(input).model()),
{
    proof {
        lemma_frame_by_category(first);
    }
    let middle = match next16(input, ptr, first, Ghost(before), Ghost(2)) {
        Ok(v) => v,
        Err(e) => {
            return Err(e);
        },
    };
    let high = match next16(input, ptr, first, Ghost(before), Ghost(4)) {
        Ok(v) => v,
        Err(e) => {
            return Err(e);
        },
    };
    let bits = first as u64 + 0x1_0000 * (middle as u64) + 0x1_0000_0000 * (high as u64);
    assert((bits % 0x1_0000) as u16 == first);
    Ok(Instruction::DoubleWord48 { bits })
}

/// Reads what follows the first word of a 64-bit instruction: one 16-bit
/// word and one 32-bit word.
fn rest_of_word64<I: Input>(
    input: &mut I,
    ptr: usize,
    first: u16,
    Ghost(before): Ghost<Option<Source>>,
) -> (r: Result<Instruction, DumpError>)
    requires
        begun(before, old(input).model(), first),
        frame_of(first).category == Category::QuadWord64,
    ensures
        fetched(before, ptr, fetch_outcome(r), final(input).model()),
{
    proof {
        lemma_frame_by_category(first);
    }
    let middle = match next16(input, ptr, first, Ghost(before), Ghost(2)) {
        Ok(v) => v,
        Err(e) => {
            return Err(e);
        },
    };
    let high = match next32(input, ptr, first, Ghost(before), Ghost(4)) {
        Ok(v) => v,
        Err(e) => {
            return Err(e);
        },
    };
    let bits = first as u64 + 0x1_0000 * (middle as u64) + 0x1_0000_0000 * (high as u64);
    assert((bits % 0x1_0000) as u16 == first);
    Ok(Instruction::QuadWord64 { bits })
}

/// Reads the `count` 16-bit words that follow the first word of an
/// instruction of 80 bits and more.
fn rest_of_extended<I: Input>(
    input: &mut I,
    ptr: usize,
    first: u16,
    count: usize,
    Ghost(before): Ghost<Option<Source>>,
) -> (r: Result<Instruction, DumpError>)
    requires
        begun(before, old(input).model(), first),
        frame_of(first).category == Category::Extended,
        count == frame_of(first).halfwords,
    ensures
        fetched(before, ptr, fetch_outcome(r), final(input).model()),
{
    proof {
        lemma_frame_by_category(first);
    }
    let ghost length = frame_of(first).length;
    let mut words: Vec<u16> = Vec::new();
    words.push(first);
    let mut k: usize = 0;
    while k < count
        invariant
            k <= count <= 16,
            length == 2 + 2 * count,
            length == frame_of(first).length,
            count == frame_of(first).halfwords,
            frame_of(first).category == Category::Extended,
            midway(before, input.model(), 2 + 2 * k),
            words@.len() == k + 1,
            words@[0] == first,
            before matches Some(b) ==> first == halfword_at(b.pending, b.order, 0) && forall|
                i: int,
            |
                0 <= i <= k ==> words@[i] == halfword_at(b.pending, b.order, 2 * i),
        decreases count - k,
    {
        let word = match next16(input, ptr, first, Ghost(before), Ghost(2 + 2 * k)) {
            Ok(v) => v,
            Err(e) => {
                return Err(e);
            },
        };
        words.push(word);
        k += 1;
    }
    proof {
        if let Some(b) = before {
            assert(words@ =~= Seq::new(
                (count + 1) as nat,
                |i: int| halfword_at(b.pending, b.order, 2 * i),
            ));
        }
    }
    Ok(Instruction::Extended { words })
}

/// Reads and drops the `count` 16-bit words that follow the first word of
/// an instruction of the reserved class.
fn rest_of_reserved<I: Input>(
    input: &mut I,
    ptr: usize,
    first: u16,
    count: usize,
    Ghost(before): Ghost<Option<Source>>,
) -> (r: Result<Instruction, DumpError>)
    requires
        begun(before, old(input).model(), first),
        frame_of(first).category == Category::Reserved192,
        count == frame_of(first).halfwords,
    ensures
        fetched(before, ptr, fetch_outcome(r), final(input).model()),
{
    proof {
        lemma_frame_by_category(first);
    }
    let mut k: usize = 0;
    while k < count
        invariant
            k <= count == 11,
            frame_of(first).length == 24,
            frame_of(first).category == Category::Reserved192,
            midway(before, input.model(), 2 + 2 * k),
            before matches Some(b) ==> first == halfword_at(b.pending, b.order, 0),
        decreases count - k,
    {
        match next16(input, ptr, first, Ghost(before), Ghost(2 + 2 * k)) {
            Ok(_) => {},
            Err(e) => {
                return Err(e);
            },
        }
        k += 1;
    }
    Ok(Instruction::Reserved192)
}

/// Reads one instruction from `input`: the first word, and the words that
/// the first word announces. `ptr` is the byte offset of the instruction,
/// for the report of a failure.
pub fn fetch<I: Input>(input: &mut I, ptr: usize) -> (r: Result<Instruction, DumpError>)
    ensures
        fetched(old(input).model(), ptr, fetch_outcome(r), final(input).model()),
{
    let ghost before = input.model();
    let first = match input.read_u16() {
        Ok(v) => v,
        Err(ReadError::Eof) => {
            return Err(DumpError::EndOfStream);
        },
        Err(ReadError::Io) => {
            return Err(DumpError::IoFailure { offset: ptr });
        },
    };
    proof {
        lemma_frame_by_category(first);
        if let Some(b) = before {
            assert(b.pending.take(2) =~= b.pending.subrange(0, 2));
        }
    }
    let frame = classify(first);
    match frame.category {
        Category::Compressed16 => Ok(Instruction::Compressed16 { bits: first }),
        Category::Word32 => rest_of_word32(input, ptr, first, Ghost(before)),
        Category::DoubleWord48 => rest_of_word48(input, ptr, first, Ghost(before)),
        Category::QuadWord64 => rest_of_word64(input, ptr, first, Ghost(before)),
        Category::Extended => rest_of_extended(input, ptr, first, frame.halfwords, Ghost(before)),
        Category::Reserved192 => rest_of_reserved(
            input,
            ptr,
            first,
            frame.halfwords,
            Ghost(before),
        ),
    }
}

/// One step of a pass over `bytes` at the byte offset `offset`: the line
/// for the instruction at the head and the length of that instruction, or
/// why the pass stops here.
#[verifier::opaque]
pub open spec fn step(bytes: Seq<u8>, order: ByteOrder, offset: nat) -> Result<
    (Seq<char>, nat),
    DumpError,
> {
    match head(bytes, order) {
        Head::End => Err(DumpError::EndOfStream),
        Head::Truncated { first } => Err(
            DumpError::TruncatedInstruction { offset: offset as usize, first },
        ),
        Head::Whole { shape } => match shape.line(offset) {
            Ok(text) => Ok((text, shape.byte_len())),
            Err(cause) => Err(DumpError::MalformedEncoding { offset: offset as usize, cause }),
        },
    }
}

/// What a pass yields: its lines, and how it ended.
pub struct Listing {
    pub lines: Seq<Seq<char>>,
    pub end: Result<(), DumpError>,
}

/// The pass over `bytes` from the byte offset `offset` on: the lines of the
/// instructions up to the first that fails, each at the offset that the
/// lengths before it add up to. The end of the stream between two
/// instructions ends the pass well.
pub open spec fn pass(bytes: Seq<u8>, order: ByteOrder, offset: nat) -> Listing
    decreases bytes.len(),
    via pass_decreases
{
    match step(bytes, order, offset) {
        Ok((text, length)) => {
            let rest = pass(bytes.skip(length as int), order, offset + length);
            Listing { lines: seq![text] + rest.lines, end: rest.end }
        },
        Err(DumpError::EndOfStream) => Listing { lines: Seq::empty(), end: Ok(()) },
        Err(e) => Listing { lines: Seq::empty(), end: Err(e) },
    }
}

#[via_fn]
proof fn pass_decreases(bytes: Seq<u8>, order: ByteOrder, offset: nat) {
    lemma_step_length(bytes, order, offset);
}

/// A step that yields a line takes at least two bytes, and no more than
/// there are.
pub proof fn lemma_step_length(bytes: Seq<u8>, order: ByteOrder, offset: nat)
    ensures
        step(bytes, order, offset) matches Ok((text, length)) ==> 2 <= length <= bytes.len()
            && length <= MAX_LENGTH,
{
    reveal(step);
    lemma_head_length(bytes, order);
}

/// The texts of `lines`.
pub open spec fn texts(lines: Seq<String>) -> Seq<Seq<char>> {
    Seq::new(lines.len(), |i: int| lines[i]@)
}

/// Whether `start` is how `whole` begins.
pub open spec fn begins(whole: Seq<Seq<char>>, start: Seq<Seq<char>>) -> bool {
    start.len() <= whole.len() && whole.take(start.len() as int) == start
}

/// The outcome of a step with the line as a sequence of characters.
pub open spec fn line_outcome(r: Result<String, DumpError>) -> Result<Seq<char>, DumpError> {
    match r {
        Ok(line) => Ok(line@),
        Err(e) => Err(e),
    }
}

/// How one step of a pass relates the source and the byte offset before it,
/// the outcome, and the source and the offset after it. Of any source: a
/// line is the line of a well-framed instruction at the offset, and moves
/// the offset on by the length of that instruction; a failure names the
/// offset and leaves it, and a malformed encoding is a well-framed
/// instruction that does not resolve. Of a source with a model: the outcome
/// is that of the step over the pending bytes, and a line takes the bytes of
/// its instruction away; only a failure of the source, where the source is
/// not faultless, may come in its place.
pub open spec fn stepped(
    before: Option<Source>,
    ptr: usize,
    outcome: Result<Seq<char>, DumpError>,
    after: Option<Source>,
    next: usize,
) -> bool {
    &&& match outcome {
        Ok(text) => exists|shape: Shape|
            {
                &&& #[trigger] shape.well_framed()
                &&& shape.line(ptr as nat) == Ok::<Seq<char>, Malformed>(text)
                &&& next == ptr + shape.byte_len()
            },
        Err(DumpError::EndOfStream) => next == ptr,
        Err(DumpError::TruncatedInstruction { offset, first }) => next == ptr && offset == ptr,
        Err(DumpError::IoFailure { offset }) => next == ptr && offset == ptr,
        Err(DumpError::MalformedEncoding { offset, cause }) => {
            &&& next == ptr
            &&& offset == ptr
            &&& exists|shape: Shape| #[trigger]
                shape.well_framed() && shape.line(ptr as nat) == Err::<Seq<char>, Malformed>(cause)
        },
    }
    &&& before matches Some(b) ==> {
        &&& after is Some
        &&& after.unwrap().order == b.order
        &&& after.unwrap().faultless == b.faultless
        &&& match outcome {
            Ok(text) => {
                &&& step(b.pending, b.order, ptr as nat) == Ok::<(Seq<char>, nat), DumpError>(
                    (text, (next - ptr) as nat),
                )
                &&& after.unwrap().pending == b.pending.skip(next - ptr)
            },
            Err(DumpError::IoFailure { offset }) => offset == ptr && !b.faultless,
            Err(e) => step(b.pending, b.order, ptr as nat) == Err::<(Seq<char>, nat), DumpError>(e),
        }
    }
}

/// The bytes that `shapes` take together.
pub open spec fn total_len(shapes: Seq<Shape>) -> nat
    decreases shapes.len(),
{
    if shapes.len() == 0 {
        0
    } else {
        total_len(shapes.drop_last()) + shapes.last().byte_len()
    }
}

/// Whether `lines` are the lines of the instructions `shapes`, one after the
/// other from the byte offset 0 on: every instruction is well framed, and
/// its line stands at the offset that the lengths before it add up to.
pub open spec fn lists(shapes: Seq<Shape>, lines: Seq<Seq<char>>) -> bool {
    &&& lines.len() == shapes.len()
    &&& forall|i: int|
        0 <= i < shapes.len() ==> {
            &&& (#[trigger] shapes[i]).well_framed()
            &&& shapes[i].line(total_len(shapes.take(i))) == Ok::<Seq<char>, Malformed>(lines[i])
        }
}

/// The byte offset that a failure names, where it names one.
pub open spec fn failed_at(outcome: Result<(), DumpError>) -> Option<usize> {
    match outcome {
        Err(DumpError::TruncatedInstruction { offset, first }) => Some(offset),
        Err(DumpError::MalformedEncoding { offset, cause }) => Some(offset),
        Err(DumpError::IoFailure { offset }) => Some(offset),
        _ => None,
    }
}

/// How a pass relates the source before it, the lines that were there, its
/// outcome and the lines that are there after it. Of any source: lines are
/// only added; the added lines are those of well-framed instructions, each
/// at the offset that the lengths before it add up to; a failure names the
/// offset behind the last of them; and the end of the stream is no failure.
/// Of a source with a model, whose bytes an offset can count: the added
/// lines and the outcome are those of the pass over the pending bytes; only
/// a failure of the source, where the source is not faultless, may cut the
/// pass short, and the lines added up to there are the first of the pass.
pub open spec fn dumped(
    before: Option<Source>,
    had: Seq<Seq<char>>,
    outcome: Result<(), DumpError>,
    has: Seq<Seq<char>>,
) -> bool {
    &&& begins(has, had)
    &&& outcome != Err::<(), DumpError>(DumpError::EndOfStream)
    &&& exists|shapes: Seq<Shape>|
        {
            &&& #[trigger] lists(shapes, has.skip(had.len() as int))
            &&& failed_at(outcome) matches Some(offset) ==> offset == total_len(shapes)
        }
    &&& before matches Some(b) ==> b.pending.len() + MAX_LENGTH <= usize::MAX ==> {
        let listing = pass(b.pending, b.order, 0);
        let added = has.skip(had.len() as int);
        if outcome matches Err(DumpError::IoFailure { offset }) {
            !b.faultless && begins(listing.lines, added)
        } else {
            added == listing.lines && outcome == listing.end
        }
    }
}

/// One more instruction with its line, behind those that are listed.
proof fn lemma_lists_one_more(
    shapes: Seq<Shape>,
    lines: Seq<Seq<char>>,
    shape: Shape,
    line: Seq<char>,
)
    requires
        lists(shapes, lines),
        shape.well_framed(),
        shape.line(total_len(shapes)) == Ok::<Seq<char>, Malformed>(line),
    ensures
        lists(shapes.push(shape), lines.push(line)),
        total_len(shapes.push(shape)) == total_len(shapes) + shape.byte_len(),
{
    let more = shapes.push(shape);
    assert(more.drop_last() =~= shapes);
    assert forall|i: int| 0 <= i < more.len() implies {
        &&& (#[trigger] more[i]).well_framed()
        &&& more[i].line(total_len(more.take(i))) == Ok::<Seq<char>, Malformed>(
            lines.push(line)[i],
        )
    } by {
        if i < shapes.len() {
            assert(more[i] == shapes[i]);
            assert(more.take(i) =~= shapes.take(i));
        } else {
            assert(more.take(i) =~= shapes);
        }
    }
}

/// Reads one instruction from `input` and writes its line. `ptr` is the
/// byte offset of the instruction, and moves on by its length.
pub fn dump0<I: Input>(input: &mut I, ptr: &mut usize) -> (r: Result<String, DumpError>)
    requires
        *old(ptr) + MAX_LENGTH <= usize::MAX,
    ensures
        stepped(
            old(input).model(),
            *old(ptr),
            line_outcome(r),
            final(input).model(),
            *final(ptr),
        ),
{
    proof {
        reveal(step);
    }
    let instruction = match fetch(input, *ptr) {
        Ok(instruction) => instruction,
        Err(e) => {
            return Err(e);
        },
    };
    proof {
        lemma_well_framed_length(instruction@);
    }
    match instruction.line(*ptr) {
        Ok(line) => {
            *ptr = *ptr + instruction.byte_len();
            Ok(line)
        },
        Err(cause) => Err(DumpError::MalformedEncoding { offset: *ptr, cause }),
    }
}

/// Makes a pass over `input`: appends to `out` one line for each
/// instruction, from the byte offset 0 on, until the source runs out of
/// bytes between two instructions, which ends the pass well, or until an
/// instruction fails.
pub fn dump<I: Input>(input: &mut I, out: &mut Vec<String>) -> (r: Result<(), DumpError>)
    ensures
        dumped(old(input).model(), texts(old(out)@), r, texts(final(out)@)),
{
    let ghost before = input.model();
    let ghost had = texts(out@);
    let ghost shapes: Seq<Shape> = Seq::empty();
    let mut ptr: usize = 0;
    proof {
        assert(texts(out@).take(had.len() as int) =~= had);
        assert(texts(out@).skip(had.len() as int) =~= Seq::<Seq<char>>::empty());
        if let Some(b) = before {
            assert(b.pending.skip(0) =~= b.pending);
        }
    }
    loop
        invariant
            before == old(input).model(),
            had == texts(old(out)@),
            begins(texts(out@), had),
            lists(shapes, texts(out@).skip(had.len() as int)),
            ptr == total_len(shapes),
            before matches Some(b) ==> b.pending.len() + MAX_LENGTH <= usize::MAX ==> {
                &&& input.model() is Some
                &&& input.model().unwrap().order == b.order
                &&& input.model().unwrap().faultless == b.faultless
                &&& ptr + input.model().unwrap().pending.len() == b.pending.len()
                &&& pass(b.pending, b.order, 0).lines == texts(out@).skip(had.len() as int) + pass(
                    input.model().unwrap().pending,
                    b.order,
                    ptr as nat,
                ).lines
                &&& pass(b.pending, b.order, 0).end == pass(
                    input.model().unwrap().pending,
                    b.order,
                    ptr as nat,
                ).end
            },
        decreases usize::MAX - ptr,
    {
        if ptr > usize::MAX - MAX_LENGTH {
            return Err(DumpError::IoFailure { offset: ptr });
        }
        let ghost now = input.model();
        let ghost lines = texts(out@);
        let ghost at = ptr as nat;
        match dump0(input, &mut ptr) {
            Ok(line) => {
                out.push(line);
                proof {
                    assert(texts(out@) =~= lines.push(line@));
                    assert(texts(out@).take(had.len() as int) =~= lines.take(had.len() as int));
                    let added = lines.skip(had.len() as int);
                    assert(texts(out@).skip(had.len() as int) =~= added.push(line@));
                    let shape = choose|shape: Shape|
                        {
                            &&& #[trigger] shape.well_framed()
                            &&& shape.line(at) == Ok::<Seq<char>, Malformed>(line@)
                            &&& ptr == at + shape.byte_len()
                        };
                    lemma_lists_one_more(shapes, added, shape, line@);
                    shapes = shapes.push(shape);
                    if let Some(b) = before {
                        if b.pending.len() + MAX_LENGTH <= usize::MAX {
                            let n = now.unwrap();
                            lemma_step_length(n.pending, n.order, at);
                            let rest = pass(input.model().unwrap().pending, b.order, ptr as nat);
                            assert(pass(n.pending, n.order, at).lines == seq![line@] + rest.lines);
                            assert(added + (seq![line@] + rest.lines) =~= added.push(line@)
                                + rest.lines);
                        }
                    }
                }
            },
            Err(DumpError::EndOfStream) => {
                proof {
                    let added = lines.skip(had.len() as int);
                    assert(added + Seq::<Seq<char>>::empty() =~= added);
                }
                return Ok(());
            },
            Err(e) => {
                proof {
                    let added = lines.skip(had.len() as int);
                    assert(added + Seq::<Seq<char>>::empty() =~= added);
                    if let Some(b) = before {
                        if b.pending.len() + MAX_LENGTH <= usize::MAX {
                            let rest = pass(now.unwrap().pending, b.order, at);
                            assert((added + rest.lines).take(added.len() as int) =~= added);
                        }
                    }
                }
                return Err(e);
            },
        }
    }
}

/// A stream that holds the first word of an instruction, but not all that
/// the word announces, yields no line and fails as truncated at its offset.
pub proof fn lemma_truncated(bytes: Seq<u8>, order: ByteOrder, offset: nat)
    requires
        2 <= bytes.len() < frame_of(halfword_at(bytes, order, 0)).length,
    ensures
        pass(bytes, order, offset) == (Listing {
            lines: Seq::empty(),
            end: Err(
                DumpError::TruncatedInstruction {
                    offset: offset as usize,
                    first: halfword_at(bytes, order, 0),
                },
            ),
        }),
{
    reveal(step);
}

/// A stream of one 16-bit word whose two low bits are `11` is the first half
/// of a longer instruction: the pass fails as truncated, and does not end
/// as at the end of a stream.
pub proof fn lemma_lone_halfword_is_truncated(bytes: Seq<u8>, order: ByteOrder)
    requires
        bytes.len() == 2,
        field(halfword_at(bytes, order, 0) as nat, 0, 2) == 0b11,
    ensures
        pass(bytes, order, 0).lines.len() == 0,
        pass(bytes, order, 0).end == Err::<(), DumpError>(
            DumpError::TruncatedInstruction { offset: 0, first: halfword_at(bytes, order, 0) },
        ),
{
    lemma_frame_length(halfword_at(bytes, order, 0));
    lemma_truncated(bytes, order, 0);
}

/// After one compressed instruction the next line is at offset 2, whatever
/// the two instructions are: a stream of a compressed encoding and a 32-bit
/// word that both resolve yields two lines, and the second is the line of
/// the word at offset 2, which starts with `2`, a colon and a tab.
pub proof fn lemma_second_line_at_two(bytes: Seq<u8>, order: ByteOrder)
    requires
        bytes.len() == 6,
        frame_of(halfword_at(bytes, order, 0)).category == Category::Compressed16,
        frame_of(halfword_at(bytes, order, 2)).category == Category::Word32,
        resolve_compressed(halfword_at(bytes, order, 0)) is Ok,
        resolve_word(
            (halfword_at(bytes, order, 2) + 0x1_0000 * halfword_at(bytes, order, 4)) as u32,
        ) is Ok,
    ensures
        pass(bytes, order, 0).end == Ok::<(), DumpError>(()),
        pass(bytes, order, 0).lines.len() == 2,
        word_line(
            2,
            (halfword_at(bytes, order, 2) + 0x1_0000 * halfword_at(bytes, order, 4)) as u32,
        ) == Ok::<Seq<char>, Malformed>(pass(bytes, order, 0).lines[1]),
        pass(bytes, order, 0).lines[1].take(3) == seq!['2', ':', '\t'],
{
    reveal(step);
    reveal_strlit(":\t");
    let rest = bytes.skip(2);
    assert(rest.subrange(0, 2) =~= bytes.subrange(2, 4));
    assert(rest.subrange(2, 4) =~= bytes.subrange(4, 6));
    let w = (halfword_at(bytes, order, 2) + 0x1_0000 * halfword_at(bytes, order, 4)) as u32;
    assert(head(bytes, order) == Head::Whole {
        shape: Shape::Compressed16 { bits: halfword_at(bytes, order, 0) },
    });
    assert(head(rest, order) == Head::Whole { shape: Shape::Word32 { bits: w } });
    let end = rest.skip(4);
    assert(end.len() == 0);
    assert(pass(end, order, 6) == Listing { lines: Seq::empty(), end: Ok(()) });
    let second = word_line(2, w).unwrap();
    assert(step(rest, order, 2) == Ok::<(Seq<char>, nat), DumpError>((second, 4)));
    assert(pass(rest, order, 2).lines =~= seq![second]);
    assert(pass(bytes, order, 0).lines =~= seq![
        compressed_line(0, halfword_at(bytes, order, 0)).unwrap(),
        second,
    ]);
    assert(hex(2, 1, false) =~= seq!['2']);
    assert(second.take(3) =~= seq!['2', ':', '\t']);
}

} // verus!
