//! The byte source.
//!
//! A pass reads its bytes through [`Input`], as unsigned integers of 8, 16
//! and 32 bits. The byte order of the multi-byte reads belongs to the
//! source. [`ByteCursor`] is the source over bytes in memory.

use vstd::prelude::*;
use crate::error::ReadError;

verus! {

/// The order of the bytes of one integer in the stream.
#[derive(Clone, Copy, Debug, PartialEq, Eq, Structural)]
pub enum ByteOrder {
    /// The byte of the lowest weight comes first.
    Little,
    /// The byte of the highest weight comes first.
    Big,
}

/// The unsigned integer that `bytes` spell in the order `order`.
pub open spec fn unsigned(bytes: Seq<u8>, order: ByteOrder) -> nat
    decreases bytes.len(),
{
    if bytes.len() == 0 {
        0
    } else {
        match order {
            ByteOrder::Little => bytes.first() as nat + 256 * unsigned(bytes.drop_first(), order),
            ByteOrder::Big => 256 * unsigned(bytes.drop_last(), order) + bytes.last() as nat,
        }
    }
}

/// What is known of a source: the bytes that it has not handed out yet, the
/// order in which it reads them, and whether it is free of failures other
/// than running out of bytes.
pub struct Source {
    pub pending: Seq<u8>,
    pub order: ByteOrder,
    pub faultless: bool,
}

/// How a read of `n` bytes relates the source before it, its outcome and
/// the source after it. A value is what the first `n` pending bytes spell,
/// and takes them away; the end is reported only where fewer than `n` are
/// pending; a faultless source reports no other failure. Of a source
/// without a model nothing is said.
pub open spec fn read_follows(
    before: Option<Source>,
    n: nat,
    outcome: Result<nat, ReadError>,
    after: Option<Source>,
) -> bool {
    before matches Some(b) ==> {
        &&& after is Some
        &&& after.unwrap().order == b.order
        &&& after.unwrap().faultless == b.faultless
        &&& match outcome {
            Ok(v) => {
                &&& n <= b.pending.len()
                &&& v == unsigned(b.pending.take(n as int), b.order)
                &&& after.unwrap().pending == b.pending.skip(n as int)
            },
            Err(ReadError::Eof) => b.pending.len() < n,
            Err(ReadError::Io) => !b.faultless,
        }
    }
}

/// The outcome of a read with its value as a natural number.
pub open spec fn outcome8(r: Result<u8, ReadError>) -> Result<nat, ReadError> {
    match r {
        Ok(v) => Ok(v as nat),
        Err(e) => Err(e),
    }
}

/// The outcome of a read with its value as a natural number.
pub open spec fn outcome16(r: Result<u16, ReadError>) -> Result<nat, ReadError> {
    match r {
        Ok(v) => Ok(v as nat),
        Err(e) => Err(e),
    }
}

/// The outcome of a read with its value as a natural number.
pub open spec fn outcome32(r: Result<u32, ReadError>) -> Result<nat, ReadError> {
    match r {
        Ok(v) => Ok(v as nat),
        Err(e) => Err(e),
    }
}

/// A sequential reader of unsigned integers from a finite stream of bytes.
///
/// An implementation that is verified gives its model and proves that its
/// reads follow it. One that is not keeps the default, no model, and
/// nothing is then claimed of it.
pub trait Input {
    /// The model of the source, where it has one.
    open spec fn model(&self) -> Option<Source> {
        None
    }

    /// Reads one byte.
    fn read_u8(&mut self) -> (r: Result<u8, ReadError>)
        ensures
            read_follows(old(self).model(), 1, outcome8(r), final(self).model()),
    ;

    /// Reads two bytes as one integer.
    fn read_u16(&mut self) -> (r: Result<u16, ReadError>)
        ensures
            read_follows(old(self).model(), 2, outcome16(r), final(self).model()),
    ;

    /// Reads four bytes as one integer.
    fn read_u32(&mut self) -> (r: Result<u32, ReadError>)
        ensures
            read_follows(old(self).model(), 4, outcome32(r), final(self).model()),
    ;
}

/// A source over bytes in memory. It never fails but by running out of
/// bytes, and a read that runs out takes the bytes that were left.
pub struct ByteCursor {
    bytes: Vec<u8>,
    position: usize,
    order: ByteOrder,
}

impl ByteCursor {
    #[verifier::type_invariant]
    spec fn within(self) -> bool {
        self.position <= self.bytes.len()
    }

    /// The bytes that have not been read yet.
    pub closed spec fn pending(&self) -> Seq<u8> {
        self.bytes@.skip(self.position as int)
    }

    /// The order in which the source reads.
    pub closed spec fn order(&self) -> ByteOrder {
        self.order
    }

    /// A source that hands out `bytes` from the first on, in the order
    /// `order`.
    pub fn new(bytes: Vec<u8>, order: ByteOrder) -> (r: Self)
        ensures
            r.pending() == bytes@,
            r.order() == order,
    {
        let r = ByteCursor { bytes, position: 0, order };
        assert(r.bytes@.skip(0) =~= bytes@);
        r
    }

    /// The number of bytes that are left.
    pub fn remaining(&self) -> (n: usize)
        ensures
            n == self.pending().len(),
    {
        proof {
            use_type_invariant(self);
        }
        self.bytes.len() - self.position
    }

    /// Takes the next `n` bytes as one integer, or all that are left where
    /// they are fewer.
    fn take(&mut self, n: usize) -> (r: Result<u32, ReadError>)
        requires
            1 <= n <= 4,
        ensures
            final(self).order() == old(self).order(),
            match r {
                Ok(v) => {
                    &&& n <= old(self).pending().len()
                    &&& v == unsigned(old(self).pending().take(n as int), old(self).order())
                    &&& v < pow256(n as nat)
                    &&& final(self).pending() == old(self).pending().skip(n as int)
                },
                Err(e) => {
                    &&& e == ReadError::Eof
                    &&& old(self).pending().len() < n
                    &&& final(self).pending().len() == 0
                },
            },
    {
        proof {
            use_type_invariant(&*self);
        }
        let len = self.bytes.len();
        if len - self.position < n {
            self.position = len;
            return Err(ReadError::Eof);
        }
        let start = self.position;
        let ghost window = self.bytes@.subrange(start as int, start + n);
        let mut value: u32 = 0;
        let mut i: usize = 0;
        while i < n
            invariant
                i <= n <= 4,
                start + n <= self.bytes.len(),
                window == self.bytes@.subrange(start as int, start + n),
                self.order == old(self).order,
                self.bytes == old(self).bytes,
                self.position == start,
                match self.order {
                    ByteOrder::Little => value == unsigned(
                        window.subrange(n - i, n as int),
                        ByteOrder::Little,
                    ),
                    ByteOrder::Big => value == unsigned(window.take(i as int), ByteOrder::Big),
                },
                value < pow256(i as nat),
            decreases n - i,
        {
            match self.order {
                ByteOrder::Little => {
                    let byte = self.bytes[start + (n - 1 - i)];
                    proof {
                        let next = window.subrange(n - i - 1, n as int);
                        assert(next.drop_first() =~= window.subrange(n - i, n as int));
                        assert(next.first() == byte);
                    }
                    value = value * 256 + byte as u32;
                },
                ByteOrder::Big => {
                    let byte = self.bytes[start + i];
                    proof {
                        let next = window.take(i + 1);
                        assert(next.drop_last() =~= window.take(i as int));
                        assert(next.last() == byte);
                    }
                    value = value * 256 + byte as u32;
                },
            }
            i += 1;
        }
        self.position = start + n;
        proof {
            assert(window.subrange(0, n as int) =~= window);
            assert(window.take(n as int) =~= window);
            assert(old(self).pending().take(n as int) =~= window);
            assert(self.pending() =~= old(self).pending().skip(n as int));
        }
        Ok(value)
    }
}

/// 256 to the power of `n`, for `n` up to 4.
pub open spec fn pow256(n: nat) -> nat {
    if n == 0 {
        1
    } else if n == 1 {
        0x100
    } else if n == 2 {
        0x1_0000
    } else if n == 3 {
        0x100_0000
    } else {
        0x1_0000_0000
    }
}

impl Input for ByteCursor {
    open spec fn model(&self) -> Option<Source> {
        Some(Source { pending: self.pending(), order: self.order(), faultless: true })
    }

    fn read_u8(&mut self) -> (r: Result<u8, ReadError>)
        ensures
            r is Err ==> final(self).pending().len() == 0,
    {
        match self.take(1) {
            Ok(v) => Ok(v as u8),
            Err(e) => Err(e),
        }
    }

    fn read_u16(&mut self) -> (r: Result<u16, ReadError>)
        ensures
            r is Err ==> final(self).pending().len() == 0,
    {
        match self.take(2) {
            Ok(v) => Ok(v as u16),
            Err(e) => Err(e),
        }
    }

    fn read_u32(&mut self) -> (r: Result<u32, ReadError>)
        ensures
            r is Err ==> final(self).pending().len() == 0,
    {
        self.take(4)
    }
}

} // verus!
