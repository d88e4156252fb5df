use vstd::prelude::*;
use crate::error::DecodeError;

verus! {

/// The unsigned integer that the first four bytes of `b` spell in big-endian order.
pub open spec fn be_u32(b: Seq<u8>) -> u32 {
    ((b[0] as int) * 0x100_0000 + (b[1] as int) * 0x1_0000 + (b[2] as int) * 0x100
        + (b[3] as int)) as u32
}

/// Relies on byteorder's `BigEndian::read_u32`: the first four bytes of `buf` as a
/// big-endian integer (it panics when `buf` holds fewer than four).
#[verifier::external_body]
fn read_be_u32(buf: &[u8]) -> (r: u32)
    requires
        buf@.len() >= 4,
    ensures
        r == be_u32(buf@),
{
    <byteorder::BigEndian as byteorder::ByteOrder>::read_u32(buf)
}

/// A sequential byte source over an in-memory buffer.
pub struct Reader {
    bytes: Vec<u8>,
    pos: usize,
}

impl View for Reader {
    type V = Seq<u8>;

    /// The bytes not read yet.
    closed spec fn view(&self) -> Seq<u8> {
        self.bytes@.subrange(self.pos as int, self.bytes@.len() as int)
    }
}

impl Reader {
    pub closed spec fn wf(&self) -> bool {
        self.pos <= self.bytes@.len()
    }

    /// A reader positioned at the start of `bytes`.
    pub fn new(bytes: Vec<u8>) -> (r: Reader)
        ensures
            r.wf(),
            r@ == bytes@,
    {
        let r = Reader { bytes, pos: 0 };
        assert(r@ =~= r.bytes@);
        r
    }

    /// How many bytes are left to read.
    pub fn remaining(&self) -> (n: usize)
        requires
            self.wf(),
        ensures
            n == self@.len(),
    {
        self.bytes.len() - self.pos
    }

    /// Reads exactly `n` bytes, or fails with `TruncatedInput` when fewer are left.
    pub fn read_bytes(&mut self, n: usize) -> (res: Result<Vec<u8>, DecodeError>)
        requires
            old(self).wf(),
        ensures
            final(self).wf(),
            match res {
                Ok(v) => n <= old(self)@.len() && v@ == old(self)@.take(n as int)
                    && final(self)@ == old(self)@.skip(n as int),
                Err(e) => n > old(self)@.len() && e == DecodeError::TruncatedInput,
            },
    {
        if n > self.bytes.len() - self.pos {
            return Err(DecodeError::TruncatedInput);
        }
        let ghost start = self@;
        let mut v: Vec<u8> = Vec::new();
        let mut i: usize = 0;
        while i < n
            invariant
                self.wf(),
                self@ == start,
                i <= n,
                self.pos + n <= self.bytes.len(),
                v@ == start.take(i as int),
            decreases n - i,
        {
            v.push(self.bytes[self.pos + i]);
            i = i + 1;
            assert(v@ =~= start.take(i as int));
        }
        self.pos = self.pos + n;
        assert(self@ =~= start.skip(n as int));
        Ok(v)
    }

    /// Reads a big-endian `u32`, or fails with `TruncatedInput` when fewer than four
    /// bytes are left.
    pub fn read_u32_be(&mut self) -> (res: Result<u32, DecodeError>)
        requires
            old(self).wf(),
        ensures
            final(self).wf(),
            match res {
                Ok(v) => 4 <= old(self)@.len() && v == be_u32(old(self)@)
                    && final(self)@ == old(self)@.skip(4),
                Err(e) => old(self)@.len() < 4 && e == DecodeError::TruncatedInput,
            },
    {
        let b = match self.read_bytes(4) {
            Ok(b) => b,
            Err(e) => return Err(e),
        };
        Ok(read_be_u32(b.as_slice()))
    }
}

/// The big-endian `u32` at `start` in `b`.
pub fn be_u32_at(b: &Vec<u8>, start: usize) -> (r: u32)
    requires
        start + 4 <= b.len(),
    ensures
        r == be_u32(b@.skip(start as int)),
{
    let s = vstd::slice::slice_subrange(b.as_slice(), start, start + 4);
    let r = read_be_u32(s);
    assert(r == be_u32(b@.skip(start as int)));
    r
}

} // verus!
