//! A forward-moving byte reader over an owned buffer, the way the game data is consumed.
use byteorder::{BigEndian, ByteOrder, LittleEndian};
use vstd::prelude::*;

verus! {

/// The unsigned value of two bytes in little-endian order.
pub open spec fn le16(s: Seq<u8>, i: int) -> int {
    s[i] + 256 * s[i + 1]
}

/// The unsigned value of four bytes in little-endian order.
pub open spec fn le32(s: Seq<u8>, i: int) -> int {
    s[i] + 256 * s[i + 1] + 65536 * s[i + 2] + 16777216 * s[i + 3]
}

/// The unsigned value of four bytes in big-endian order.
pub open spec fn be32(s: Seq<u8>, i: int) -> int {
    s[i + 3] + 256 * s[i + 2] + 65536 * s[i + 1] + 16777216 * s[i]
}

/// The signed value of a byte, in two's complement.
pub open spec fn signed8(b: u8) -> int {
    if b < 128 { b as int } else { b - 256 }
}

/// `byteorder::LittleEndian::read_u16` on the buffer from `pos` on; the crate reads the first two
/// bytes of the slice as a little-endian number.
#[verifier::external_body]
fn le_u16_at(data: &Vec<u8>, pos: usize) -> (v: u16)
    requires
        pos + 2 <= data.len(),
    ensures
        v == le16(data@, pos as int),
{
    LittleEndian::read_u16(&data[pos..])
}

/// `byteorder::LittleEndian::read_u32` on the buffer from `pos` on; the crate reads the first four
/// bytes of the slice as a little-endian number.
#[verifier::external_body]
fn le_u32_at(data: &Vec<u8>, pos: usize) -> (v: u32)
    requires
        pos + 4 <= data.len(),
    ensures
        v == le32(data@, pos as int),
{
    LittleEndian::read_u32(&data[pos..])
}

/// `byteorder::BigEndian::read_u32` on the buffer from `pos` on; the crate reads the first four
/// bytes of the slice as a big-endian number.
#[verifier::external_body]
fn be_u32_at(data: &Vec<u8>, pos: usize) -> (v: u32)
    requires
        pos + 4 <= data.len(),
    ensures
        v == be32(data@, pos as int),
{
    BigEndian::read_u32(&data[pos..])
}

/// A cursor over owned bytes: reads advance the position, seeks move it.
pub struct ByteReader {
    pub data: Vec<u8>,
    pub pos: usize,
}

impl ByteReader {
    /// A reader at the start of `data`.
    pub fn new(data: Vec<u8>) -> (r: ByteReader)
        ensures
            r.data@ == data@,
            r.pos == 0,
    {
        ByteReader { data, pos: 0 }
    }

    /// The number of bytes in the buffer.
    pub fn len(&self) -> (n: usize)
        ensures
            n == self.data@.len(),
    {
        self.data.len()
    }

    /// Moves to an absolute position.
    pub fn seek(&mut self, pos: usize)
        ensures
            final(self).data@ == old(self).data@,
            final(self).pos == pos,
    {
        self.pos = pos;
    }

    /// Whether `n` more bytes can be read.
    pub fn has(&self, n: usize) -> (b: bool)
        ensures
            b == (self.pos + n <= self.data@.len()),
    {
        self.pos <= self.data.len() && n <= self.data.len() - self.pos
    }

    /// Reads one byte.
    pub fn read_u8(&mut self) -> (v: u8)
        requires
            old(self).pos + 1 <= old(self).data@.len(),
        ensures
            final(self).data@ == old(self).data@,
            final(self).pos == old(self).pos + 1,
            v == old(self).data@[old(self).pos as int],
    {
        let v = self.data[self.pos];
        let _n = self.data.len();
        self.pos = self.pos + 1;
        v
    }

    /// Reads one byte as a signed number.
    pub fn read_i8(&mut self) -> (v: i8)
        requires
            old(self).pos + 1 <= old(self).data@.len(),
        ensures
            final(self).data@ == old(self).data@,
            final(self).pos == old(self).pos + 1,
            v == signed8(old(self).data@[old(self).pos as int]),
    {
        let b = self.data[self.pos];
        let _n = self.data.len();
        self.pos = self.pos + 1;
        let v: i8 = if b < 128 { b as i8 } else { (b as i16 - 256) as i8 };
        v
    }

    /// Reads a little-endian 16 bit number.
    pub fn read_u16_le(&mut self) -> (v: u16)
        requires
            old(self).pos + 2 <= old(self).data@.len(),
        ensures
            final(self).data@ == old(self).data@,
            final(self).pos == old(self).pos + 2,
            v == le16(old(self).data@, old(self).pos as int),
    {
        let _n = self.data.len();
        let v = le_u16_at(&self.data, self.pos);
        self.pos = self.pos + 2;
        v
    }

    /// Reads a little-endian 32 bit number.
    pub fn read_u32_le(&mut self) -> (v: u32)
        requires
            old(self).pos + 4 <= old(self).data@.len(),
        ensures
            final(self).data@ == old(self).data@,
            final(self).pos == old(self).pos + 4,
            v == le32(old(self).data@, old(self).pos as int),
    {
        let _n = self.data.len();
        let v = le_u32_at(&self.data, self.pos);
        self.pos = self.pos + 4;
        v
    }

    /// Reads a big-endian 32 bit number.
    pub fn read_u32_be(&mut self) -> (v: u32)
        requires
            old(self).pos + 4 <= old(self).data@.len(),
        ensures
            final(self).data@ == old(self).data@,
            final(self).pos == old(self).pos + 4,
            v == be32(old(self).data@, old(self).pos as int),
    {
        let _n = self.data.len();
        let v = be_u32_at(&self.data, self.pos);
        self.pos = self.pos + 4;
        v
    }

    /// Reads `n` bytes into a new buffer.
    pub fn read_bytes(&mut self, n: usize) -> (v: Vec<u8>)
        requires
            old(self).pos + n <= old(self).data@.len(),
        ensures
            final(self).data@ == old(self).data@,
            final(self).pos == old(self).pos + n,
            v@ == old(self).data@.subrange(old(self).pos as int, old(self).pos + n),
    {
        let mut v: Vec<u8> = Vec::with_capacity(n);
        let start = self.pos;
        let _n = self.data.len();
        let mut i: usize = 0;
        while i < n
            invariant
                i <= n,
                start + n <= self.data@.len(),
                self.data@.len() == _n,
                self.pos == start,
                v@ == self.data@.subrange(start as int, start + i),
            decreases n - i,
        {
            v.push(self.data[start + i]);
            i = i + 1;
        }
        self.pos = start + n;
        v
    }
}

} // verus!
