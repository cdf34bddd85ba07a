//! In-memory byte source with little-endian fixed-width integer reads.
//!
//! The reader stands for the stream the protocol field arrives on: it owns
//! the bytes that have arrived and a cursor, hands out primitive integers in
//! wire order, and reports when the declared field runs past the bytes it
//! holds. A failed read consumes nothing.

use vstd::prelude::*;
use crate::error::Error;

verus! {

/// The unsigned value of four bytes read little-endian.
pub open spec fn le_u32(b: Seq<u8>) -> int
    recommends
        b.len() == 4,
{
    b[0] + b[1] * 0x100 + b[2] * 0x1_0000 + b[3] * 0x100_0000
}

/// The signed 32-bit (two's complement) reading of the unsigned value `n`.
pub open spec fn signed32(n: int) -> int
    recommends
        0 <= n < 0x1_0000_0000,
{
    if n < 0x8000_0000 {
        n
    } else {
        n - 0x1_0000_0000
    }
}

/// A byte source over bytes held in memory.
#[derive(Debug)]
pub struct ByteReader {
    bytes: Vec<u8>,
    pos: usize,
}

impl ByteReader {
    /// All bytes the reader was created over.
    pub closed spec fn data(self) -> Seq<u8> {
        self.bytes@
    }

    /// How many bytes have been consumed so far.
    pub closed spec fn position(self) -> int {
        self.pos as int
    }

    /// The cursor never points past the end of the bytes.
    pub open spec fn wf(self) -> bool {
        0 <= self.position() <= self.data().len()
    }

    /// The bytes not yet consumed, in the order they will be read.
    pub open spec fn remaining(self) -> Seq<u8> {
        self.data().subrange(self.position(), self.data().len() as int)
    }

    /// Creates a reader over `bytes`, with nothing consumed yet.
    pub fn new(bytes: Vec<u8>) -> (r: ByteReader)
        ensures
            r.wf(),
            r.data() == bytes@,
            r.position() == 0,
    {
        ByteReader { bytes, pos: 0 }
    }

    /// How many bytes are left to read.
    pub fn remaining_len(&self) -> (n: usize)
        requires
            self.wf(),
        ensures
            n == self.remaining().len(),
    {
        self.bytes.len() - self.pos
    }

    /// Reads one little-endian unsigned 32-bit integer, or fails without
    /// consuming anything when fewer than four bytes are left.
    pub fn read_u32_le(&mut self) -> (r: Result<u32, Error>)
        requires
            old(self).wf(),
        ensures
            final(self).wf(),
            final(self).data() == old(self).data(),
            old(self).remaining().len() >= 4 ==> {
                &&& r matches Ok(v) && v as int == le_u32(old(self).remaining().take(4))
                &&& final(self).position() == old(self).position() + 4
            },
            old(self).remaining().len() < 4 ==> {
                &&& r == Err::<u32, Error>(Error::UnexpectedEof)
                &&& *final(self) == *old(self)
            },
    {
        if self.bytes.len() - self.pos >= 4 {
            let b0 = self.bytes[self.pos];
            let b1 = self.bytes[self.pos + 1];
            let b2 = self.bytes[self.pos + 2];
            let b3 = self.bytes[self.pos + 3];
            let v: u32 = (b0 as u32) + (b1 as u32) * 0x100 + (b2 as u32) * 0x1_0000 + (b3 as u32)
                * 0x100_0000;
            self.pos = self.pos + 4;
            proof {
                let w = old(self).remaining().take(4);
                assert(w[0] == b0 && w[1] == b1 && w[2] == b2 && w[3] == b3);
            }
            Ok(v)
        } else {
            Err(Error::UnexpectedEof)
        }
    }

    /// Reads one little-endian signed 32-bit integer, or fails without
    /// consuming anything when fewer than four bytes are left.
    pub fn read_i32_le(&mut self) -> (r: Result<i32, Error>)
        requires
            old(self).wf(),
        ensures
            final(self).wf(),
            final(self).data() == old(self).data(),
            old(self).remaining().len() >= 4 ==> {
                &&& r matches Ok(v) && v as int == signed32(le_u32(old(self).remaining().take(4)))
                &&& final(self).position() == old(self).position() + 4
            },
            old(self).remaining().len() < 4 ==> {
                &&& r == Err::<i32, Error>(Error::UnexpectedEof)
                &&& *final(self) == *old(self)
            },
    {
        match self.read_u32_le() {
            Ok(u) => {
                let v: i32 = if u < 0x8000_0000 {
                    u as i32
                } else {
                    -((0xFFFF_FFFFu32 - u) as i32) - 1
                };
                Ok(v)
            },
            Err(e) => Err(e),
        }
    }
}

} // verus!
