//! A sequential byte-stream reader with endianness-aware numeric reads.

use vstd::prelude::*;

use crate::header::DecodeError;
use crate::header::Endianness;

verus! {

/// The value a little- or big-endian pair of bytes encodes.
pub open spec fn word16(b0: u8, b1: u8, e: Endianness) -> u16 {
    match e {
        Endianness::Little => (b0 + 0x100 * b1) as u16,
        Endianness::Big => (b1 + 0x100 * b0) as u16,
    }
}

/// The value four bytes encode in the given byte order.
pub open spec fn word32(b0: u8, b1: u8, b2: u8, b3: u8, e: Endianness) -> u32 {
    match e {
        Endianness::Little => (b0 + 0x100 * b1 + 0x1_0000 * b2 + 0x100_0000 * b3) as u32,
        Endianness::Big => (b3 + 0x100 * b2 + 0x1_0000 * b1 + 0x100_0000 * b0) as u32,
    }
}

/// The value eight bytes encode in the given byte order.
pub open spec fn word64(
    b0: u8,
    b1: u8,
    b2: u8,
    b3: u8,
    b4: u8,
    b5: u8,
    b6: u8,
    b7: u8,
    e: Endianness,
) -> u64 {
    match e {
        Endianness::Little => (b0 + 0x100 * b1 + 0x1_0000 * b2 + 0x100_0000 * b3 + 0x1_0000_0000
            * b4 + 0x100_0000_0000 * b5 + 0x1_0000_0000_0000 * b6 + 0x100_0000_0000_0000
            * b7) as u64,
        Endianness::Big => (b7 + 0x100 * b6 + 0x1_0000 * b5 + 0x100_0000 * b4 + 0x1_0000_0000 * b3
            + 0x100_0000_0000 * b2 + 0x1_0000_0000_0000 * b1 + 0x100_0000_0000_0000 * b0) as u64,
    }
}

/// The abstract state of a [`Reader`]: the whole underlying byte stream, the
/// read cursor, and the endianness once it has been resolved.
pub struct ReaderModel {
    /// Every byte of the underlying stream.
    pub data: Seq<u8>,
    /// How many bytes have been consumed so far.
    pub pos: nat,
    /// The resolved endianness, absent until set.
    pub endianness: Option<Endianness>,
}

/// A sequential reader over an in-memory byte stream. It hands out raw bytes
/// on demand and, once an endianness has been registered with
/// [`Reader::set_endianness`], endianness-aware 16/32/64-bit unsigned reads.
pub struct Reader {
    data: Vec<u8>,
    pos: usize,
    endianness: Option<Endianness>,
}

impl View for Reader {
    type V = ReaderModel;

    closed spec fn view(&self) -> ReaderModel {
        ReaderModel { data: self.data@, pos: self.pos as nat, endianness: self.endianness }
    }
}

impl Reader {
    /// The reader never holds a cursor beyond the end of its stream.
    pub open spec fn wf(&self) -> bool {
        self@.pos <= self@.data.len()
    }

    /// The bytes not yet consumed, in stream order.
    pub open spec fn remaining(&self) -> Seq<u8> {
        self@.data.subrange(self@.pos as int, self@.data.len() as int)
    }

    /// Wraps a byte stream; the cursor starts at the first byte and no
    /// endianness is resolved yet.
    pub fn new(data: Vec<u8>) -> (r: Reader)
        ensures
            r.wf(),
            r@.data == data@,
            r@.pos == 0,
            r@.endianness is None,
    {
        Reader { data, pos: 0, endianness: None }
    }

    /// How many bytes have been consumed so far.
    pub fn position(&self) -> (r: usize)
        ensures
            r == self@.pos,
    {
        self.pos
    }

    /// Registers the resolved endianness; every later multi-byte numeric read
    /// interprets its bytes in this order.
    pub fn set_endianness(&mut self, e: Endianness)
        ensures
            final(self)@.data == old(self)@.data,
            final(self)@.pos == old(self)@.pos,
            final(self)@.endianness == Some(e),
    {
        self.endianness = Some(e);
    }

    /// Reads one raw byte, advancing the cursor past it; fails with
    /// [`DecodeError::Truncated`], leaving the cursor in place, when the
    /// stream is exhausted.
    pub fn byte(&mut self) -> (r: Result<u8, DecodeError>)
        requires
            old(self).wf(),
        ensures
            final(self).wf(),
            final(self)@.data == old(self)@.data,
            final(self)@.endianness == old(self)@.endianness,
            match r {
                Ok(b) => old(self)@.pos + 1 <= old(self)@.data.len() && final(self)@.pos == old(self)@.pos + 1 && b == old(self)@.data[old(self)@.pos as int],
                Err(e) => e == DecodeError::Truncated && old(self)@.pos == old(self)@.data.len()
                    && final(self)@.pos == old(self)@.pos,
            },
    {
        if self.pos < self.data.len() {
            let b = self.data[self.pos];
            self.pos = self.pos + 1;
            Ok(b)
        } else {
            Err(DecodeError::Truncated)
        }
    }

    /// Reads exactly `N` raw bytes into a fixed-size array, advancing the
    /// cursor past them; fails with [`DecodeError::Truncated`], leaving the
    /// cursor in place, when fewer than `N` bytes remain.
    pub fn bytes<const N: usize>(&mut self) -> (r: Result<[u8; N], DecodeError>)
        requires
            old(self).wf(),
        ensures
            final(self).wf(),
            final(self)@.data == old(self)@.data,
            final(self)@.endianness == old(self)@.endianness,
            match r {
                Ok(v) => old(self)@.pos + N <= old(self)@.data.len() && final(self)@.pos == old(
                    self,
                )@.pos + N && v@ == old(self)@.data.subrange(
                    old(self)@.pos as int,
                    old(self)@.pos as int + N,
                ),
                Err(e) => e == DecodeError::Truncated && old(self)@.pos + N > old(
                    self,
                )@.data.len() && final(self)@.pos == old(self)@.pos,
            },
    {
        if N > self.data.len() - self.pos {
            return Err(DecodeError::Truncated);
        }
        let mut a: [u8; N] = [0; N];
        let mut i: usize = 0;
        while i < N
            invariant
                i <= N,
                self@.data == old(self)@.data,
                self@.pos == old(self)@.pos,
                self@.endianness == old(self)@.endianness,
                old(self).wf(),
                old(self)@.pos + N <= old(self)@.data.len(),
                old(self)@.data.len() <= usize::MAX,
                a@.len() == N,
                forall|k: int| 0 <= k < i ==> a@[k] == old(self)@.data[old(self)@.pos as int + k],
            decreases N - i,
        {
            a[i] = self.data[self.pos + i];
            i = i + 1;
        }
        self.pos = self.pos + N;
        proof {
            assert(a@ =~= old(self)@.data.subrange(
                old(self)@.pos as int,
                old(self)@.pos as int + N,
            ));
        }
        Ok(a)
    }

    /// Reads exactly `count` raw bytes, advancing the cursor past them; fails
    /// with [`DecodeError::Truncated`], leaving the cursor in place, when
    /// fewer than `count` bytes remain. No interpretation of the bytes.
    pub fn bytes_dynamic(&mut self, count: usize) -> (r: Result<Vec<u8>, DecodeError>)
        requires
            old(self).wf(),
        ensures
            final(self).wf(),
            final(self)@.data == old(self)@.data,
            final(self)@.endianness == old(self)@.endianness,
            match r {
                Ok(v) => old(self)@.pos + count <= old(self)@.data.len() && final(self)@.pos == old(self)@.pos + count && v@ == old(self)@.data.subrange(
                    old(self)@.pos as int,
                    old(self)@.pos + count,
                ),
                Err(e) => e == DecodeError::Truncated && old(self)@.pos + count > old(self)@.data.len() && final(self)@.pos == old(self)@.pos,
            },
    {
        if count > self.data.len() - self.pos {
            return Err(DecodeError::Truncated);
        }
        let mut v: Vec<u8> = Vec::new();
        let mut i: usize = 0;
        while i < count
            invariant
                i <= count,
                self@.data == old(self)@.data,
                self@.pos == old(self)@.pos,
                self@.endianness == old(self)@.endianness,
                old(self).wf(),
                old(self)@.pos + count <= old(self)@.data.len(),
                old(self)@.data.len() <= usize::MAX,
                v@ == old(self)@.data.subrange(old(self)@.pos as int, old(self)@.pos + i),
            decreases count - i,
        {
            v.push(self.data[self.pos + i]);
            i = i + 1;
            proof {
                assert(v@ =~= old(self)@.data.subrange(old(self)@.pos as int, old(self)@.pos + i));
            }
        }
        self.pos = self.pos + count;
        Ok(v)
    }

    /// Reads two bytes and interprets them as one `u16` in the resolved byte
    /// order; fails with [`DecodeError::EndiannessNotResolved`] when no
    /// endianness has been set, or [`DecodeError::Truncated`] when fewer than
    /// two bytes remain, consuming nothing in either case.
    pub fn u16(&mut self) -> (r: Result<u16, DecodeError>)
        requires
            old(self).wf(),
        ensures
            final(self).wf(),
            final(self)@.data == old(self)@.data,
            final(self)@.endianness == old(self)@.endianness,
            match r {
                Ok(v) => old(self)@.endianness matches Some(e) && old(self)@.pos + 2 <= old(self)@.data.len() && final(self)@.pos == old(self)@.pos + 2 && v == word16(
                    old(self)@.data[old(self)@.pos as int],
                    old(self)@.data[old(self)@.pos as int + 1],
                    e,
                ),
                Err(err) => final(self)@.pos == old(self)@.pos && match err {
                    DecodeError::EndiannessNotResolved => old(self)@.endianness is None,
                    DecodeError::Truncated => old(self)@.endianness is Some && old(self)@.pos + 2
                        > old(self)@.data.len(),
                    _ => false,
                },
            },
    {
        let e = match self.endianness {
            Some(e) => e,
            None => {
                return Err(DecodeError::EndiannessNotResolved);
            },
        };
        if self.data.len() - self.pos < 2 {
            return Err(DecodeError::Truncated);
        }
        let b0 = self.data[self.pos];
        let b1 = self.data[self.pos + 1];
        self.pos = self.pos + 2;
        match e {
            Endianness::Little => Ok(b0 as u16 + 0x100 * (b1 as u16)),
            Endianness::Big => Ok(b1 as u16 + 0x100 * (b0 as u16)),
        }
    }

    /// Reads four bytes and interprets them as one `u32` in the resolved byte
    /// order; the failure conditions are those of [`Reader::u16`].
    pub fn u32(&mut self) -> (r: Result<u32, DecodeError>)
        requires
            old(self).wf(),
        ensures
            final(self).wf(),
            final(self)@.data == old(self)@.data,
            final(self)@.endianness == old(self)@.endianness,
            match r {
                Ok(v) => old(self)@.endianness matches Some(e) && old(self)@.pos + 4 <= old(self)@.data.len() && final(self)@.pos == old(self)@.pos + 4 && v == word32(
                    old(self)@.data[old(self)@.pos as int],
                    old(self)@.data[old(self)@.pos as int + 1],
                    old(self)@.data[old(self)@.pos as int + 2],
                    old(self)@.data[old(self)@.pos as int + 3],
                    e,
                ),
                Err(err) => final(self)@.pos == old(self)@.pos && match err {
                    DecodeError::EndiannessNotResolved => old(self)@.endianness is None,
                    DecodeError::Truncated => old(self)@.endianness is Some && old(self)@.pos + 4
                        > old(self)@.data.len(),
                    _ => false,
                },
            },
    {
        let e = match self.endianness {
            Some(e) => e,
            None => {
                return Err(DecodeError::EndiannessNotResolved);
            },
        };
        if self.data.len() - self.pos < 4 {
            return Err(DecodeError::Truncated);
        }
        let b0 = self.data[self.pos];
        let b1 = self.data[self.pos + 1];
        let b2 = self.data[self.pos + 2];
        let b3 = self.data[self.pos + 3];
        self.pos = self.pos + 4;
        match e {
            Endianness::Little => Ok(
                b0 as u32 + 0x100 * (b1 as u32) + 0x1_0000 * (b2 as u32) + 0x100_0000 * (
                b3 as u32),
            ),
            Endianness::Big => Ok(
                b3 as u32 + 0x100 * (b2 as u32) + 0x1_0000 * (b1 as u32) + 0x100_0000 * (
                b0 as u32),
            ),
        }
    }

    /// Reads eight bytes and interprets them as one `u64` in the resolved
    /// byte order; the failure conditions are those of [`Reader::u16`].
    pub fn u64(&mut self) -> (r: Result<u64, DecodeError>)
        requires
            old(self).wf(),
        ensures
            final(self).wf(),
            final(self)@.data == old(self)@.data,
            final(self)@.endianness == old(self)@.endianness,
            match r {
                Ok(v) => old(self)@.endianness matches Some(e) && old(self)@.pos + 8 <= old(self)@.data.len() && final(self)@.pos == old(self)@.pos + 8 && v == word64(
                    old(self)@.data[old(self)@.pos as int],
                    old(self)@.data[old(self)@.pos as int + 1],
                    old(self)@.data[old(self)@.pos as int + 2],
                    old(self)@.data[old(self)@.pos as int + 3],
                    old(self)@.data[old(self)@.pos as int + 4],
                    old(self)@.data[old(self)@.pos as int + 5],
                    old(self)@.data[old(self)@.pos as int + 6],
                    old(self)@.data[old(self)@.pos as int + 7],
                    e,
                ),
                Err(err) => final(self)@.pos == old(self)@.pos && match err {
                    DecodeError::EndiannessNotResolved => old(self)@.endianness is None,
                    DecodeError::Truncated => old(self)@.endianness is Some && old(self)@.pos + 8
                        > old(self)@.data.len(),
                    _ => false,
                },
            },
    {
        let e = match self.endianness {
            Some(e) => e,
            None => {
                return Err(DecodeError::EndiannessNotResolved);
            },
        };
        if self.data.len() - self.pos < 8 {
            return Err(DecodeError::Truncated);
        }
        let b0 = self.data[self.pos];
        let b1 = self.data[self.pos + 1];
        let b2 = self.data[self.pos + 2];
        let b3 = self.data[self.pos + 3];
        let b4 = self.data[self.pos + 4];
        let b5 = self.data[self.pos + 5];
        let b6 = self.data[self.pos + 6];
        let b7 = self.data[self.pos + 7];
        self.pos = self.pos + 8;
        match e {
            Endianness::Little => Ok(
                b0 as u64 + 0x100 * (b1 as u64) + 0x1_0000 * (b2 as u64) + 0x100_0000 * (b3 as u64)
                    + 0x1_0000_0000 * (b4 as u64) + 0x100_0000_0000 * (b5 as u64)
                    + 0x1_0000_0000_0000 * (b6 as u64) + 0x100_0000_0000_0000 * (b7 as u64),
            ),
            Endianness::Big => Ok(
                b7 as u64 + 0x100 * (b6 as u64) + 0x1_0000 * (b5 as u64) + 0x100_0000 * (b4 as u64)
                    + 0x1_0000_0000 * (b3 as u64) + 0x100_0000_0000 * (b2 as u64)
                    + 0x1_0000_0000_0000 * (b1 as u64) + 0x100_0000_0000_0000 * (b0 as u64),
            ),
        }
    }
}

} // verus!
