//! An in-memory byte stream with a read position.

use vstd::prelude::*;
use crate::error::WaveError;

verus! {

/// How many bytes of a stream of length `len` lie at or after `pos`.
pub open spec fn remaining(len: nat, pos: u64) -> nat {
    if pos as nat <= len {
        (len - pos as nat) as nat
    } else {
        0
    }
}

/// What reading `n` bytes at `pos` yields: the bytes, or the shortfall.
/// Reading nothing succeeds at every position.
pub open spec fn read_at(bytes: Seq<u8>, pos: u64, n: u64) -> Result<Seq<u8>, WaveError> {
    if n == 0 {
        Ok(Seq::empty())
    } else if n as nat <= remaining(bytes.len(), pos) {
        Ok(bytes.subrange(pos as int, pos as int + n as int))
    } else {
        Err(
            WaveError::Truncated {
                offset: pos,
                expected: n,
                available: remaining(bytes.len(), pos) as u64,
            },
        )
    }
}

/// Where a relative move by `delta` from `pos` lands, if that is a position.
pub open spec fn seek_target(pos: u64, delta: i64) -> Result<u64, WaveError> {
    if 0 <= pos as int + delta as int <= u64::MAX as int {
        Ok((pos as int + delta as int) as u64)
    } else {
        Err(WaveError::InvalidSeek { offset: pos, delta })
    }
}

/// A readable, seekable view of a byte buffer. The position may lie past the
/// end of the buffer; a read there finds nothing.
pub struct ByteCursor {
    data: Vec<u8>,
    pos: u64,
}

impl ByteCursor {
    /// The whole stream.
    pub closed spec fn bytes(&self) -> Seq<u8> {
        self.data@
    }

    /// The current absolute position.
    pub closed spec fn pos(&self) -> u64 {
        self.pos
    }

    /// Every place in the stream is a position.
    pub proof fn lemma_stream_bounded(&self)
        ensures
            self.bytes().len() <= usize::MAX,
    {
        assert(self.data.len() == self.data@.len());
    }

    /// A cursor at the start of `data`.
    pub fn new(data: Vec<u8>) -> (cursor: ByteCursor)
        ensures
            cursor.bytes() == data@,
            cursor.pos() == 0,
    {
        ByteCursor { data, pos: 0 }
    }

    /// The current absolute position.
    pub fn current_position(&self) -> (p: u64)
        ensures
            p == self.pos(),
    {
        self.pos
    }

    /// How many bytes are left to read.
    pub fn available(&self) -> (n: u64)
        ensures
            n == remaining(self.bytes().len(), self.pos()),
    {
        let len: usize = self.data.len();
        if self.pos <= len as u64 {
            len as u64 - self.pos
        } else {
            0
        }
    }

    /// Reads exactly `n` bytes and advances past them. A short stream is
    /// reported and leaves the cursor where it was.
    pub fn read_exact(&mut self, n: u64) -> (r: Result<Vec<u8>, WaveError>)
        ensures
            final(self).bytes() == old(self).bytes(),
            match read_at(old(self).bytes(), old(self).pos(), n) {
                Ok(s) => r is Ok && r->Ok_0@ == s && final(self).pos() == old(self).pos() + n,
                Err(e) => r == Err::<Vec<u8>, WaveError>(e) && final(self).pos() == old(self).pos(),
            },
    {
        if n == 0 {
            return Ok(Vec::new());
        }
        let avail: u64 = self.available();
        if n > avail {
            return Err(WaveError::Truncated { offset: self.pos, expected: n, available: avail });
        }
        let len: usize = self.data.len();
        let start: usize = self.pos as usize;
        let count: usize = n as usize;
        let mut out: Vec<u8> = Vec::with_capacity(count);
        let mut i: usize = 0;
        while i < count
            invariant
                i <= count,
                start + count <= len == self.data@.len(),
                out@ == self.data@.subrange(start as int, start + i),
            decreases count - i,
        {
            out.push(self.data[start + i]);
            i += 1;
        }
        self.pos = self.pos + n;
        Ok(out)
    }

    /// Moves the position by `delta`. A move that would leave the range of
    /// positions is reported and leaves the cursor where it was.
    pub fn seek_relative(&mut self, delta: i64) -> (r: Result<u64, WaveError>)
        ensures
            final(self).bytes() == old(self).bytes(),
            r == seek_target(old(self).pos(), delta),
            final(self).pos() == match r {
                Ok(p) => p,
                Err(_) => old(self).pos(),
            },
    {
        if delta >= 0 {
            let step: u64 = delta as u64;
            if step > u64::MAX - self.pos {
                return Err(WaveError::InvalidSeek { offset: self.pos, delta });
            }
            self.pos = self.pos + step;
        } else {
            let back: u64 = (-(delta + 1)) as u64 + 1;
            if back > self.pos {
                return Err(WaveError::InvalidSeek { offset: self.pos, delta });
            }
            self.pos = self.pos - back;
        }
        Ok(self.pos)
    }
}

} // verus!
