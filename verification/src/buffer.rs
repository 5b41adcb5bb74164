//! A fixed-capacity byte store with bounds-checked reads.
//!
//! Every read that would run past the declared payload length fails closed
//! with `InvalidPayload` and mutates nothing: the methods that read take
//! `&self`, so a failed read has no side effect at all.

use vstd::prelude::*;
use vstd::slice::slice_index_get;
use crate::errors::AppSW;
use crate::BUFFER_CAPACITY;

verus! {

/// The big-endian 16-bit value stored at offset `i` of `s`.
pub open spec fn u16_be(s: Seq<u8>, i: int) -> int {
    s[i] * 256 + s[i + 1]
}

/// A byte store of fixed capacity `BUFFER_CAPACITY`. The first `pos` bytes of
/// `data` are the currently valid payload; the rest is scratch space.
pub struct Buffer {
    data: Vec<u8>,
    pos: usize,
}

impl Buffer {
    /// The valid payload bytes.
    pub closed spec fn view(self) -> Seq<u8> {
        self.data@.subrange(0, self.pos as int)
    }

    /// Structural invariant: the backing storage has exactly the fixed
    /// capacity and the valid length never exceeds it.
    pub closed spec fn wf(self) -> bool {
        self.pos <= self.data@.len() && self.data@.len() == BUFFER_CAPACITY
    }

    /// A fresh, empty buffer.
    pub fn new() -> (r: Buffer)
        ensures
            r.wf(),
            r@ == Seq::<u8>::empty(),
    {
        let mut data: Vec<u8> = Vec::new();
        let mut i: usize = 0;
        while i < BUFFER_CAPACITY
            invariant
                i <= BUFFER_CAPACITY,
                data@.len() == i,
            decreases BUFFER_CAPACITY - i,
        {
            data.push(0u8);
            i = i + 1;
        }
        let r = Buffer { data, pos: 0 };
        assert(r@ =~= Seq::<u8>::empty());
        r
    }

    /// Number of valid bytes.
    pub fn len(&self) -> (r: usize)
        requires
            self.wf(),
        ensures
            r == self@.len(),
            r <= BUFFER_CAPACITY,
    {
        self.pos
    }

    /// Drop the valid payload, keeping the storage.
    pub fn reset(&mut self)
        requires
            old(self).wf(),
        ensures
            final(self).wf(),
            final(self)@ == Seq::<u8>::empty(),
    {
        self.pos = 0;
        assert(self@ =~= Seq::<u8>::empty());
    }

    /// Append `chunk` after the valid payload. Fails with `CapacityError`,
    /// mutating nothing, if the result would exceed the fixed capacity.
    pub fn append(&mut self, chunk: &[u8]) -> (r: Result<(), AppSW>)
        requires
            old(self).wf(),
        ensures
            final(self).wf(),
            old(self)@.len() + chunk@.len() <= BUFFER_CAPACITY ==> {
                &&& r == Ok::<(), AppSW>(())
                &&& final(self)@ == old(self)@ + chunk@
            },
            old(self)@.len() + chunk@.len() > BUFFER_CAPACITY ==> {
                &&& r == Err::<(), AppSW>(AppSW::CapacityError)
                &&& final(self)@ == old(self)@
            },
    {
        if chunk.len() > BUFFER_CAPACITY - self.pos {
            return Err(AppSW::CapacityError);
        }
        let n = chunk.len();
        let base = self.pos;
        assert(self.data@.subrange(base as int, base as int) =~= chunk@.subrange(0, 0));
        let mut i: usize = 0;
        while i < n
            invariant
                i <= n,
                n == chunk@.len(),
                base + n <= BUFFER_CAPACITY,
                self.pos == base,
                self.data@.len() == BUFFER_CAPACITY,
                self.data@.subrange(0, base as int) == old(self)@,
                self.data@.subrange(base as int, base + i) == chunk@.subrange(0, i as int),
            decreases n - i,
        {
            let b = *slice_index_get(chunk, i);
            self.data.set(base + i, b);
            assert(self.data@.subrange(0, base as int) =~= old(self)@);
            assert(self.data@.subrange(base as int, base + i + 1)
                =~= chunk@.subrange(0, i + 1));
            i = i + 1;
        }
        self.pos = base + n;
        assert(chunk@.subrange(0, n as int) =~= chunk@);
        assert(self.data@.subrange(0, base + n) =~= self.data@.subrange(0, base as int)
            + self.data@.subrange(base as int, base + n));
        assert(self@ =~= old(self)@ + chunk@);
        Ok(())
    }

    /// Read the big-endian 16-bit value at `offset`. Fails with
    /// `InvalidPayload` if the two bytes are not within the valid payload.
    pub fn get_u16(&self, offset: usize) -> (r: Result<usize, AppSW>)
        requires
            self.wf(),
        ensures
            offset + 2 <= self@.len() ==> r == Ok::<usize, AppSW>(
                (u16_be(self@, offset as int) as usize),
            ),
            offset + 2 > self@.len() ==> r == Err::<usize, AppSW>(AppSW::InvalidPayload),
            r is Ok ==> r->Ok_0 < 65536,
    {
        if offset >= self.pos || self.pos - offset < 2 {
            return Err(AppSW::InvalidPayload);
        }
        let hi = self.data[offset];
        let lo = self.data[offset + 1];
        let v = (hi as usize) * 256 + (lo as usize);
        assert(self@[offset as int] == self.data@[offset as int]);
        assert(self@[offset + 1] == self.data@[offset + 1]);
        Ok(v)
    }

    /// Copy out the valid bytes in `start .. end`. Fails with
    /// `InvalidPayload` if the range is not entirely within the valid
    /// payload.
    pub fn get_slice(&self, start: usize, end: usize) -> (r: Result<Vec<u8>, AppSW>)
        requires
            self.wf(),
        ensures
            start <= end <= self@.len() ==> {
                &&& r is Ok
                &&& r->Ok_0@ == self@.subrange(start as int, end as int)
            },
            !(start <= end <= self@.len()) ==> r == Err::<Vec<u8>, AppSW>(AppSW::InvalidPayload),
    {
        if start > end || end > self.pos {
            return Err(AppSW::InvalidPayload);
        }
        let mut out: Vec<u8> = Vec::new();
        let mut i: usize = start;
        while i < end
            invariant
                start <= i <= end,
                end <= self.pos,
                self.wf(),
                out@ == self.data@.subrange(start as int, i as int),
            decreases end - i,
        {
            out.push(self.data[i]);
            assert(out@ =~= self.data@.subrange(start as int, i + 1));
            i = i + 1;
        }
        assert(out@ =~= self@.subrange(start as int, end as int));
        Ok(out)
    }
}

} // verus!
