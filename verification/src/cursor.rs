//! A bounds-checked sequential reader of big-endian values.

use crate::wire::{get_u16, get_u32, u16_at, u32_at};
use crate::{short, Error};
use vstd::prelude::*;
use vstd::slice::slice_subrange;

verus! {

/// A byte slice and a read position in it. Every read either succeeds and
/// advances the position by what it consumed, or fails and leaves it alone.
pub struct ByteCursor<'a> {
    data: &'a [u8],
    pos: usize,
}

impl<'a> ByteCursor<'a> {
    #[verifier::type_invariant]
    spec fn in_bounds(self) -> bool {
        self.pos <= self.data@.len()
    }

    /// The bytes that the cursor reads from.
    pub closed spec fn bytes(&self) -> Seq<u8> {
        self.data@
    }

    /// How many bytes have been consumed.
    pub closed spec fn offset(&self) -> int {
        self.pos as int
    }

    /// How many bytes are still unread.
    pub open spec fn left(&self) -> int {
        self.bytes().len() - self.offset()
    }

    /// A cursor at the start of `data`.
    pub fn new(data: &'a [u8]) -> (c: Self)
        ensures
            c.bytes() == data@,
            c.offset() == 0,
    {
        ByteCursor { data, pos: 0 }
    }

    /// The current read position.
    pub fn position(&self) -> (p: usize)
        ensures
            p == self.offset(),
            p <= self.bytes().len(),
    {
        proof {
            use_type_invariant(self);
        }
        self.pos
    }

    /// The number of unread bytes.
    pub fn remaining(&self) -> (n: usize)
        ensures
            n == self.left(),
    {
        proof {
            use_type_invariant(self);
        }
        self.data.len() - self.pos
    }

    /// Reads one byte.
    pub fn read_u8(&mut self) -> (r: Result<u8, Error>)
        ensures
            final(self).bytes() == old(self).bytes(),
            match r {
                Ok(v) => old(self).left() >= 1 && v == old(self).bytes()[old(self).offset()]
                    && final(self).offset() == old(self).offset() + 1,
                Err(e) => old(self).left() < 1 && e@ == short(1, old(self).left())
                    && final(self).offset() == old(self).offset(),
            },
    {
        proof {
            use_type_invariant(&*self);
        }
        let left = self.data.len() - self.pos;
        if left < 1 {
            return Err(Error::NotEnoughData { expected: 1, actual: left });
        }
        let v = self.data[self.pos];
        self.pos = self.pos + 1;
        Ok(v)
    }

    /// Reads a big-endian `u16`.
    pub fn read_u16(&mut self) -> (r: Result<u16, Error>)
        ensures
            final(self).bytes() == old(self).bytes(),
            match r {
                Ok(v) => old(self).left() >= 2 && v as int == u16_at(
                    old(self).bytes(),
                    old(self).offset(),
                ) && final(self).offset() == old(self).offset() + 2,
                Err(e) => old(self).left() < 2 && e@ == short(2, old(self).left())
                    && final(self).offset() == old(self).offset(),
            },
    {
        proof {
            use_type_invariant(&*self);
        }
        let left = self.data.len() - self.pos;
        if left < 2 {
            return Err(Error::NotEnoughData { expected: 2, actual: left });
        }
        let v = get_u16(self.data, self.pos);
        self.pos = self.pos + 2;
        Ok(v)
    }

    /// Reads a big-endian `u32`.
    pub fn read_u32(&mut self) -> (r: Result<u32, Error>)
        ensures
            final(self).bytes() == old(self).bytes(),
            match r {
                Ok(v) => old(self).left() >= 4 && v as int == u32_at(
                    old(self).bytes(),
                    old(self).offset(),
                ) && final(self).offset() == old(self).offset() + 4,
                Err(e) => old(self).left() < 4 && e@ == short(4, old(self).left())
                    && final(self).offset() == old(self).offset(),
            },
    {
        proof {
            use_type_invariant(&*self);
        }
        let left = self.data.len() - self.pos;
        if left < 4 {
            return Err(Error::NotEnoughData { expected: 4, actual: left });
        }
        let v = get_u32(self.data, self.pos);
        self.pos = self.pos + 4;
        Ok(v)
    }

    /// Reads the next `n` bytes.
    pub fn read_bytes(&mut self, n: usize) -> (r: Result<&'a [u8], Error>)
        ensures
            final(self).bytes() == old(self).bytes(),
            match r {
                Ok(s) => old(self).left() >= n && s@ == old(self).bytes().subrange(
                    old(self).offset(),
                    old(self).offset() + n,
                ) && final(self).offset() == old(self).offset() + n,
                Err(e) => old(self).left() < n && e@ == short(n as int, old(self).left())
                    && final(self).offset() == old(self).offset(),
            },
    {
        proof {
            use_type_invariant(&*self);
        }
        let left = self.data.len() - self.pos;
        if left < n {
            return Err(Error::NotEnoughData { expected: n, actual: left });
        }
        let s = slice_subrange(self.data, self.pos, self.pos + n);
        self.pos = self.pos + n;
        Ok(s)
    }
}

} // verus!
