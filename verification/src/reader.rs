//! Cursors over received bytes. A reader hands out the bytes from its cursor
//! on, piece by piece, and never reads past the end.

use vstd::prelude::*;
use vstd::slice::slice_subrange;
use crate::align::{align4, aligned_size};
use crate::error::{Error, Result};
use crate::serialize::Deserialize;

verus! {

/// A cursor over a borrowed slice of bytes.
#[derive(Debug)]
pub struct SliceReader<'a> {
    slice: &'a [u8],
    cursor: usize,
}

impl<'a> SliceReader<'a> {
    #[verifier::type_invariant]
    spec fn inv(self) -> bool {
        self.cursor <= self.slice@.len()
    }

    /// All the bytes that the reader was made over.
    pub closed spec fn bytes(&self) -> Seq<u8> {
        self.slice@
    }

    /// The number of bytes that were handed out.
    pub closed spec fn position(&self) -> nat {
        self.cursor as nat
    }

    /// The bytes that were not handed out yet.
    pub open spec fn rest(&self) -> Seq<u8> {
        self.bytes().skip(self.position() as int)
    }

    /// A reader at the start of `slice`.
    pub fn new(slice: &'a [u8]) -> (reader: Self)
        ensures
            reader.bytes() == slice@,
            reader.position() == 0,
    {
        Self { slice, cursor: 0 }
    }

    /// Hands out the next `len` bytes, or fails and stays where it is if fewer
    /// are left.
    pub fn take(&mut self, len: usize) -> (r: Result<&'a [u8]>)
        ensures
            final(self).bytes() == old(self).bytes(),
            old(self).position() <= old(self).bytes().len(),
            final(self).position() <= final(self).bytes().len(),
            len <= old(self).rest().len() ==> r is Ok && r.unwrap()@ == old(self).rest().take(
                len as int,
            ) && final(self).position() == old(self).position() + len,
            len > old(self).rest().len() ==> r == Err::<&[u8], Error>(Error::ErrUnexpectedEof)
                && final(self).position() == old(self).position(),
    {
        proof {
            use_type_invariant(&*self);
        }
        if len > self.slice.len() - self.cursor {
            return Err(Error::ErrUnexpectedEof);
        }
        let slice = slice_subrange(self.slice, self.cursor, self.cursor + len);
        self.cursor += len;
        Ok(slice)
    }

    /// Reads a value, which takes the padded size of its wire form from the
    /// reader. Where fewer bytes are left the reader stays where it is.
    pub fn read<T: Deserialize>(&mut self) -> (r: Result<T>)
        requires
            T::wire_size() + 3 <= usize::MAX,
        ensures
            final(self).bytes() == old(self).bytes(),
            old(self).position() <= old(self).bytes().len(),
            final(self).position() <= final(self).bytes().len(),
            align4(T::wire_size() as int) <= old(self).rest().len() ==> r == T::decoded(
                old(self).rest().take(align4(T::wire_size() as int)),
            ) && final(self).position() == old(self).position() + align4(T::wire_size() as int),
            align4(T::wire_size() as int) > old(self).rest().len() ==> r == Err::<T, Error>(
                Error::ErrUnexpectedEof,
            ) && final(self).position() == old(self).position(),
    {
        let len = aligned_size(T::size());
        let bytes = self.take(len)?;
        T::deserialize(bytes)
    }

    /// The bytes that were not handed out yet.
    pub fn remaining(&self) -> (r: &'a [u8])
        ensures
            r@ == self.rest(),
            self.position() <= self.bytes().len(),
    {
        proof {
            use_type_invariant(self);
        }
        let r = slice_subrange(self.slice, self.cursor, self.slice.len());
        r
    }

    /// Whether every byte was handed out.
    pub fn is_empty(&self) -> (b: bool)
        ensures
            b == (self.rest().len() == 0),
            b == (self.position() == self.bytes().len()),
            self.position() <= self.bytes().len(),
    {
        proof {
            use_type_invariant(self);
        }
        self.cursor >= self.slice.len()
    }
}

/// A cursor over bytes that it owns.
#[derive(Debug)]
pub struct OwnedSliceReader {
    slice: Vec<u8>,
    cursor: usize,
}

impl OwnedSliceReader {
    #[verifier::type_invariant]
    spec fn inv(self) -> bool {
        self.cursor <= self.slice@.len()
    }

    /// All the bytes that the reader was made over.
    pub closed spec fn bytes(&self) -> Seq<u8> {
        self.slice@
    }

    /// The number of bytes that were handed out.
    pub closed spec fn position(&self) -> nat {
        self.cursor as nat
    }

    /// The bytes that were not handed out yet.
    pub open spec fn rest(&self) -> Seq<u8> {
        self.bytes().skip(self.position() as int)
    }

    /// A reader at the start of `slice`.
    pub fn new(slice: Vec<u8>) -> (reader: Self)
        ensures
            reader.bytes() == slice@,
            reader.position() == 0,
    {
        Self { slice, cursor: 0 }
    }

    /// Hands out the next `len` bytes, or fails and stays where it is if fewer
    /// are left.
    pub fn take(&mut self, len: usize) -> (r: Result<&[u8]>)
        ensures
            final(self).bytes() == old(self).bytes(),
            old(self).position() <= old(self).bytes().len(),
            final(self).position() <= final(self).bytes().len(),
            len <= old(self).rest().len() ==> r is Ok && r.unwrap()@ == old(self).rest().take(
                len as int,
            ) && final(self).position() == old(self).position() + len,
            len > old(self).rest().len() ==> r == Err::<&[u8], Error>(Error::ErrUnexpectedEof)
                && final(self).position() == old(self).position(),
    {
        proof {
            use_type_invariant(&*self);
        }
        if len > self.slice.len() - self.cursor {
            return Err(Error::ErrUnexpectedEof);
        }
        let start = self.cursor;
        self.cursor += len;
        let slice = slice_subrange(self.slice.as_slice(), start, start + len);
        Ok(slice)
    }

    /// Reads a value, which takes the padded size of its wire form from the
    /// reader. Where fewer bytes are left the reader stays where it is.
    pub fn read<T: Deserialize>(&mut self) -> (r: Result<T>)
        requires
            T::wire_size() + 3 <= usize::MAX,
        ensures
            final(self).bytes() == old(self).bytes(),
            old(self).position() <= old(self).bytes().len(),
            final(self).position() <= final(self).bytes().len(),
            align4(T::wire_size() as int) <= old(self).rest().len() ==> r == T::decoded(
                old(self).rest().take(align4(T::wire_size() as int)),
            ) && final(self).position() == old(self).position() + align4(T::wire_size() as int),
            align4(T::wire_size() as int) > old(self).rest().len() ==> r == Err::<T, Error>(
                Error::ErrUnexpectedEof,
            ) && final(self).position() == old(self).position(),
    {
        let len = aligned_size(T::size());
        let bytes = self.take(len)?;
        T::deserialize(bytes)
    }

    /// The bytes that were not handed out yet.
    pub fn remaining(&self) -> (r: &[u8])
        ensures
            r@ == self.rest(),
            self.position() <= self.bytes().len(),
    {
        proof {
            use_type_invariant(self);
        }
        let r = slice_subrange(self.slice.as_slice(), self.cursor, self.slice.len());
        r
    }

    /// Whether every byte was handed out.
    pub fn is_empty(&self) -> (b: bool)
        ensures
            b == (self.rest().len() == 0),
            b == (self.position() == self.bytes().len()),
            self.position() <= self.bytes().len(),
    {
        proof {
            use_type_invariant(self);
        }
        self.cursor >= self.slice.len()
    }
}

} // verus!
