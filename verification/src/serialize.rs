//! Encoders of the primitive values of the wire format, the padding that
//! aligns them, and the traits of the types that have a wire form.

use vstd::prelude::*;
use crate::align::{align4, aligned_size};
use crate::deserialize::{le_i32, le_u16, le_u32};
use crate::error::{Error, Result};

verus! {

/// The two bytes that hold `v`, least significant first.
pub open spec fn u16_bytes(v: u16) -> Seq<u8> {
    seq![(v % 0x100) as u8, (v / 0x100) as u8]
}

/// The four bytes that hold `v`, least significant first.
pub open spec fn u32_bytes(v: u32) -> Seq<u8> {
    seq![
        (v % 0x100) as u8,
        ((v / 0x100) % 0x100) as u8,
        ((v / 0x1_0000) % 0x100) as u8,
        (v / 0x100_0000) as u8,
    ]
}

/// The four bytes that hold `v` in two's complement, least significant first.
pub open spec fn i32_bytes(v: i32) -> Seq<u8> {
    u32_bytes((if v < 0 { v + 0x1_0000_0000 } else { v as int }) as u32)
}

/// `n` zero bytes.
pub open spec fn zeros(n: nat) -> Seq<u8> {
    Seq::new(n, |i: int| 0u8)
}

/// `bytes` followed by the zero bytes that bring its length to a multiple of
/// four.
pub open spec fn pad4(bytes: Seq<u8>) -> Seq<u8> {
    bytes + zeros((align4(bytes.len() as int) - bytes.len()) as nat)
}

/// Reading back what was written gives the number that was written.
pub proof fn lemma_u16_round_trip(v: u16)
    ensures
        u16_bytes(v).len() == 2,
        le_u16(u16_bytes(v)) == v,
{
}

/// Reading back what was written gives the number that was written.
pub proof fn lemma_u32_round_trip(v: u32)
    ensures
        u32_bytes(v).len() == 4,
        le_u32(u32_bytes(v)) == v,
{
}

/// Reading back what was written gives the number that was written.
pub proof fn lemma_i32_round_trip(v: i32)
    ensures
        i32_bytes(v).len() == 4,
        le_i32(i32_bytes(v)) == v,
{
    lemma_u32_round_trip((if v < 0 { v + 0x1_0000_0000 } else { v as int }) as u32);
}

/// Padding adds fewer than four bytes, all zero, and ends on a multiple of
/// four.
pub proof fn lemma_pad4(bytes: Seq<u8>)
    ensures
        pad4(bytes).len() == align4(bytes.len() as int),
        pad4(bytes).len() % 4 == 0,
        bytes.len() <= pad4(bytes).len() < bytes.len() + 4,
        pad4(bytes).take(bytes.len() as int) == bytes,
        forall|i: int| bytes.len() <= i < pad4(bytes).len() ==> pad4(bytes)[i] == 0,
        bytes.len() % 4 == 0 ==> pad4(bytes) == bytes,
{
}

/// Appends `v` to `out`, least significant byte first.
pub fn push_u16(out: &mut Vec<u8>, v: u16)
    ensures
        final(out)@ == old(out)@ + u16_bytes(v),
{
    out.push((v % 0x100) as u8);
    out.push((v / 0x100) as u8);
}

/// Appends `v` to `out`, least significant byte first.
pub fn push_u32(out: &mut Vec<u8>, v: u32)
    ensures
        final(out)@ == old(out)@ + u32_bytes(v),
{
    out.push((v % 0x100) as u8);
    out.push(((v / 0x100) % 0x100) as u8);
    out.push(((v / 0x1_0000) % 0x100) as u8);
    out.push((v / 0x100_0000) as u8);
}

/// Appends `v` to `out` in two's complement, least significant byte first.
pub fn push_i32(out: &mut Vec<u8>, v: i32)
    ensures
        final(out)@ == old(out)@ + i32_bytes(v),
{
    let u: u32 = if v < 0 {
        ((v - i32::MIN) as u32) + 0x8000_0000
    } else {
        v as u32
    };
    push_u32(out, u);
}

/// Appends to `bytes` the zero bytes that bring its length to a multiple of
/// four.
pub fn pad_to_align4(bytes: &mut Vec<u8>)
    requires
        old(bytes)@.len() + 3 <= usize::MAX,
    ensures
        final(bytes)@ == pad4(old(bytes)@),
{
    let target: usize = aligned_size(bytes.len());
    while bytes.len() < target
        invariant
            old(bytes)@.len() <= bytes@.len() <= target,
            target == align4(old(bytes)@.len() as int),
            bytes@ == old(bytes)@ + zeros((bytes@.len() - old(bytes)@.len()) as nat),
        decreases target - bytes@.len(),
    {
        bytes.push(0);
    }
}

/// A value with a form on the wire.
pub trait Serialize {
    /// The bytes that stand for the value, before any padding.
    spec fn wire(&self) -> Seq<u8>;

    /// Writes the value as it stands on the wire.
    fn serialize(&self) -> (bytes: Vec<u8>)
        ensures
            bytes@ == self.wire(),
    ;
}

/// A value that is read from a fixed number of bytes.
pub trait Deserialize: Sized {
    /// The number of bytes that the value is read from.
    spec fn wire_size() -> nat;

    /// The value that `bytes` hold, or why they hold none.
    spec fn decoded(bytes: Seq<u8>) -> core::result::Result<Self, Error>;

    /// The number of bytes that the value is read from.
    fn size() -> (n: usize)
        ensures
            n == Self::wire_size(),
    ;

    /// Reads the value from the front of `bytes`.
    fn deserialize(bytes: &[u8]) -> (r: Result<Self>)
        ensures
            r == Self::decoded(bytes@),
    ;
}

/// The wire form of `val`, padded with zero bytes to a multiple of four.
/// The one thing that can fail is a form so long that its padded length is
/// no `usize`.
pub fn serialize_aligned<T: Serialize>(val: T) -> (r: Result<Vec<u8>>)
    ensures
        val.wire().len() + 3 <= usize::MAX ==> r is Ok && r.unwrap()@ == pad4(val.wire()),
        val.wire().len() + 3 > usize::MAX ==> r == Err::<Vec<u8>, Error>(Error::ErrValueConversion),
{
    let mut bytes = val.serialize();
    if bytes.len() > usize::MAX - 3 {
        return Err(Error::ErrValueConversion);
    }
    pad_to_align4(&mut bytes);
    Ok(bytes)
}

/// The padded size of the type's wire form.
pub fn aligned_size_of<T: Deserialize>() -> (n: usize)
    requires
        T::wire_size() + 3 <= usize::MAX,
    ensures
        n == align4(T::wire_size() as int),
{
    aligned_size(T::size())
}

/// The padded size of the value's wire form.
pub fn aligned_size_of_val<T: Serialize>(val: &T) -> (n: usize)
    requires
        val.wire().len() + 3 <= usize::MAX,
    ensures
        n == align4(val.wire().len() as int),
{
    aligned_size(val.serialize().len())
}

} // verus!
