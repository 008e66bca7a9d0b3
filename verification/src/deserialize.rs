//! Decoders of the primitive values that netlink attributes carry.
//!
//! Every integer on the wire is little-endian. A decoder reads its width from
//! the front of the slice and ignores what follows, so that a payload may be
//! handed over together with its padding.

use vstd::prelude::*;
use vstd::string::StrSliceExecFns;
use vstd::utf8::{decode_utf8, valid_utf8};
use crate::error::{Error, Malformed, Result};

verus! {

/// The unsigned number that the first two bytes of `s` hold.
pub open spec fn le_u16(s: Seq<u8>) -> int {
    s[0] as int + 0x100 * (s[1] as int)
}

/// The unsigned number that the first four bytes of `s` hold.
pub open spec fn le_u32(s: Seq<u8>) -> int {
    s[0] as int + 0x100 * (s[1] as int) + 0x1_0000 * (s[2] as int) + 0x100_0000 * (s[3] as int)
}

/// The unsigned number that the first eight bytes of `s` hold.
pub open spec fn le_u64(s: Seq<u8>) -> int {
    le_u32(s) + 0x1_0000_0000 * le_u32(s.skip(4))
}

/// The signed byte that the first byte of `s` holds.
pub open spec fn le_i8(s: Seq<u8>) -> int {
    if s[0] >= 0x80 { s[0] as int - 0x100 } else { s[0] as int }
}

/// The signed number that the first two bytes of `s` hold.
pub open spec fn le_i16(s: Seq<u8>) -> int {
    if le_u16(s) >= 0x8000 { le_u16(s) - 0x1_0000 } else { le_u16(s) }
}

/// The signed number that the first four bytes of `s` hold.
pub open spec fn le_i32(s: Seq<u8>) -> int {
    if le_u32(s) >= 0x8000_0000 { le_u32(s) - 0x1_0000_0000 } else { le_u32(s) }
}

/// Reads a little-endian `u16` from the front of `payload`.
pub fn deserialize_u16(payload: &[u8]) -> (r: Result<u16>)
    ensures
        payload@.len() >= 2 ==> r == Ok::<u16, Error>(le_u16(payload@) as u16),
        payload@.len() >= 2 ==> r.unwrap() as int == le_u16(payload@),
        payload@.len() < 2 ==> r == Err::<u16, Error>(Error::ErrUnexpectedEof),
{
    if payload.len() < 2 {
        return Err(Error::ErrUnexpectedEof);
    }
    Ok(payload[0] as u16 + 0x100 * (payload[1] as u16))
}

/// Reads a little-endian `u32` from the front of `payload`.
pub fn deserialize_u32(payload: &[u8]) -> (r: Result<u32>)
    ensures
        payload@.len() >= 4 ==> r == Ok::<u32, Error>(le_u32(payload@) as u32),
        payload@.len() >= 4 ==> r.unwrap() as int == le_u32(payload@),
        payload@.len() < 4 ==> r == Err::<u32, Error>(Error::ErrUnexpectedEof),
{
    if payload.len() < 4 {
        return Err(Error::ErrUnexpectedEof);
    }
    Ok(
        payload[0] as u32 + 0x100 * (payload[1] as u32) + 0x1_0000 * (payload[2] as u32)
            + 0x100_0000 * (payload[3] as u32),
    )
}

/// Reads a little-endian `u64` from the front of `payload`.
pub fn deserialize_u64(payload: &[u8]) -> (r: Result<u64>)
    ensures
        payload@.len() >= 8 ==> r == Ok::<u64, Error>(le_u64(payload@) as u64),
        payload@.len() >= 8 ==> r.unwrap() as int == le_u64(payload@),
        payload@.len() < 8 ==> r == Err::<u64, Error>(Error::ErrUnexpectedEof),
{
    if payload.len() < 8 {
        return Err(Error::ErrUnexpectedEof);
    }
    let low: u64 = payload[0] as u64 + 0x100 * (payload[1] as u64) + 0x1_0000 * (payload[2] as u64)
        + 0x100_0000 * (payload[3] as u64);
    let high: u64 = payload[4] as u64 + 0x100 * (payload[5] as u64) + 0x1_0000 * (payload[6] as u64)
        + 0x100_0000 * (payload[7] as u64);
    Ok(low + 0x1_0000_0000 * high)
}

/// Reads a signed byte from the front of `payload`.
pub fn deserialize_i8(payload: &[u8]) -> (r: Result<i8>)
    ensures
        payload@.len() >= 1 ==> r == Ok::<i8, Error>(le_i8(payload@) as i8),
        payload@.len() >= 1 ==> r.unwrap() as int == le_i8(payload@),
        payload@.len() < 1 ==> r == Err::<i8, Error>(Error::ErrUnexpectedEof),
{
    if payload.len() < 1 {
        return Err(Error::ErrUnexpectedEof);
    }
    let b: u8 = payload[0];
    if b >= 0x80 {
        Ok((b - 0x80) as i8 + i8::MIN)
    } else {
        Ok(b as i8)
    }
}

/// Reads a little-endian `i16` from the front of `payload`.
pub fn deserialize_i16(payload: &[u8]) -> (r: Result<i16>)
    ensures
        payload@.len() >= 2 ==> r == Ok::<i16, Error>(le_i16(payload@) as i16),
        payload@.len() >= 2 ==> r.unwrap() as int == le_i16(payload@),
        payload@.len() < 2 ==> r == Err::<i16, Error>(Error::ErrUnexpectedEof),
{
    let u: u16 = deserialize_u16(payload)?;
    if u >= 0x8000 {
        Ok((u - 0x8000) as i16 + i16::MIN)
    } else {
        Ok(u as i16)
    }
}

/// Reads a little-endian `i32` from the front of `payload`.
pub fn deserialize_i32(payload: &[u8]) -> (r: Result<i32>)
    ensures
        payload@.len() >= 4 ==> r == Ok::<i32, Error>(le_i32(payload@) as i32),
        payload@.len() >= 4 ==> r.unwrap() as int == le_i32(payload@),
        payload@.len() < 4 ==> r == Err::<i32, Error>(Error::ErrUnexpectedEof),
{
    let u: u32 = deserialize_u32(payload)?;
    if u >= 0x8000_0000 {
        Ok((u - 0x8000_0000) as i32 + i32::MIN)
    } else {
        Ok(u as i32)
    }
}

/// An IPv4 address: its four octets in network order.
#[derive(Clone, Copy, Debug, PartialEq, Eq)]
pub struct Ipv4Addr {
    pub octets: [u8; 4],
}

/// An IPv6 address: its sixteen octets in network order.
#[derive(Clone, Copy, Debug, PartialEq, Eq)]
pub struct Ipv6Addr {
    pub octets: [u8; 16],
}

/// An IP address of either family.
#[derive(Clone, Copy, Debug, PartialEq, Eq)]
pub enum IpAddr {
    V4(Ipv4Addr),
    V6(Ipv6Addr),
}

impl View for IpAddr {
    type V = Seq<u8>;

    /// The octets of the address: four of them for `V4`, sixteen for `V6`.
    open spec fn view(&self) -> Seq<u8> {
        match *self {
            IpAddr::V4(a) => a.octets@,
            IpAddr::V6(a) => a.octets@,
        }
    }
}

/// Reads an IP address whose family is told by the payload's length: four
/// bytes are an IPv4 address, sixteen an IPv6 address, and no other length is
/// an address.
pub fn deserialize_ip_addr(payload: &[u8]) -> (r: Result<IpAddr>)
    ensures
        payload@.len() == 4 ==> r is Ok && r.unwrap() is V4 && r.unwrap()@ == payload@,
        payload@.len() == 16 ==> r is Ok && r.unwrap() is V6 && r.unwrap()@ == payload@,
        payload@.len() != 4 && payload@.len() != 16 ==> r == Err::<IpAddr, Error>(
            Error::ErrDeserialize(Malformed::AddressLength(payload.len())),
        ),
{
    let p = payload;
    if p.len() == 4 {
        let octets: [u8; 4] = [p[0], p[1], p[2], p[3]];
        Ok(IpAddr::V4(Ipv4Addr { octets }))
    } else if p.len() == 16 {
        let octets: [u8; 16] = [
            p[0], p[1], p[2], p[3], p[4], p[5], p[6], p[7],
            p[8], p[9], p[10], p[11], p[12], p[13], p[14], p[15],
        ];
        Ok(IpAddr::V6(Ipv6Addr { octets }))
    } else {
        Err(Error::ErrDeserialize(Malformed::AddressLength(p.len())))
    }
}

/// The text that a lossy UTF-8 reading of `bytes` gives: every maximal
/// ill-formed run of bytes stands as one U+FFFD.
pub uninterp spec fn utf8_lossy(bytes: Seq<u8>) -> Seq<char>;

/// `String::from_utf8_lossy` of the standard library, as an owned string. The
/// result is a function of the bytes, and well-formed UTF-8 is decoded as it
/// stands.
#[verifier::external_body]
fn from_utf8_lossy(bytes: &[u8]) -> (text: String)
    ensures
        text@ == utf8_lossy(bytes@),
        valid_utf8(bytes@) ==> text@ == decode_utf8(bytes@),
{
    String::from_utf8_lossy(bytes).into_owned()
}

/// `text` without the NUL characters at its end.
pub open spec fn trim_nul(text: Seq<char>) -> Seq<char>
    decreases text.len(),
{
    if text.len() > 0 && text.last() == '\0' {
        trim_nul(text.drop_last())
    } else {
        text
    }
}

/// The text of a string attribute: the payload read as UTF-8, ill-formed bytes
/// replaced, without the NUL characters that terminate and pad it.
pub open spec fn ascii(payload: Seq<u8>) -> Seq<char> {
    trim_nul(utf8_lossy(payload))
}

/// What is cut from the end of a text is NUL, and what is left does not end in
/// NUL.
pub proof fn lemma_trim_nul(text: Seq<char>)
    ensures
        trim_nul(text).len() <= text.len(),
        trim_nul(text) == text.take(trim_nul(text).len() as int),
        forall|i: int| trim_nul(text).len() <= i < text.len() ==> text[i] == '\0',
        trim_nul(text).len() == 0 || trim_nul(text).last() != '\0',
    decreases text.len(),
{
    if text.len() > 0 && text.last() == '\0' {
        let rest = text.drop_last();
        lemma_trim_nul(rest);
        assert forall|i: int| trim_nul(text).len() <= i < text.len() implies text[i] == '\0' by {
            if i < rest.len() {
                assert(rest[i] == text[i]);
            }
        }
    } else {
    }
}

/// The text of a string attribute never ends in NUL.
pub proof fn lemma_ascii_has_no_trailing_nul(payload: Seq<u8>)
    ensures
        ascii(payload).len() == 0 || ascii(payload).last() != '\0',
{
    lemma_trim_nul(utf8_lossy(payload));
}

/// A text that ends where `trim_nul` would cut it is the trimmed text.
proof fn lemma_trim_nul_at(text: Seq<char>, end: int)
    requires
        0 <= end <= text.len(),
        forall|i: int| end <= i < text.len() ==> text[i] == '\0',
        end == 0 || text[end - 1] != '\0',
    ensures
        trim_nul(text) == text.take(end),
    decreases text.len(),
{
    if end < text.len() {
        lemma_trim_nul_at(text.drop_last(), end);
    }
}

/// Reads the text of a string attribute. Well-formed UTF-8, and so every
/// ASCII text, is read as it stands.
pub fn deserialize_ascii(payload: &[u8]) -> (r: String)
    ensures
        r@ == ascii(payload@),
        valid_utf8(payload@) ==> r@ == trim_nul(decode_utf8(payload@)),
        r@.len() == 0 || r@.last() != '\0',
{
    let text = from_utf8_lossy(payload);
    let chars = text.as_str();
    let mut end: usize = chars.unicode_len();
    while end > 0 && chars.get_char(end - 1) == '\0'
        invariant
            end <= chars@.len(),
            forall|i: int| end <= i < chars@.len() ==> chars@[i] == '\0',
        decreases end,
    {
        end -= 1;
    }
    proof {
        lemma_trim_nul_at(chars@, end as int);
        lemma_trim_nul(chars@);
    }
    chars.substring_char(0, end).to_owned()
}

} // verus!
