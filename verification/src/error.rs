//! The failures that packing, unpacking and exchanging netlink messages can report.

use vstd::prelude::*;

verus! {

/// What was wrong with bytes that could not be decoded.
#[derive(Clone, Copy, Debug, PartialEq, Eq, Structural)]
pub enum Malformed {
    /// An address payload whose length is neither 4 nor 16 bytes.
    AddressLength(usize),
    /// An attribute header that declares fewer than its own 4 bytes.
    AttributeLength(u16),
    /// An envelope header that declares fewer than its own 16 bytes.
    MessageLength(u32),
}

/// What was wrong with a value that could not be encoded.
#[derive(Clone, Copy, Debug, PartialEq, Eq, Structural)]
pub enum Unencodable {
    /// An attribute payload too long for the 16-bit length of its header.
    AttributePayload(usize),
    /// Flags of a dump request and flags of a modifying request in one
    /// message.
    MixedFlags,
}

/// A field that a builder needs before it can build.
#[derive(Clone, Copy, Debug, PartialEq, Eq, Structural)]
pub enum Field {
    Header,
    Type,
    Value,
}

/// Everything that might go wrong when packing netlink packets, exchanging
/// them with the kernel and unpacking the replies.
///
/// The socket variants carry the operating system's error number.
#[derive(Clone, Copy, Debug, PartialEq, Eq, Structural)]
pub enum Error {
    ErrCreateSocket(i32),
    ErrBindSocket(i32),
    ErrSendSocket(i32),
    ErrRecvSocket(i32),
    ErrWriteSocket(i32),
    ErrReadSocket(i32),
    /// A decoder asked for more bytes than the slice held.
    ErrUnexpectedEof,
    ErrSerialize(Unencodable),
    ErrDeserialize(Malformed),
    ErrMissingField(Field),
    /// A number that names no variant of the enumeration asked for.
    ErrCastEnum(u16),
    /// The payload of the attribute with this tag could not be decoded.
    ErrDeserializeAttr(u16),
    /// A number that does not fit the width of the field it is meant for.
    ErrValueConversion,
}

/// Convenience return type for fallible netlink functions.
pub type Result<T> = core::result::Result<T, Error>;

} // verus!
