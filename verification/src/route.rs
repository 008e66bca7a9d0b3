//! The messages of the routing family: their types, and the headers that lead
//! the payload of route, interface and address messages.

use vstd::prelude::*;
use vstd::std_specs::convert::FromSpecImpl;
use crate::deserialize::{
    deserialize_i32, deserialize_u16, deserialize_u32, le_i32, le_u16, le_u32,
};
use crate::error::{Error, Result};
use crate::serialize::{
    i32_bytes, push_i32, push_u16, push_u32, u16_bytes, u32_bytes, Deserialize, Serialize,
};

verus! {

/// The address family of IPv4.
pub const AF_INET: u8 = 2;

/// The change mask that asks the kernel to apply every flag of an interface
/// header.
pub const IFINFO_CHANGE_PLACEHOLDER_MAGIC: u32 = 0xFFFF_FFFF;

/// The message types of the routing family.
#[derive(Clone, Copy, Debug, PartialEq, Eq, Structural)]
pub enum RouteMessageType {
    NewLink,
    DelLink,
    GetLink,
    SetLink,
    NewAddr,
    DelAddr,
    GetAddr,
    NewRoute,
    DelRoute,
    GetRoute,
}

impl RouteMessageType {
    /// The number that stands for the type on the wire.
    pub open spec fn number(self) -> u16 {
        match self {
            RouteMessageType::NewLink => 16,
            RouteMessageType::DelLink => 17,
            RouteMessageType::GetLink => 18,
            RouteMessageType::SetLink => 19,
            RouteMessageType::NewAddr => 20,
            RouteMessageType::DelAddr => 21,
            RouteMessageType::GetAddr => 22,
            RouteMessageType::NewRoute => 24,
            RouteMessageType::DelRoute => 25,
            RouteMessageType::GetRoute => 26,
        }
    }

    /// The type that `raw` stands for.
    pub open spec fn of(raw: u16) -> Option<RouteMessageType> {
        match raw {
            16 => Some(RouteMessageType::NewLink),
            17 => Some(RouteMessageType::DelLink),
            18 => Some(RouteMessageType::GetLink),
            19 => Some(RouteMessageType::SetLink),
            20 => Some(RouteMessageType::NewAddr),
            21 => Some(RouteMessageType::DelAddr),
            22 => Some(RouteMessageType::GetAddr),
            24 => Some(RouteMessageType::NewRoute),
            25 => Some(RouteMessageType::DelRoute),
            26 => Some(RouteMessageType::GetRoute),
            _ => None,
        }
    }

    /// Names the type that `raw` stands for.
    pub fn from_u16(raw: u16) -> (r: Result<RouteMessageType>)
        ensures
            r == match RouteMessageType::of(raw) {
                Some(typ) => Ok::<RouteMessageType, Error>(typ),
                None => Err::<RouteMessageType, Error>(Error::ErrCastEnum(raw)),
            },
            r is Ok ==> r.unwrap().number() == raw,
    {
        match raw {
            16 => Ok(RouteMessageType::NewLink),
            17 => Ok(RouteMessageType::DelLink),
            18 => Ok(RouteMessageType::GetLink),
            19 => Ok(RouteMessageType::SetLink),
            20 => Ok(RouteMessageType::NewAddr),
            21 => Ok(RouteMessageType::DelAddr),
            22 => Ok(RouteMessageType::GetAddr),
            24 => Ok(RouteMessageType::NewRoute),
            25 => Ok(RouteMessageType::DelRoute),
            26 => Ok(RouteMessageType::GetRoute),
            _ => Err(Error::ErrCastEnum(raw)),
        }
    }
}

impl From<RouteMessageType> for u16 {
    /// The number that stands for the type on the wire.
    fn from(value: RouteMessageType) -> (raw: u16) {
        match value {
            RouteMessageType::NewLink => 16,
            RouteMessageType::DelLink => 17,
            RouteMessageType::GetLink => 18,
            RouteMessageType::SetLink => 19,
            RouteMessageType::NewAddr => 20,
            RouteMessageType::DelAddr => 21,
            RouteMessageType::GetAddr => 22,
            RouteMessageType::NewRoute => 24,
            RouteMessageType::DelRoute => 25,
            RouteMessageType::GetRoute => 26,
        }
    }
}

impl FromSpecImpl<RouteMessageType> for u16 {
    open spec fn obeys_from_spec() -> bool {
        true
    }

    open spec fn from_spec(value: RouteMessageType) -> u16 {
        value.number()
    }
}

/// The message types that speak of interfaces.
#[derive(Clone, Copy, Debug, PartialEq, Eq, Structural)]
pub enum LinkMessageType {
    NewLink,
    DelLink,
    GetLink,
    SetLink,
}

impl LinkMessageType {
    /// The number that stands for the type on the wire.
    pub open spec fn number(self) -> u16 {
        match self {
            LinkMessageType::NewLink => 16,
            LinkMessageType::DelLink => 17,
            LinkMessageType::GetLink => 18,
            LinkMessageType::SetLink => 19,
        }
    }

    /// Names the type that `raw` stands for: one of 16 to 19.
    pub fn from_u16(raw: u16) -> (r: Result<LinkMessageType>)
        ensures
            16 <= raw <= 19 ==> r is Ok && r.unwrap().number() == raw,
            !(16 <= raw <= 19) ==> r == Err::<LinkMessageType, Error>(Error::ErrCastEnum(raw)),
    {
        match raw {
            16 => Ok(LinkMessageType::NewLink),
            17 => Ok(LinkMessageType::DelLink),
            18 => Ok(LinkMessageType::GetLink),
            19 => Ok(LinkMessageType::SetLink),
            _ => Err(Error::ErrCastEnum(raw)),
        }
    }
}

impl From<LinkMessageType> for u16 {
    /// The number that stands for the type on the wire.
    fn from(value: LinkMessageType) -> (raw: u16) {
        match value {
            LinkMessageType::NewLink => 16,
            LinkMessageType::DelLink => 17,
            LinkMessageType::GetLink => 18,
            LinkMessageType::SetLink => 19,
        }
    }
}

impl FromSpecImpl<LinkMessageType> for u16 {
    open spec fn obeys_from_spec() -> bool {
        true
    }

    open spec fn from_spec(value: LinkMessageType) -> u16 {
        value.number()
    }
}

/// The header of a route message: nine bytes, which padding brings to twelve.
#[derive(Clone, Copy, Debug, Default, PartialEq, Eq, Structural)]
pub struct RouteHeader {
    pub family: u8,
    pub dst_len: u8,
    pub src_len: u8,
    pub tos: u8,
    pub table: u8,
    pub protocol: u8,
    pub scope: u8,
    pub typ: u8,
    pub flags: u8,
}

impl RouteHeader {
    /// The header that the first nine bytes of `bytes` hold.
    pub open spec fn parse(bytes: Seq<u8>) -> RouteHeader {
        RouteHeader {
            family: bytes[0],
            dst_len: bytes[1],
            src_len: bytes[2],
            tos: bytes[3],
            table: bytes[4],
            protocol: bytes[5],
            scope: bytes[6],
            typ: bytes[7],
            flags: bytes[8],
        }
    }

    /// The header whose fields are all zero.
    pub open spec fn zeroed() -> RouteHeader {
        RouteHeader {
            family: 0,
            dst_len: 0,
            src_len: 0,
            tos: 0,
            table: 0,
            protocol: 0,
            scope: 0,
            typ: 0,
            flags: 0,
        }
    }

    /// A builder whose fields are all zero.
    pub fn builder() -> (b: RouteHeaderBuilder)
        ensures
            b.header == RouteHeader::zeroed(),
    {
        RouteHeaderBuilder::new()
    }
}

impl Serialize for RouteHeader {
    open spec fn wire(&self) -> Seq<u8> {
        seq![
            self.family,
            self.dst_len,
            self.src_len,
            self.tos,
            self.table,
            self.protocol,
            self.scope,
            self.typ,
            self.flags,
        ]
    }

    fn serialize(&self) -> (bytes: Vec<u8>) {
        let mut bytes: Vec<u8> = Vec::with_capacity(9);
        bytes.push(self.family);
        bytes.push(self.dst_len);
        bytes.push(self.src_len);
        bytes.push(self.tos);
        bytes.push(self.table);
        bytes.push(self.protocol);
        bytes.push(self.scope);
        bytes.push(self.typ);
        bytes.push(self.flags);
        bytes
    }
}

impl Deserialize for RouteHeader {
    open spec fn wire_size() -> nat {
        9
    }

    open spec fn decoded(bytes: Seq<u8>) -> core::result::Result<RouteHeader, Error> {
        if bytes.len() < 9 {
            Err(Error::ErrUnexpectedEof)
        } else {
            Ok(RouteHeader::parse(bytes))
        }
    }

    fn size() -> (n: usize) {
        9
    }

    fn deserialize(bytes: &[u8]) -> (r: Result<RouteHeader>) {
        if bytes.len() < 9 {
            return Err(Error::ErrUnexpectedEof);
        }
        Ok(
            RouteHeader {
                family: bytes[0],
                dst_len: bytes[1],
                src_len: bytes[2],
                tos: bytes[3],
                table: bytes[4],
                protocol: bytes[5],
                scope: bytes[6],
                typ: bytes[7],
                flags: bytes[8],
            },
        )
    }
}

/// Builds a [`RouteHeader`] field by field. A field that is not set is zero.
#[derive(Clone, Copy, Debug, Default, PartialEq, Eq, Structural)]
pub struct RouteHeaderBuilder {
    pub header: RouteHeader,
}

impl RouteHeaderBuilder {
    pub fn new() -> (b: Self)
        ensures
            b.header == RouteHeader::zeroed(),
    {
        Self {
            header: RouteHeader {
                family: 0,
                dst_len: 0,
                src_len: 0,
                tos: 0,
                table: 0,
                protocol: 0,
                scope: 0,
                typ: 0,
                flags: 0,
            },
        }
    }

    pub fn family(self, family: u8) -> (b: Self)
        ensures
            b.header == (RouteHeader { family, ..self.header }),
    {
        let mut b = self;
        b.header.family = family;
        b
    }

    pub fn dst_len(self, dst_len: u8) -> (b: Self)
        ensures
            b.header == (RouteHeader { dst_len, ..self.header }),
    {
        let mut b = self;
        b.header.dst_len = dst_len;
        b
    }

    pub fn src_len(self, src_len: u8) -> (b: Self)
        ensures
            b.header == (RouteHeader { src_len, ..self.header }),
    {
        let mut b = self;
        b.header.src_len = src_len;
        b
    }

    pub fn tos(self, tos: u8) -> (b: Self)
        ensures
            b.header == (RouteHeader { tos, ..self.header }),
    {
        let mut b = self;
        b.header.tos = tos;
        b
    }

    pub fn table(self, table: u8) -> (b: Self)
        ensures
            b.header == (RouteHeader { table, ..self.header }),
    {
        let mut b = self;
        b.header.table = table;
        b
    }

    pub fn protocol(self, protocol: u8) -> (b: Self)
        ensures
            b.header == (RouteHeader { protocol, ..self.header }),
    {
        let mut b = self;
        b.header.protocol = protocol;
        b
    }

    pub fn scope(self, scope: u8) -> (b: Self)
        ensures
            b.header == (RouteHeader { scope, ..self.header }),
    {
        let mut b = self;
        b.header.scope = scope;
        b
    }

    pub fn typ(self, typ: u8) -> (b: Self)
        ensures
            b.header == (RouteHeader { typ, ..self.header }),
    {
        let mut b = self;
        b.header.typ = typ;
        b
    }

    pub fn flags(self, flags: u8) -> (b: Self)
        ensures
            b.header == (RouteHeader { flags, ..self.header }),
    {
        let mut b = self;
        b.header.flags = flags;
        b
    }

    /// The header with the fields as they were set.
    pub fn build(self) -> (header: RouteHeader)
        ensures
            header == self.header,
    {
        self.header
    }
}

/// The header of an interface message: sixteen bytes, of which the second is
/// padding.
#[derive(Clone, Copy, Debug, Default, PartialEq, Eq, Structural)]
pub struct InterfaceInfoHeader {
    pub family: u8,
    /// The device type.
    pub typ: u16,
    /// The interface index.
    pub index: i32,
    /// The device flags.
    pub flags: u32,
    /// The change mask, which says which of the flags a request applies.
    pub change: u32,
}

impl InterfaceInfoHeader {
    /// The header that the first sixteen bytes of `bytes` hold.
    pub open spec fn parse(bytes: Seq<u8>) -> InterfaceInfoHeader {
        InterfaceInfoHeader {
            family: bytes[0],
            typ: le_u16(bytes.skip(2)) as u16,
            index: le_i32(bytes.skip(4)) as i32,
            flags: le_u32(bytes.skip(8)) as u32,
            change: le_u32(bytes.skip(12)) as u32,
        }
    }

    /// A builder whose fields are all zero.
    pub fn builder() -> (b: InterfaceInfoHeaderBuilder)
        ensures
            b == (InterfaceInfoHeaderBuilder {
                family: 0,
                typ: 0,
                index: 0,
                flags: 0,
                change: IFINFO_CHANGE_PLACEHOLDER_MAGIC,
            }),
    {
        InterfaceInfoHeaderBuilder::new()
    }
}

impl Serialize for InterfaceInfoHeader {
    open spec fn wire(&self) -> Seq<u8> {
        seq![self.family, 0u8] + u16_bytes(self.typ) + i32_bytes(self.index) + u32_bytes(
            self.flags,
        ) + u32_bytes(self.change)
    }

    fn serialize(&self) -> (bytes: Vec<u8>) {
        let mut bytes: Vec<u8> = Vec::with_capacity(16);
        bytes.push(self.family);
        bytes.push(0);
        push_u16(&mut bytes, self.typ);
        push_i32(&mut bytes, self.index);
        push_u32(&mut bytes, self.flags);
        push_u32(&mut bytes, self.change);
        bytes
    }
}

impl Deserialize for InterfaceInfoHeader {
    open spec fn wire_size() -> nat {
        16
    }

    open spec fn decoded(bytes: Seq<u8>) -> core::result::Result<InterfaceInfoHeader, Error> {
        if bytes.len() < 16 {
            Err(Error::ErrUnexpectedEof)
        } else {
            Ok(InterfaceInfoHeader::parse(bytes))
        }
    }

    fn size() -> (n: usize) {
        16
    }

    fn deserialize(bytes: &[u8]) -> (r: Result<InterfaceInfoHeader>) {
        if bytes.len() < 16 {
            return Err(Error::ErrUnexpectedEof);
        }
        let family = bytes[0];
        let typ = deserialize_u16(vstd::slice::slice_subrange(bytes, 2, 4))?;
        let index = deserialize_i32(vstd::slice::slice_subrange(bytes, 4, 8))?;
        let flags = deserialize_u32(vstd::slice::slice_subrange(bytes, 8, 12))?;
        let change = deserialize_u32(vstd::slice::slice_subrange(bytes, 12, 16))?;
        Ok(InterfaceInfoHeader { family, typ, index, flags, change })
    }
}

/// The message that speaks of an interface is led by its header, and is often
/// named after it.
pub type InterfaceInfoMessage = InterfaceInfoHeader;

/// Builds an [`InterfaceInfoHeader`] field by field. A field that is not set
/// is zero, but for the change mask, which asks for every flag to be applied
/// unless it is set otherwise.
#[derive(Clone, Copy, Debug, PartialEq, Eq, Structural)]
pub struct InterfaceInfoHeaderBuilder {
    pub family: u8,
    pub typ: u16,
    pub index: i32,
    pub flags: u32,
    pub change: u32,
}

impl InterfaceInfoHeaderBuilder {
    pub fn new() -> (b: Self)
        ensures
            b == (InterfaceInfoHeaderBuilder {
                family: 0,
                typ: 0,
                index: 0,
                flags: 0,
                change: IFINFO_CHANGE_PLACEHOLDER_MAGIC,
            }),
    {
        Self { family: 0, typ: 0, index: 0, flags: 0, change: IFINFO_CHANGE_PLACEHOLDER_MAGIC }
    }

    pub fn family(self, family: u8) -> (b: Self)
        ensures
            b == (InterfaceInfoHeaderBuilder { family, ..self }),
    {
        Self { family, ..self }
    }

    pub fn typ(self, typ: u16) -> (b: Self)
        ensures
            b == (InterfaceInfoHeaderBuilder { typ, ..self }),
    {
        Self { typ, ..self }
    }

    pub fn index(self, index: i32) -> (b: Self)
        ensures
            b == (InterfaceInfoHeaderBuilder { index, ..self }),
    {
        Self { index, ..self }
    }

    pub fn flags(self, flags: u32) -> (b: Self)
        ensures
            b == (InterfaceInfoHeaderBuilder { flags, ..self }),
    {
        Self { flags, ..self }
    }

    /// Sets the change mask, for a request that applies some of the flags
    /// only.
    pub fn change(self, change: u32) -> (b: Self)
        ensures
            b == (InterfaceInfoHeaderBuilder { change, ..self }),
    {
        Self { change, ..self }
    }

    /// The header with the fields as they were set.
    pub fn build(self) -> (header: InterfaceInfoHeader)
        ensures
            header == (InterfaceInfoHeader {
                family: self.family,
                typ: self.typ,
                index: self.index,
                flags: self.flags,
                change: self.change,
            }),
    {
        InterfaceInfoHeader {
            family: self.family,
            typ: self.typ,
            index: self.index,
            flags: self.flags,
            change: self.change,
        }
    }
}

/// The header of an address message: eight bytes.
#[derive(Clone, Copy, Debug, Default, PartialEq, Eq, Structural)]
pub struct InterfaceAddrHeader {
    /// The address family.
    pub family: u8,
    /// The length of the address's prefix.
    pub prefixlen: u8,
    pub flags: u8,
    pub scope: u8,
    /// The interface index.
    pub index: u32,
}

impl InterfaceAddrHeader {
    /// The header that the first eight bytes of `bytes` hold.
    pub open spec fn parse(bytes: Seq<u8>) -> InterfaceAddrHeader {
        InterfaceAddrHeader {
            family: bytes[0],
            prefixlen: bytes[1],
            flags: bytes[2],
            scope: bytes[3],
            index: le_u32(bytes.skip(4)) as u32,
        }
    }

    /// A builder with no field set.
    pub fn builder() -> (b: IfAddrMessageBuilder)
        ensures
            b == (IfAddrMessageBuilder {
                family: None,
                prefixlen: None,
                flags: None,
                scope: None,
                index: None,
            }),
    {
        IfAddrMessageBuilder::new()
    }
}

impl Serialize for InterfaceAddrHeader {
    open spec fn wire(&self) -> Seq<u8> {
        seq![self.family, self.prefixlen, self.flags, self.scope] + u32_bytes(self.index)
    }

    fn serialize(&self) -> (bytes: Vec<u8>) {
        let mut bytes: Vec<u8> = Vec::with_capacity(8);
        bytes.push(self.family);
        bytes.push(self.prefixlen);
        bytes.push(self.flags);
        bytes.push(self.scope);
        push_u32(&mut bytes, self.index);
        bytes
    }
}

impl Deserialize for InterfaceAddrHeader {
    open spec fn wire_size() -> nat {
        8
    }

    open spec fn decoded(bytes: Seq<u8>) -> core::result::Result<InterfaceAddrHeader, Error> {
        if bytes.len() < 8 {
            Err(Error::ErrUnexpectedEof)
        } else {
            Ok(InterfaceAddrHeader::parse(bytes))
        }
    }

    fn size() -> (n: usize) {
        8
    }

    fn deserialize(bytes: &[u8]) -> (r: Result<InterfaceAddrHeader>) {
        if bytes.len() < 8 {
            return Err(Error::ErrUnexpectedEof);
        }
        let index = deserialize_u32(vstd::slice::slice_subrange(bytes, 4, 8))?;
        Ok(
            InterfaceAddrHeader {
                family: bytes[0],
                prefixlen: bytes[1],
                flags: bytes[2],
                scope: bytes[3],
                index,
            },
        )
    }
}

/// The message that speaks of an address is led by its header, and is often
/// named after it.
pub type InterfaceAddrMessage = InterfaceAddrHeader;

/// Builds an [`InterfaceAddrHeader`] field by field. A field that is not set
/// is zero in the header.
#[derive(Clone, Copy, Debug, PartialEq, Eq, Structural)]
pub struct IfAddrMessageBuilder {
    pub family: Option<u8>,
    pub prefixlen: Option<u8>,
    pub flags: Option<u8>,
    pub scope: Option<u8>,
    pub index: Option<u32>,
}

impl IfAddrMessageBuilder {
    pub fn new() -> (b: Self)
        ensures
            b == (IfAddrMessageBuilder {
                family: None,
                prefixlen: None,
                flags: None,
                scope: None,
                index: None,
            }),
    {
        Self { family: None, prefixlen: None, flags: None, scope: None, index: None }
    }

    pub fn family(self, family: u8) -> (b: Self)
        ensures
            b == (IfAddrMessageBuilder { family: Some(family), ..self }),
    {
        Self { family: Some(family), ..self }
    }

    pub fn prefixlen(self, prefixlen: u8) -> (b: Self)
        ensures
            b == (IfAddrMessageBuilder { prefixlen: Some(prefixlen), ..self }),
    {
        Self { prefixlen: Some(prefixlen), ..self }
    }

    pub fn flags(self, flags: u8) -> (b: Self)
        ensures
            b == (IfAddrMessageBuilder { flags: Some(flags), ..self }),
    {
        Self { flags: Some(flags), ..self }
    }

    pub fn scope(self, scope: u8) -> (b: Self)
        ensures
            b == (IfAddrMessageBuilder { scope: Some(scope), ..self }),
    {
        Self { scope: Some(scope), ..self }
    }

    pub fn index(self, index: u32) -> (b: Self)
        ensures
            b == (IfAddrMessageBuilder { index: Some(index), ..self }),
    {
        Self { index: Some(index), ..self }
    }

    /// The header with the fields as they were set, and zero where none was.
    pub fn build(self) -> (header: InterfaceAddrHeader)
        ensures
            header == (InterfaceAddrHeader {
                family: self.family.unwrap_or(0),
                prefixlen: self.prefixlen.unwrap_or(0),
                flags: self.flags.unwrap_or(0),
                scope: self.scope.unwrap_or(0),
                index: self.index.unwrap_or(0),
            }),
    {
        InterfaceAddrHeader {
            family: self.family.unwrap_or(0),
            prefixlen: self.prefixlen.unwrap_or(0),
            flags: self.flags.unwrap_or(0),
            scope: self.scope.unwrap_or(0),
            index: self.index.unwrap_or(0),
        }
    }
}

} // verus!
