//! The attributes of route messages: their tags, the shape of each payload,
//! and the decoded values.

use vstd::prelude::*;
use vstd::slice::slice_to_vec;
use vstd::std_specs::convert::FromSpecImpl;
use crate::attr::{
    decode_payload, AttrHeader, AttrModel, DeserializeTyped, Payload, PayloadKind, Tag,
};
use crate::deserialize::{
    deserialize_i16, deserialize_i32, deserialize_i8, deserialize_ip_addr, IpAddr,
};
use crate::error::{Error, Result};
use crate::serialize::{u16_bytes, Serialize};

verus! {

/// The tag of a route attribute.
#[derive(Clone, Copy, Debug, PartialEq, Eq, Structural)]
pub enum RouteAttrType {
    Unspec,
    Dest,
    Source,
    InputInterfaceIndex,
    OutputInterfaceIndex,
    Gateway,
    Priority,
    PreferredSourceAddr,
    Metrics,
    Multipath,
    ProtoInfo,
    Flow,
    CacheInfo,
    Session,
    MpAlgo,
    Table,
    Mark,
    MfcStats,
    Via,
    NewDest,
    Pref,
    EncapType,
    Encap,
    Expires,
}

impl RouteAttrType {
    /// The number that stands for the tag on the wire.
    pub open spec fn tag(self) -> u16 {
        match self {
            RouteAttrType::Unspec => 0,
            RouteAttrType::Dest => 1,
            RouteAttrType::Source => 2,
            RouteAttrType::InputInterfaceIndex => 3,
            RouteAttrType::OutputInterfaceIndex => 4,
            RouteAttrType::Gateway => 5,
            RouteAttrType::Priority => 6,
            RouteAttrType::PreferredSourceAddr => 7,
            RouteAttrType::Metrics => 8,
            RouteAttrType::Multipath => 9,
            RouteAttrType::ProtoInfo => 10,
            RouteAttrType::Flow => 11,
            RouteAttrType::CacheInfo => 12,
            RouteAttrType::Session => 13,
            RouteAttrType::MpAlgo => 14,
            RouteAttrType::Table => 15,
            RouteAttrType::Mark => 16,
            RouteAttrType::MfcStats => 17,
            RouteAttrType::Via => 18,
            RouteAttrType::NewDest => 19,
            RouteAttrType::Pref => 20,
            RouteAttrType::EncapType => 21,
            RouteAttrType::Encap => 22,
            RouteAttrType::Expires => 23,
        }
    }

    /// The shape of the payload that an attribute with this tag carries.
    pub open spec fn payload_kind(self) -> PayloadKind {
        match self {
            RouteAttrType::Dest
            | RouteAttrType::Source
            | RouteAttrType::Gateway
            | RouteAttrType::PreferredSourceAddr => PayloadKind::Addr,
            RouteAttrType::InputInterfaceIndex
            | RouteAttrType::OutputInterfaceIndex
            | RouteAttrType::Priority
            | RouteAttrType::Metrics
            | RouteAttrType::Table
            | RouteAttrType::Expires => PayloadKind::I32,
            RouteAttrType::EncapType => PayloadKind::I16,
            RouteAttrType::Pref => PayloadKind::I8,
            _ => PayloadKind::Bytes,
        }
    }

    /// The tag that `raw` stands for.
    pub open spec fn of(raw: u16) -> Option<RouteAttrType> {
        match raw {
            0 => Some(RouteAttrType::Unspec),
            1 => Some(RouteAttrType::Dest),
            2 => Some(RouteAttrType::Source),
            3 => Some(RouteAttrType::InputInterfaceIndex),
            4 => Some(RouteAttrType::OutputInterfaceIndex),
            5 => Some(RouteAttrType::Gateway),
            6 => Some(RouteAttrType::Priority),
            7 => Some(RouteAttrType::PreferredSourceAddr),
            8 => Some(RouteAttrType::Metrics),
            9 => Some(RouteAttrType::Multipath),
            10 => Some(RouteAttrType::ProtoInfo),
            11 => Some(RouteAttrType::Flow),
            12 => Some(RouteAttrType::CacheInfo),
            13 => Some(RouteAttrType::Session),
            14 => Some(RouteAttrType::MpAlgo),
            15 => Some(RouteAttrType::Table),
            16 => Some(RouteAttrType::Mark),
            17 => Some(RouteAttrType::MfcStats),
            18 => Some(RouteAttrType::Via),
            19 => Some(RouteAttrType::NewDest),
            20 => Some(RouteAttrType::Pref),
            21 => Some(RouteAttrType::EncapType),
            22 => Some(RouteAttrType::Encap),
            23 => Some(RouteAttrType::Expires),
            _ => None,
        }
    }

    /// Names the tag that `raw` stands for. A number above 23 stands for none.
    pub fn from_u16(raw: u16) -> (r: Result<RouteAttrType>)
        ensures
            r == match RouteAttrType::of(raw) {
                Some(typ) => Ok::<RouteAttrType, Error>(typ),
                None => Err::<RouteAttrType, Error>(Error::ErrCastEnum(raw)),
            },
            r is Ok <==> raw <= 23,
            r is Ok ==> r.unwrap().tag() == raw,
    {
        match raw {
            0 => Ok(RouteAttrType::Unspec),
            1 => Ok(RouteAttrType::Dest),
            2 => Ok(RouteAttrType::Source),
            3 => Ok(RouteAttrType::InputInterfaceIndex),
            4 => Ok(RouteAttrType::OutputInterfaceIndex),
            5 => Ok(RouteAttrType::Gateway),
            6 => Ok(RouteAttrType::Priority),
            7 => Ok(RouteAttrType::PreferredSourceAddr),
            8 => Ok(RouteAttrType::Metrics),
            9 => Ok(RouteAttrType::Multipath),
            10 => Ok(RouteAttrType::ProtoInfo),
            11 => Ok(RouteAttrType::Flow),
            12 => Ok(RouteAttrType::CacheInfo),
            13 => Ok(RouteAttrType::Session),
            14 => Ok(RouteAttrType::MpAlgo),
            15 => Ok(RouteAttrType::Table),
            16 => Ok(RouteAttrType::Mark),
            17 => Ok(RouteAttrType::MfcStats),
            18 => Ok(RouteAttrType::Via),
            19 => Ok(RouteAttrType::NewDest),
            20 => Ok(RouteAttrType::Pref),
            21 => Ok(RouteAttrType::EncapType),
            22 => Ok(RouteAttrType::Encap),
            23 => Ok(RouteAttrType::Expires),
            _ => Err(Error::ErrCastEnum(raw)),
        }
    }
}

impl From<RouteAttrType> for u16 {
    /// The number that stands for the tag on the wire.
    fn from(typ: RouteAttrType) -> (raw: u16) {
        match typ {
            RouteAttrType::Unspec => 0,
            RouteAttrType::Dest => 1,
            RouteAttrType::Source => 2,
            RouteAttrType::InputInterfaceIndex => 3,
            RouteAttrType::OutputInterfaceIndex => 4,
            RouteAttrType::Gateway => 5,
            RouteAttrType::Priority => 6,
            RouteAttrType::PreferredSourceAddr => 7,
            RouteAttrType::Metrics => 8,
            RouteAttrType::Multipath => 9,
            RouteAttrType::ProtoInfo => 10,
            RouteAttrType::Flow => 11,
            RouteAttrType::CacheInfo => 12,
            RouteAttrType::Session => 13,
            RouteAttrType::MpAlgo => 14,
            RouteAttrType::Table => 15,
            RouteAttrType::Mark => 16,
            RouteAttrType::MfcStats => 17,
            RouteAttrType::Via => 18,
            RouteAttrType::NewDest => 19,
            RouteAttrType::Pref => 20,
            RouteAttrType::EncapType => 21,
            RouteAttrType::Encap => 22,
            RouteAttrType::Expires => 23,
        }
    }
}

impl FromSpecImpl<RouteAttrType> for u16 {
    open spec fn obeys_from_spec() -> bool {
        true
    }

    open spec fn from_spec(typ: RouteAttrType) -> u16 {
        typ.tag()
    }
}

/// The header of an attribute of this family, with its tag by name.
#[derive(Clone, Copy, Debug, PartialEq, Eq, Structural)]
pub struct RouteAttrHeader {
    /// The length of the header and the payload together, without padding.
    pub len: u16,
    pub typ: RouteAttrType,
}

impl RouteAttrHeader {
    /// The header as it stands on the wire, with its tag as a number.
    pub fn raw(self) -> (header: AttrHeader)
        ensures
            header == (AttrHeader { len: self.len, typ: self.typ.tag() }),
    {
        AttrHeader { len: self.len, typ: self.typ.into() }
    }

    /// Names the tag of a header that was read. A number that names no tag of
    /// the family is a failure.
    pub fn from_raw(header: AttrHeader) -> (r: Result<RouteAttrHeader>)
        ensures
            r == match RouteAttrType::of(header.typ) {
                Some(typ) => Ok::<RouteAttrHeader, Error>(
                    RouteAttrHeader { len: header.len, typ },
                ),
                None => Err::<RouteAttrHeader, Error>(Error::ErrCastEnum(header.typ)),
            },
    {
        match RouteAttrType::from_u16(header.typ) {
            Ok(typ) => Ok(RouteAttrHeader { len: header.len, typ }),
            Err(e) => Err(e),
        }
    }
}

impl Serialize for RouteAttrHeader {
    open spec fn wire(&self) -> Seq<u8> {
        u16_bytes(self.len) + u16_bytes(self.typ.tag())
    }

    fn serialize(&self) -> (bytes: Vec<u8>) {
        self.raw().serialize()
    }
}

/// A decoded route attribute.
#[derive(Clone, Debug, PartialEq, Eq)]
pub enum RouteAttrValue {
    Unspec(Vec<u8>),
    Dest(IpAddr),
    Source(IpAddr),
    InputInterfaceIndex(i32),
    OutputInterfaceIndex(i32),
    Gateway(IpAddr),
    Priority(i32),
    PreferredSourceAddr(IpAddr),
    Metrics(i32),
    Multipath(Vec<u8>),
    ProtoInfo(Vec<u8>),
    Flow(Vec<u8>),
    CacheInfo(Vec<u8>),
    Session(Vec<u8>),
    MpAlgo(Vec<u8>),
    Table(i32),
    Mark(Vec<u8>),
    MfcStats(Vec<u8>),
    Via(Vec<u8>),
    NewDest(Vec<u8>),
    Pref(i8),
    EncapType(i16),
    Encap(Vec<u8>),
    Expires(i32),
    /// An attribute whose tag the family does not name, with its payload as it
    /// came.
    Unknown(u16, Vec<u8>),
}

impl View for RouteAttrValue {
    type V = AttrModel<RouteAttrType>;

    /// The tag of the attribute and the model of its payload.
    open spec fn view(&self) -> AttrModel<RouteAttrType> {
        match *self {
            RouteAttrValue::Unspec(v) => AttrModel {
                tag: Tag::Known(RouteAttrType::Unspec),
                payload: Payload::Bytes(v@),
            },
            RouteAttrValue::Dest(v) => AttrModel {
                tag: Tag::Known(RouteAttrType::Dest),
                payload: Payload::Addr(v@),
            },
            RouteAttrValue::Source(v) => AttrModel {
                tag: Tag::Known(RouteAttrType::Source),
                payload: Payload::Addr(v@),
            },
            RouteAttrValue::InputInterfaceIndex(v) => AttrModel {
                tag: Tag::Known(RouteAttrType::InputInterfaceIndex),
                payload: Payload::I32(v),
            },
            RouteAttrValue::OutputInterfaceIndex(v) => AttrModel {
                tag: Tag::Known(RouteAttrType::OutputInterfaceIndex),
                payload: Payload::I32(v),
            },
            RouteAttrValue::Gateway(v) => AttrModel {
                tag: Tag::Known(RouteAttrType::Gateway),
                payload: Payload::Addr(v@),
            },
            RouteAttrValue::Priority(v) => AttrModel {
                tag: Tag::Known(RouteAttrType::Priority),
                payload: Payload::I32(v),
            },
            RouteAttrValue::PreferredSourceAddr(v) => AttrModel {
                tag: Tag::Known(RouteAttrType::PreferredSourceAddr),
                payload: Payload::Addr(v@),
            },
            RouteAttrValue::Metrics(v) => AttrModel {
                tag: Tag::Known(RouteAttrType::Metrics),
                payload: Payload::I32(v),
            },
            RouteAttrValue::Multipath(v) => AttrModel {
                tag: Tag::Known(RouteAttrType::Multipath),
                payload: Payload::Bytes(v@),
            },
            RouteAttrValue::ProtoInfo(v) => AttrModel {
                tag: Tag::Known(RouteAttrType::ProtoInfo),
                payload: Payload::Bytes(v@),
            },
            RouteAttrValue::Flow(v) => AttrModel {
                tag: Tag::Known(RouteAttrType::Flow),
                payload: Payload::Bytes(v@),
            },
            RouteAttrValue::CacheInfo(v) => AttrModel {
                tag: Tag::Known(RouteAttrType::CacheInfo),
                payload: Payload::Bytes(v@),
            },
            RouteAttrValue::Session(v) => AttrModel {
                tag: Tag::Known(RouteAttrType::Session),
                payload: Payload::Bytes(v@),
            },
            RouteAttrValue::MpAlgo(v) => AttrModel {
                tag: Tag::Known(RouteAttrType::MpAlgo),
                payload: Payload::Bytes(v@),
            },
            RouteAttrValue::Table(v) => AttrModel {
                tag: Tag::Known(RouteAttrType::Table),
                payload: Payload::I32(v),
            },
            RouteAttrValue::Mark(v) => AttrModel {
                tag: Tag::Known(RouteAttrType::Mark),
                payload: Payload::Bytes(v@),
            },
            RouteAttrValue::MfcStats(v) => AttrModel {
                tag: Tag::Known(RouteAttrType::MfcStats),
                payload: Payload::Bytes(v@),
            },
            RouteAttrValue::Via(v) => AttrModel {
                tag: Tag::Known(RouteAttrType::Via),
                payload: Payload::Bytes(v@),
            },
            RouteAttrValue::NewDest(v) => AttrModel {
                tag: Tag::Known(RouteAttrType::NewDest),
                payload: Payload::Bytes(v@),
            },
            RouteAttrValue::Pref(v) => AttrModel {
                tag: Tag::Known(RouteAttrType::Pref),
                payload: Payload::I8(v),
            },
            RouteAttrValue::EncapType(v) => AttrModel {
                tag: Tag::Known(RouteAttrType::EncapType),
                payload: Payload::I16(v),
            },
            RouteAttrValue::Encap(v) => AttrModel {
                tag: Tag::Known(RouteAttrType::Encap),
                payload: Payload::Bytes(v@),
            },
            RouteAttrValue::Expires(v) => AttrModel {
                tag: Tag::Known(RouteAttrType::Expires),
                payload: Payload::I32(v),
            },
            RouteAttrValue::Unknown(raw, v) => AttrModel {
                tag: Tag::Unknown(raw),
                payload: Payload::Bytes(v@),
            },
        }
    }
}

impl RouteAttrValue {
    /// What decoding `payload` as the attribute with tag `typ` gives.
    pub open spec fn decoded(typ: RouteAttrType, payload: Seq<u8>) -> core::result::Result<
        AttrModel<RouteAttrType>,
        Error,
    > {
        match decode_payload(typ.payload_kind(), payload) {
            Ok(p) => Ok(AttrModel { tag: Tag::Known(typ), payload: p }),
            Err(e) => Err(e),
        }
    }

    /// Decodes the payload of the attribute with tag `typ`.
    pub fn deserialize(typ: RouteAttrType, payload: &[u8]) -> (r: Result<RouteAttrValue>)
        ensures
            match RouteAttrValue::decoded(typ, payload@) {
                Ok(model) => r is Ok && r.unwrap()@ == model,
                Err(e) => r == Err::<RouteAttrValue, Error>(e),
            },
    {
        match typ {
            RouteAttrType::Unspec => Ok(RouteAttrValue::Unspec(slice_to_vec(payload))),
            RouteAttrType::Dest => match deserialize_ip_addr(payload) {
                Ok(v) => Ok(RouteAttrValue::Dest(v)),
                Err(e) => Err(e),
            },
            RouteAttrType::Source => match deserialize_ip_addr(payload) {
                Ok(v) => Ok(RouteAttrValue::Source(v)),
                Err(e) => Err(e),
            },
            RouteAttrType::InputInterfaceIndex => match deserialize_i32(payload) {
                Ok(v) => Ok(RouteAttrValue::InputInterfaceIndex(v)),
                Err(e) => Err(e),
            },
            RouteAttrType::OutputInterfaceIndex => match deserialize_i32(payload) {
                Ok(v) => Ok(RouteAttrValue::OutputInterfaceIndex(v)),
                Err(e) => Err(e),
            },
            RouteAttrType::Gateway => match deserialize_ip_addr(payload) {
                Ok(v) => Ok(RouteAttrValue::Gateway(v)),
                Err(e) => Err(e),
            },
            RouteAttrType::Priority => match deserialize_i32(payload) {
                Ok(v) => Ok(RouteAttrValue::Priority(v)),
                Err(e) => Err(e),
            },
            RouteAttrType::PreferredSourceAddr => match deserialize_ip_addr(payload) {
                Ok(v) => Ok(RouteAttrValue::PreferredSourceAddr(v)),
                Err(e) => Err(e),
            },
            RouteAttrType::Metrics => match deserialize_i32(payload) {
                Ok(v) => Ok(RouteAttrValue::Metrics(v)),
                Err(e) => Err(e),
            },
            RouteAttrType::Multipath => Ok(RouteAttrValue::Multipath(slice_to_vec(payload))),
            RouteAttrType::ProtoInfo => Ok(RouteAttrValue::ProtoInfo(slice_to_vec(payload))),
            RouteAttrType::Flow => Ok(RouteAttrValue::Flow(slice_to_vec(payload))),
            RouteAttrType::CacheInfo => Ok(RouteAttrValue::CacheInfo(slice_to_vec(payload))),
            RouteAttrType::Session => Ok(RouteAttrValue::Session(slice_to_vec(payload))),
            RouteAttrType::MpAlgo => Ok(RouteAttrValue::MpAlgo(slice_to_vec(payload))),
            RouteAttrType::Table => match deserialize_i32(payload) {
                Ok(v) => Ok(RouteAttrValue::Table(v)),
                Err(e) => Err(e),
            },
            RouteAttrType::Mark => Ok(RouteAttrValue::Mark(slice_to_vec(payload))),
            RouteAttrType::MfcStats => Ok(RouteAttrValue::MfcStats(slice_to_vec(payload))),
            RouteAttrType::Via => Ok(RouteAttrValue::Via(slice_to_vec(payload))),
            RouteAttrType::NewDest => Ok(RouteAttrValue::NewDest(slice_to_vec(payload))),
            RouteAttrType::Pref => match deserialize_i8(payload) {
                Ok(v) => Ok(RouteAttrValue::Pref(v)),
                Err(e) => Err(e),
            },
            RouteAttrType::EncapType => match deserialize_i16(payload) {
                Ok(v) => Ok(RouteAttrValue::EncapType(v)),
                Err(e) => Err(e),
            },
            RouteAttrType::Encap => Ok(RouteAttrValue::Encap(slice_to_vec(payload))),
            RouteAttrType::Expires => match deserialize_i32(payload) {
                Ok(v) => Ok(RouteAttrValue::Expires(v)),
                Err(e) => Err(e),
            },
        }
    }

    /// What decoding `payload` as the attribute with the tag number `raw` gives:
    /// a number that names no tag keeps its payload as bytes.
    pub open spec fn decoded_raw(raw: u16, payload: Seq<u8>) -> core::result::Result<
        AttrModel<RouteAttrType>,
        Error,
    > {
        match RouteAttrType::of(raw) {
            Some(typ) => RouteAttrValue::decoded(typ, payload),
            None => Ok(AttrModel { tag: Tag::Unknown(raw), payload: Payload::Bytes(payload) }),
        }
    }

    /// Decodes the payload of the attribute with the tag number `raw`. An
    /// unknown number is no error: the payload is kept as bytes.
    pub fn deserialize_raw(raw: u16, payload: &[u8]) -> (r: Result<RouteAttrValue>)
        ensures
            match RouteAttrValue::decoded_raw(raw, payload@) {
                Ok(model) => r is Ok && r.unwrap()@ == model,
                Err(e) => r == Err::<RouteAttrValue, Error>(e),
            },
    {
        match RouteAttrType::from_u16(raw) {
            Ok(typ) => RouteAttrValue::deserialize(typ, payload),
            Err(_) => Ok(RouteAttrValue::Unknown(raw, slice_to_vec(payload))),
        }
    }
}

impl DeserializeTyped for RouteAttrValue {
    open spec fn decoded(header: AttrHeader, payload: Seq<u8>) -> core::result::Result<
        AttrModel<RouteAttrType>,
        Error,
    > {
        RouteAttrValue::decoded_raw(header.typ, payload)
    }

    fn deserialize(header: &AttrHeader, payload: &[u8]) -> (r: Result<RouteAttrValue>) {
        RouteAttrValue::deserialize_raw(header.typ, payload)
    }
}

} // verus!
