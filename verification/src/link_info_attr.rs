//! The attributes nested in the link-info attribute of an interface message.

use vstd::prelude::*;
use vstd::slice::slice_to_vec;
use vstd::std_specs::convert::FromSpecImpl;
use crate::attr::{
    decode_payload, AttrHeader, AttrModel, DeserializeTyped, Payload, PayloadKind, Tag,
};
use crate::deserialize::{deserialize_ascii};
use crate::error::{Error, Result};
use crate::serialize::{u16_bytes, Serialize};

verus! {

/// The tag of an attribute nested in a link-info attribute.
#[derive(Clone, Copy, Debug, PartialEq, Eq, Structural)]
pub enum LinkInfoAttrType {
    Unspec,
    Kind,
    Data,
    XStats,
    SlaveKind,
    SlaveData,
}

impl LinkInfoAttrType {
    /// The number that stands for the tag on the wire.
    pub open spec fn tag(self) -> u16 {
        match self {
            LinkInfoAttrType::Unspec => 0,
            LinkInfoAttrType::Kind => 1,
            LinkInfoAttrType::Data => 2,
            LinkInfoAttrType::XStats => 3,
            LinkInfoAttrType::SlaveKind => 4,
            LinkInfoAttrType::SlaveData => 5,
        }
    }

    /// The shape of the payload that an attribute with this tag carries.
    pub open spec fn payload_kind(self) -> PayloadKind {
        match self {
            LinkInfoAttrType::Kind => PayloadKind::Text,
            _ => PayloadKind::Bytes,
        }
    }

    /// The tag that `raw` stands for.
    pub open spec fn of(raw: u16) -> Option<LinkInfoAttrType> {
        match raw {
            0 => Some(LinkInfoAttrType::Unspec),
            1 => Some(LinkInfoAttrType::Kind),
            2 => Some(LinkInfoAttrType::Data),
            3 => Some(LinkInfoAttrType::XStats),
            4 => Some(LinkInfoAttrType::SlaveKind),
            5 => Some(LinkInfoAttrType::SlaveData),
            _ => None,
        }
    }

    /// Names the tag that `raw` stands for. A number above 5 stands for none.
    pub fn from_u16(raw: u16) -> (r: Result<LinkInfoAttrType>)
        ensures
            r == match LinkInfoAttrType::of(raw) {
                Some(typ) => Ok::<LinkInfoAttrType, Error>(typ),
                None => Err::<LinkInfoAttrType, Error>(Error::ErrCastEnum(raw)),
            },
            r is Ok <==> raw <= 5,
            r is Ok ==> r.unwrap().tag() == raw,
    {
        match raw {
            0 => Ok(LinkInfoAttrType::Unspec),
            1 => Ok(LinkInfoAttrType::Kind),
            2 => Ok(LinkInfoAttrType::Data),
            3 => Ok(LinkInfoAttrType::XStats),
            4 => Ok(LinkInfoAttrType::SlaveKind),
            5 => Ok(LinkInfoAttrType::SlaveData),
            _ => Err(Error::ErrCastEnum(raw)),
        }
    }
}

impl From<LinkInfoAttrType> for u16 {
    /// The number that stands for the tag on the wire.
    fn from(typ: LinkInfoAttrType) -> (raw: u16) {
        match typ {
            LinkInfoAttrType::Unspec => 0,
            LinkInfoAttrType::Kind => 1,
            LinkInfoAttrType::Data => 2,
            LinkInfoAttrType::XStats => 3,
            LinkInfoAttrType::SlaveKind => 4,
            LinkInfoAttrType::SlaveData => 5,
        }
    }
}

impl FromSpecImpl<LinkInfoAttrType> for u16 {
    open spec fn obeys_from_spec() -> bool {
        true
    }

    open spec fn from_spec(typ: LinkInfoAttrType) -> u16 {
        typ.tag()
    }
}

/// The header of an attribute of this family, with its tag by name.
#[derive(Clone, Copy, Debug, PartialEq, Eq, Structural)]
pub struct LinkInfoAttrHeader {
    /// The length of the header and the payload together, without padding.
    pub len: u16,
    pub typ: LinkInfoAttrType,
}

impl LinkInfoAttrHeader {
    /// The header as it stands on the wire, with its tag as a number.
    pub fn raw(self) -> (header: AttrHeader)
        ensures
            header == (AttrHeader { len: self.len, typ: self.typ.tag() }),
    {
        AttrHeader { len: self.len, typ: self.typ.into() }
    }

    /// Names the tag of a header that was read. A number that names no tag of
    /// the family is a failure.
    pub fn from_raw(header: AttrHeader) -> (r: Result<LinkInfoAttrHeader>)
        ensures
            r == match LinkInfoAttrType::of(header.typ) {
                Some(typ) => Ok::<LinkInfoAttrHeader, Error>(
                    LinkInfoAttrHeader { len: header.len, typ },
                ),
                None => Err::<LinkInfoAttrHeader, Error>(Error::ErrCastEnum(header.typ)),
            },
    {
        match LinkInfoAttrType::from_u16(header.typ) {
            Ok(typ) => Ok(LinkInfoAttrHeader { len: header.len, typ }),
            Err(e) => Err(e),
        }
    }
}

impl Serialize for LinkInfoAttrHeader {
    open spec fn wire(&self) -> Seq<u8> {
        u16_bytes(self.len) + u16_bytes(self.typ.tag())
    }

    fn serialize(&self) -> (bytes: Vec<u8>) {
        self.raw().serialize()
    }
}

/// A decoded attribute of a link-info attribute.
#[derive(Clone, Debug, PartialEq, Eq)]
pub enum LinkInfoAttrValue {
    Unspec(Vec<u8>),
    Kind(String),
    Data(Vec<u8>),
    XStats(Vec<u8>),
    SlaveKind(Vec<u8>),
    SlaveData(Vec<u8>),
    /// An attribute whose tag the family does not name, with its payload as it
    /// came.
    Unknown(u16, Vec<u8>),
}

impl View for LinkInfoAttrValue {
    type V = AttrModel<LinkInfoAttrType>;

    /// The tag of the attribute and the model of its payload.
    open spec fn view(&self) -> AttrModel<LinkInfoAttrType> {
        match *self {
            LinkInfoAttrValue::Unspec(v) => AttrModel {
                tag: Tag::Known(LinkInfoAttrType::Unspec),
                payload: Payload::Bytes(v@),
            },
            LinkInfoAttrValue::Kind(v) => AttrModel {
                tag: Tag::Known(LinkInfoAttrType::Kind),
                payload: Payload::Text(v@),
            },
            LinkInfoAttrValue::Data(v) => AttrModel {
                tag: Tag::Known(LinkInfoAttrType::Data),
                payload: Payload::Bytes(v@),
            },
            LinkInfoAttrValue::XStats(v) => AttrModel {
                tag: Tag::Known(LinkInfoAttrType::XStats),
                payload: Payload::Bytes(v@),
            },
            LinkInfoAttrValue::SlaveKind(v) => AttrModel {
                tag: Tag::Known(LinkInfoAttrType::SlaveKind),
                payload: Payload::Bytes(v@),
            },
            LinkInfoAttrValue::SlaveData(v) => AttrModel {
                tag: Tag::Known(LinkInfoAttrType::SlaveData),
                payload: Payload::Bytes(v@),
            },
            LinkInfoAttrValue::Unknown(raw, v) => AttrModel {
                tag: Tag::Unknown(raw),
                payload: Payload::Bytes(v@),
            },
        }
    }
}

impl LinkInfoAttrValue {
    /// What decoding `payload` as the attribute with tag `typ` gives.
    pub open spec fn decoded(typ: LinkInfoAttrType, payload: Seq<u8>) -> core::result::Result<
        AttrModel<LinkInfoAttrType>,
        Error,
    > {
        match decode_payload(typ.payload_kind(), payload) {
            Ok(p) => Ok(AttrModel { tag: Tag::Known(typ), payload: p }),
            Err(e) => Err(e),
        }
    }

    /// Decodes the payload of the attribute with tag `typ`.
    pub fn deserialize(typ: LinkInfoAttrType, payload: &[u8]) -> (r: Result<LinkInfoAttrValue>)
        ensures
            match LinkInfoAttrValue::decoded(typ, payload@) {
                Ok(model) => r is Ok && r.unwrap()@ == model,
                Err(e) => r == Err::<LinkInfoAttrValue, Error>(e),
            },
    {
        match typ {
            LinkInfoAttrType::Unspec => Ok(LinkInfoAttrValue::Unspec(slice_to_vec(payload))),
            LinkInfoAttrType::Kind => Ok(LinkInfoAttrValue::Kind(deserialize_ascii(payload))),
            LinkInfoAttrType::Data => Ok(LinkInfoAttrValue::Data(slice_to_vec(payload))),
            LinkInfoAttrType::XStats => Ok(LinkInfoAttrValue::XStats(slice_to_vec(payload))),
            LinkInfoAttrType::SlaveKind => Ok(
                LinkInfoAttrValue::SlaveKind(slice_to_vec(payload)),
            ),
            LinkInfoAttrType::SlaveData => Ok(
                LinkInfoAttrValue::SlaveData(slice_to_vec(payload)),
            ),
        }
    }

    /// What decoding `payload` as the attribute with the tag number `raw` gives:
    /// a number that names no tag keeps its payload as bytes.
    pub open spec fn decoded_raw(raw: u16, payload: Seq<u8>) -> core::result::Result<
        AttrModel<LinkInfoAttrType>,
        Error,
    > {
        match LinkInfoAttrType::of(raw) {
            Some(typ) => LinkInfoAttrValue::decoded(typ, payload),
            None => Ok(AttrModel { tag: Tag::Unknown(raw), payload: Payload::Bytes(payload) }),
        }
    }

    /// Decodes the payload of the attribute with the tag number `raw`. An
    /// unknown number is no error: the payload is kept as bytes.
    pub fn deserialize_raw(raw: u16, payload: &[u8]) -> (r: Result<LinkInfoAttrValue>)
        ensures
            match LinkInfoAttrValue::decoded_raw(raw, payload@) {
                Ok(model) => r is Ok && r.unwrap()@ == model,
                Err(e) => r == Err::<LinkInfoAttrValue, Error>(e),
            },
    {
        match LinkInfoAttrType::from_u16(raw) {
            Ok(typ) => LinkInfoAttrValue::deserialize(typ, payload),
            Err(_) => Ok(LinkInfoAttrValue::Unknown(raw, slice_to_vec(payload))),
        }
    }
}

impl DeserializeTyped for LinkInfoAttrValue {
    open spec fn decoded(header: AttrHeader, payload: Seq<u8>) -> core::result::Result<
        AttrModel<LinkInfoAttrType>,
        Error,
    > {
        LinkInfoAttrValue::decoded_raw(header.typ, payload)
    }

    fn deserialize(header: &AttrHeader, payload: &[u8]) -> (r: Result<LinkInfoAttrValue>) {
        LinkInfoAttrValue::deserialize_raw(header.typ, payload)
    }
}

} // verus!
