//! The attributes of interface messages: their tags, the shape of each
//! payload, and the decoded values.

use vstd::prelude::*;
use vstd::slice::slice_to_vec;
use vstd::std_specs::convert::FromSpecImpl;
use crate::attr::{
    decode_payload, AttrHeader, AttrModel, DeserializeTyped, Payload, PayloadKind, Tag,
};
use crate::deserialize::{deserialize_ascii, deserialize_ip_addr, deserialize_u32, IpAddr};
use crate::error::{Error, Result};
use crate::serialize::{u16_bytes, Serialize};
use crate::stats::{LinkStats, Stats64};

verus! {

/// The tag of an interface attribute.
///
/// `TargetNetnsid` is the kernel's second name for `IfNetnsid`: both stand for
/// tag 46, and a tag read from the wire is `IfNetnsid`.
#[derive(Clone, Copy, Debug, PartialEq, Eq, Structural)]
pub enum LinkAttrType {
    Unspec,
    Address,
    Broadcast,
    InterfaceName,
    MaxTransmissionUnit,
    Link,
    QueueingDiscipline,
    Stats,
    Cost,
    Priority,
    Master,
    Wireless,
    Protinfo,
    TransmissionQueueLen,
    IfMap,
    Weight,
    Operstate,
    Linkmode,
    LinkInfo,
    NetNsPid,
    InterfaceAlias,
    NumVf,
    VfinfoList,
    Stats64,
    VfPorts,
    PortSelf,
    AfSpec,
    Group,
    NetNsFd,
    ExtMask,
    Promiscuity,
    NumTxQueues,
    NumRxQueues,
    Carrier,
    PhysPortId,
    CarrierChanges,
    PhysSwitchId,
    LinkNetnsid,
    PhysPortName,
    ProtoDown,
    GsoMaxSegs,
    GsoMaxSize,
    Pad,
    Xdp,
    Event,
    NewNetnsid,
    IfNetnsid,
    TargetNetnsid,
    CarrierUpCount,
    CarrierDownCount,
    NewInterfaceIndex,
    MinMtu,
    MaxMtu,
    PropList,
    AltInterfaceName,
    PermAddress,
    ProtoDownReason,
    ParentDevName,
    ParentDevBusName,
    GroMaxSize,
    TsoMaxSize,
    TsoMaxSegs,
    AllMulti,
}

impl LinkAttrType {
    /// The number that stands for the tag on the wire.
    pub open spec fn tag(self) -> u16 {
        match self {
            LinkAttrType::Unspec => 0,
            LinkAttrType::Address => 1,
            LinkAttrType::Broadcast => 2,
            LinkAttrType::InterfaceName => 3,
            LinkAttrType::MaxTransmissionUnit => 4,
            LinkAttrType::Link => 5,
            LinkAttrType::QueueingDiscipline => 6,
            LinkAttrType::Stats => 7,
            LinkAttrType::Cost => 8,
            LinkAttrType::Priority => 9,
            LinkAttrType::Master => 10,
            LinkAttrType::Wireless => 11,
            LinkAttrType::Protinfo => 12,
            LinkAttrType::TransmissionQueueLen => 13,
            LinkAttrType::IfMap => 14,
            LinkAttrType::Weight => 15,
            LinkAttrType::Operstate => 16,
            LinkAttrType::Linkmode => 17,
            LinkAttrType::LinkInfo => 18,
            LinkAttrType::NetNsPid => 19,
            LinkAttrType::InterfaceAlias => 20,
            LinkAttrType::NumVf => 21,
            LinkAttrType::VfinfoList => 22,
            LinkAttrType::Stats64 => 23,
            LinkAttrType::VfPorts => 24,
            LinkAttrType::PortSelf => 25,
            LinkAttrType::AfSpec => 26,
            LinkAttrType::Group => 27,
            LinkAttrType::NetNsFd => 28,
            LinkAttrType::ExtMask => 29,
            LinkAttrType::Promiscuity => 30,
            LinkAttrType::NumTxQueues => 31,
            LinkAttrType::NumRxQueues => 32,
            LinkAttrType::Carrier => 33,
            LinkAttrType::PhysPortId => 34,
            LinkAttrType::CarrierChanges => 35,
            LinkAttrType::PhysSwitchId => 36,
            LinkAttrType::LinkNetnsid => 37,
            LinkAttrType::PhysPortName => 38,
            LinkAttrType::ProtoDown => 39,
            LinkAttrType::GsoMaxSegs => 40,
            LinkAttrType::GsoMaxSize => 41,
            LinkAttrType::Pad => 42,
            LinkAttrType::Xdp => 43,
            LinkAttrType::Event => 44,
            LinkAttrType::NewNetnsid => 45,
            LinkAttrType::IfNetnsid => 46,
            LinkAttrType::TargetNetnsid => 46,
            LinkAttrType::CarrierUpCount => 47,
            LinkAttrType::CarrierDownCount => 48,
            LinkAttrType::NewInterfaceIndex => 49,
            LinkAttrType::MinMtu => 50,
            LinkAttrType::MaxMtu => 51,
            LinkAttrType::PropList => 52,
            LinkAttrType::AltInterfaceName => 53,
            LinkAttrType::PermAddress => 54,
            LinkAttrType::ProtoDownReason => 55,
            LinkAttrType::ParentDevName => 56,
            LinkAttrType::ParentDevBusName => 57,
            LinkAttrType::GroMaxSize => 58,
            LinkAttrType::TsoMaxSize => 59,
            LinkAttrType::TsoMaxSegs => 60,
            LinkAttrType::AllMulti => 61,
        }
    }

    /// The shape of the payload that an attribute with this tag carries.
    pub open spec fn payload_kind(self) -> PayloadKind {
        match self {
            LinkAttrType::Address
            | LinkAttrType::PermAddress => PayloadKind::Addr,
            LinkAttrType::InterfaceName
            | LinkAttrType::PhysPortName
            | LinkAttrType::AltInterfaceName
            | LinkAttrType::ParentDevName
            | LinkAttrType::ParentDevBusName => PayloadKind::Text,
            LinkAttrType::MaxTransmissionUnit
            | LinkAttrType::ExtMask
            | LinkAttrType::Promiscuity
            | LinkAttrType::GsoMaxSegs
            | LinkAttrType::GsoMaxSize
            | LinkAttrType::MinMtu
            | LinkAttrType::MaxMtu => PayloadKind::U32,
            LinkAttrType::Stats => PayloadKind::Stats,
            LinkAttrType::Stats64 => PayloadKind::Stats64,
            _ => PayloadKind::Bytes,
        }
    }

    /// The tag that `raw` stands for.
    pub open spec fn of(raw: u16) -> Option<LinkAttrType> {
        match raw {
            0 => Some(LinkAttrType::Unspec),
            1 => Some(LinkAttrType::Address),
            2 => Some(LinkAttrType::Broadcast),
            3 => Some(LinkAttrType::InterfaceName),
            4 => Some(LinkAttrType::MaxTransmissionUnit),
            5 => Some(LinkAttrType::Link),
            6 => Some(LinkAttrType::QueueingDiscipline),
            7 => Some(LinkAttrType::Stats),
            8 => Some(LinkAttrType::Cost),
            9 => Some(LinkAttrType::Priority),
            10 => Some(LinkAttrType::Master),
            11 => Some(LinkAttrType::Wireless),
            12 => Some(LinkAttrType::Protinfo),
            13 => Some(LinkAttrType::TransmissionQueueLen),
            14 => Some(LinkAttrType::IfMap),
            15 => Some(LinkAttrType::Weight),
            16 => Some(LinkAttrType::Operstate),
            17 => Some(LinkAttrType::Linkmode),
            18 => Some(LinkAttrType::LinkInfo),
            19 => Some(LinkAttrType::NetNsPid),
            20 => Some(LinkAttrType::InterfaceAlias),
            21 => Some(LinkAttrType::NumVf),
            22 => Some(LinkAttrType::VfinfoList),
            23 => Some(LinkAttrType::Stats64),
            24 => Some(LinkAttrType::VfPorts),
            25 => Some(LinkAttrType::PortSelf),
            26 => Some(LinkAttrType::AfSpec),
            27 => Some(LinkAttrType::Group),
            28 => Some(LinkAttrType::NetNsFd),
            29 => Some(LinkAttrType::ExtMask),
            30 => Some(LinkAttrType::Promiscuity),
            31 => Some(LinkAttrType::NumTxQueues),
            32 => Some(LinkAttrType::NumRxQueues),
            33 => Some(LinkAttrType::Carrier),
            34 => Some(LinkAttrType::PhysPortId),
            35 => Some(LinkAttrType::CarrierChanges),
            36 => Some(LinkAttrType::PhysSwitchId),
            37 => Some(LinkAttrType::LinkNetnsid),
            38 => Some(LinkAttrType::PhysPortName),
            39 => Some(LinkAttrType::ProtoDown),
            40 => Some(LinkAttrType::GsoMaxSegs),
            41 => Some(LinkAttrType::GsoMaxSize),
            42 => Some(LinkAttrType::Pad),
            43 => Some(LinkAttrType::Xdp),
            44 => Some(LinkAttrType::Event),
            45 => Some(LinkAttrType::NewNetnsid),
            46 => Some(LinkAttrType::IfNetnsid),
            47 => Some(LinkAttrType::CarrierUpCount),
            48 => Some(LinkAttrType::CarrierDownCount),
            49 => Some(LinkAttrType::NewInterfaceIndex),
            50 => Some(LinkAttrType::MinMtu),
            51 => Some(LinkAttrType::MaxMtu),
            52 => Some(LinkAttrType::PropList),
            53 => Some(LinkAttrType::AltInterfaceName),
            54 => Some(LinkAttrType::PermAddress),
            55 => Some(LinkAttrType::ProtoDownReason),
            56 => Some(LinkAttrType::ParentDevName),
            57 => Some(LinkAttrType::ParentDevBusName),
            58 => Some(LinkAttrType::GroMaxSize),
            59 => Some(LinkAttrType::TsoMaxSize),
            60 => Some(LinkAttrType::TsoMaxSegs),
            61 => Some(LinkAttrType::AllMulti),
            _ => None,
        }
    }

    /// Names the tag that `raw` stands for. A number above 61 stands for none.
    pub fn from_u16(raw: u16) -> (r: Result<LinkAttrType>)
        ensures
            r == match LinkAttrType::of(raw) {
                Some(typ) => Ok::<LinkAttrType, Error>(typ),
                None => Err::<LinkAttrType, Error>(Error::ErrCastEnum(raw)),
            },
            r is Ok <==> raw <= 61,
            r is Ok ==> r.unwrap().tag() == raw,
    {
        match raw {
            0 => Ok(LinkAttrType::Unspec),
            1 => Ok(LinkAttrType::Address),
            2 => Ok(LinkAttrType::Broadcast),
            3 => Ok(LinkAttrType::InterfaceName),
            4 => Ok(LinkAttrType::MaxTransmissionUnit),
            5 => Ok(LinkAttrType::Link),
            6 => Ok(LinkAttrType::QueueingDiscipline),
            7 => Ok(LinkAttrType::Stats),
            8 => Ok(LinkAttrType::Cost),
            9 => Ok(LinkAttrType::Priority),
            10 => Ok(LinkAttrType::Master),
            11 => Ok(LinkAttrType::Wireless),
            12 => Ok(LinkAttrType::Protinfo),
            13 => Ok(LinkAttrType::TransmissionQueueLen),
            14 => Ok(LinkAttrType::IfMap),
            15 => Ok(LinkAttrType::Weight),
            16 => Ok(LinkAttrType::Operstate),
            17 => Ok(LinkAttrType::Linkmode),
            18 => Ok(LinkAttrType::LinkInfo),
            19 => Ok(LinkAttrType::NetNsPid),
            20 => Ok(LinkAttrType::InterfaceAlias),
            21 => Ok(LinkAttrType::NumVf),
            22 => Ok(LinkAttrType::VfinfoList),
            23 => Ok(LinkAttrType::Stats64),
            24 => Ok(LinkAttrType::VfPorts),
            25 => Ok(LinkAttrType::PortSelf),
            26 => Ok(LinkAttrType::AfSpec),
            27 => Ok(LinkAttrType::Group),
            28 => Ok(LinkAttrType::NetNsFd),
            29 => Ok(LinkAttrType::ExtMask),
            30 => Ok(LinkAttrType::Promiscuity),
            31 => Ok(LinkAttrType::NumTxQueues),
            32 => Ok(LinkAttrType::NumRxQueues),
            33 => Ok(LinkAttrType::Carrier),
            34 => Ok(LinkAttrType::PhysPortId),
            35 => Ok(LinkAttrType::CarrierChanges),
            36 => Ok(LinkAttrType::PhysSwitchId),
            37 => Ok(LinkAttrType::LinkNetnsid),
            38 => Ok(LinkAttrType::PhysPortName),
            39 => Ok(LinkAttrType::ProtoDown),
            40 => Ok(LinkAttrType::GsoMaxSegs),
            41 => Ok(LinkAttrType::GsoMaxSize),
            42 => Ok(LinkAttrType::Pad),
            43 => Ok(LinkAttrType::Xdp),
            44 => Ok(LinkAttrType::Event),
            45 => Ok(LinkAttrType::NewNetnsid),
            46 => Ok(LinkAttrType::IfNetnsid),
            47 => Ok(LinkAttrType::CarrierUpCount),
            48 => Ok(LinkAttrType::CarrierDownCount),
            49 => Ok(LinkAttrType::NewInterfaceIndex),
            50 => Ok(LinkAttrType::MinMtu),
            51 => Ok(LinkAttrType::MaxMtu),
            52 => Ok(LinkAttrType::PropList),
            53 => Ok(LinkAttrType::AltInterfaceName),
            54 => Ok(LinkAttrType::PermAddress),
            55 => Ok(LinkAttrType::ProtoDownReason),
            56 => Ok(LinkAttrType::ParentDevName),
            57 => Ok(LinkAttrType::ParentDevBusName),
            58 => Ok(LinkAttrType::GroMaxSize),
            59 => Ok(LinkAttrType::TsoMaxSize),
            60 => Ok(LinkAttrType::TsoMaxSegs),
            61 => Ok(LinkAttrType::AllMulti),
            _ => Err(Error::ErrCastEnum(raw)),
        }
    }
}

impl From<LinkAttrType> for u16 {
    /// The number that stands for the tag on the wire.
    fn from(typ: LinkAttrType) -> (raw: u16) {
        match typ {
            LinkAttrType::Unspec => 0,
            LinkAttrType::Address => 1,
            LinkAttrType::Broadcast => 2,
            LinkAttrType::InterfaceName => 3,
            LinkAttrType::MaxTransmissionUnit => 4,
            LinkAttrType::Link => 5,
            LinkAttrType::QueueingDiscipline => 6,
            LinkAttrType::Stats => 7,
            LinkAttrType::Cost => 8,
            LinkAttrType::Priority => 9,
            LinkAttrType::Master => 10,
            LinkAttrType::Wireless => 11,
            LinkAttrType::Protinfo => 12,
            LinkAttrType::TransmissionQueueLen => 13,
            LinkAttrType::IfMap => 14,
            LinkAttrType::Weight => 15,
            LinkAttrType::Operstate => 16,
            LinkAttrType::Linkmode => 17,
            LinkAttrType::LinkInfo => 18,
            LinkAttrType::NetNsPid => 19,
            LinkAttrType::InterfaceAlias => 20,
            LinkAttrType::NumVf => 21,
            LinkAttrType::VfinfoList => 22,
            LinkAttrType::Stats64 => 23,
            LinkAttrType::VfPorts => 24,
            LinkAttrType::PortSelf => 25,
            LinkAttrType::AfSpec => 26,
            LinkAttrType::Group => 27,
            LinkAttrType::NetNsFd => 28,
            LinkAttrType::ExtMask => 29,
            LinkAttrType::Promiscuity => 30,
            LinkAttrType::NumTxQueues => 31,
            LinkAttrType::NumRxQueues => 32,
            LinkAttrType::Carrier => 33,
            LinkAttrType::PhysPortId => 34,
            LinkAttrType::CarrierChanges => 35,
            LinkAttrType::PhysSwitchId => 36,
            LinkAttrType::LinkNetnsid => 37,
            LinkAttrType::PhysPortName => 38,
            LinkAttrType::ProtoDown => 39,
            LinkAttrType::GsoMaxSegs => 40,
            LinkAttrType::GsoMaxSize => 41,
            LinkAttrType::Pad => 42,
            LinkAttrType::Xdp => 43,
            LinkAttrType::Event => 44,
            LinkAttrType::NewNetnsid => 45,
            LinkAttrType::IfNetnsid => 46,
            LinkAttrType::TargetNetnsid => 46,
            LinkAttrType::CarrierUpCount => 47,
            LinkAttrType::CarrierDownCount => 48,
            LinkAttrType::NewInterfaceIndex => 49,
            LinkAttrType::MinMtu => 50,
            LinkAttrType::MaxMtu => 51,
            LinkAttrType::PropList => 52,
            LinkAttrType::AltInterfaceName => 53,
            LinkAttrType::PermAddress => 54,
            LinkAttrType::ProtoDownReason => 55,
            LinkAttrType::ParentDevName => 56,
            LinkAttrType::ParentDevBusName => 57,
            LinkAttrType::GroMaxSize => 58,
            LinkAttrType::TsoMaxSize => 59,
            LinkAttrType::TsoMaxSegs => 60,
            LinkAttrType::AllMulti => 61,
        }
    }
}

impl FromSpecImpl<LinkAttrType> for u16 {
    open spec fn obeys_from_spec() -> bool {
        true
    }

    open spec fn from_spec(typ: LinkAttrType) -> u16 {
        typ.tag()
    }
}

/// The header of an attribute of this family, with its tag by name.
#[derive(Clone, Copy, Debug, PartialEq, Eq, Structural)]
pub struct LinkAttrHeader {
    /// The length of the header and the payload together, without padding.
    pub len: u16,
    pub typ: LinkAttrType,
}

impl LinkAttrHeader {
    /// The header as it stands on the wire, with its tag as a number.
    pub fn raw(self) -> (header: AttrHeader)
        ensures
            header == (AttrHeader { len: self.len, typ: self.typ.tag() }),
    {
        AttrHeader { len: self.len, typ: self.typ.into() }
    }

    /// Names the tag of a header that was read. A number that names no tag of
    /// the family is a failure.
    pub fn from_raw(header: AttrHeader) -> (r: Result<LinkAttrHeader>)
        ensures
            r == match LinkAttrType::of(header.typ) {
                Some(typ) => Ok::<LinkAttrHeader, Error>(
                    LinkAttrHeader { len: header.len, typ },
                ),
                None => Err::<LinkAttrHeader, Error>(Error::ErrCastEnum(header.typ)),
            },
    {
        match LinkAttrType::from_u16(header.typ) {
            Ok(typ) => Ok(LinkAttrHeader { len: header.len, typ }),
            Err(e) => Err(e),
        }
    }
}

impl Serialize for LinkAttrHeader {
    open spec fn wire(&self) -> Seq<u8> {
        u16_bytes(self.len) + u16_bytes(self.typ.tag())
    }

    fn serialize(&self) -> (bytes: Vec<u8>) {
        self.raw().serialize()
    }
}

/// A decoded interface attribute.
#[derive(Clone, Debug, PartialEq, Eq)]
pub enum LinkAttrValue {
    Unspec(Vec<u8>),
    Address(IpAddr),
    Broadcast(Vec<u8>),
    InterfaceName(String),
    MaxTransmissionUnit(u32),
    Link(Vec<u8>),
    QueueingDiscipline(Vec<u8>),
    Stats(LinkStats),
    Cost(Vec<u8>),
    Priority(Vec<u8>),
    Master(Vec<u8>),
    Wireless(Vec<u8>),
    Protinfo(Vec<u8>),
    TransmissionQueueLen(Vec<u8>),
    IfMap(Vec<u8>),
    Weight(Vec<u8>),
    Operstate(Vec<u8>),
    Linkmode(Vec<u8>),
    LinkInfo(Vec<u8>),
    NetNsPid(Vec<u8>),
    InterfaceAlias(Vec<u8>),
    NumVf(Vec<u8>),
    VfinfoList(Vec<u8>),
    Stats64(Stats64),
    VfPorts(Vec<u8>),
    PortSelf(Vec<u8>),
    AfSpec(Vec<u8>),
    Group(Vec<u8>),
    NetNsFd(Vec<u8>),
    ExtMask(u32),
    Promiscuity(u32),
    NumTxQueues(Vec<u8>),
    NumRxQueues(Vec<u8>),
    Carrier(Vec<u8>),
    PhysPortId(Vec<u8>),
    CarrierChanges(Vec<u8>),
    PhysSwitchId(Vec<u8>),
    LinkNetnsid(Vec<u8>),
    PhysPortName(String),
    ProtoDown(Vec<u8>),
    GsoMaxSegs(u32),
    GsoMaxSize(u32),
    Pad(Vec<u8>),
    Xdp(Vec<u8>),
    Event(Vec<u8>),
    NewNetnsid(Vec<u8>),
    IfNetnsid(Vec<u8>),
    TargetNetnsid(Vec<u8>),
    CarrierUpCount(Vec<u8>),
    CarrierDownCount(Vec<u8>),
    NewInterfaceIndex(Vec<u8>),
    MinMtu(u32),
    MaxMtu(u32),
    PropList(Vec<u8>),
    AltInterfaceName(String),
    PermAddress(IpAddr),
    ProtoDownReason(Vec<u8>),
    ParentDevName(String),
    ParentDevBusName(String),
    GroMaxSize(Vec<u8>),
    TsoMaxSize(Vec<u8>),
    TsoMaxSegs(Vec<u8>),
    AllMulti(Vec<u8>),
    /// An attribute whose tag the family does not name, with its payload as it
    /// came.
    Unknown(u16, Vec<u8>),
}

impl View for LinkAttrValue {
    type V = AttrModel<LinkAttrType>;

    /// The tag of the attribute and the model of its payload.
    open spec fn view(&self) -> AttrModel<LinkAttrType> {
        match *self {
            LinkAttrValue::Unspec(v) => AttrModel {
                tag: Tag::Known(LinkAttrType::Unspec),
                payload: Payload::Bytes(v@),
            },
            LinkAttrValue::Address(v) => AttrModel {
                tag: Tag::Known(LinkAttrType::Address),
                payload: Payload::Addr(v@),
            },
            LinkAttrValue::Broadcast(v) => AttrModel {
                tag: Tag::Known(LinkAttrType::Broadcast),
                payload: Payload::Bytes(v@),
            },
            LinkAttrValue::InterfaceName(v) => AttrModel {
                tag: Tag::Known(LinkAttrType::InterfaceName),
                payload: Payload::Text(v@),
            },
            LinkAttrValue::MaxTransmissionUnit(v) => AttrModel {
                tag: Tag::Known(LinkAttrType::MaxTransmissionUnit),
                payload: Payload::U32(v),
            },
            LinkAttrValue::Link(v) => AttrModel {
                tag: Tag::Known(LinkAttrType::Link),
                payload: Payload::Bytes(v@),
            },
            LinkAttrValue::QueueingDiscipline(v) => AttrModel {
                tag: Tag::Known(LinkAttrType::QueueingDiscipline),
                payload: Payload::Bytes(v@),
            },
            LinkAttrValue::Stats(v) => AttrModel {
                tag: Tag::Known(LinkAttrType::Stats),
                payload: Payload::Stats(v),
            },
            LinkAttrValue::Cost(v) => AttrModel {
                tag: Tag::Known(LinkAttrType::Cost),
                payload: Payload::Bytes(v@),
            },
            LinkAttrValue::Priority(v) => AttrModel {
                tag: Tag::Known(LinkAttrType::Priority),
                payload: Payload::Bytes(v@),
            },
            LinkAttrValue::Master(v) => AttrModel {
                tag: Tag::Known(LinkAttrType::Master),
                payload: Payload::Bytes(v@),
            },
            LinkAttrValue::Wireless(v) => AttrModel {
                tag: Tag::Known(LinkAttrType::Wireless),
                payload: Payload::Bytes(v@),
            },
            LinkAttrValue::Protinfo(v) => AttrModel {
                tag: Tag::Known(LinkAttrType::Protinfo),
                payload: Payload::Bytes(v@),
            },
            LinkAttrValue::TransmissionQueueLen(v) => AttrModel {
                tag: Tag::Known(LinkAttrType::TransmissionQueueLen),
                payload: Payload::Bytes(v@),
            },
            LinkAttrValue::IfMap(v) => AttrModel {
                tag: Tag::Known(LinkAttrType::IfMap),
                payload: Payload::Bytes(v@),
            },
            LinkAttrValue::Weight(v) => AttrModel {
                tag: Tag::Known(LinkAttrType::Weight),
                payload: Payload::Bytes(v@),
            },
            LinkAttrValue::Operstate(v) => AttrModel {
                tag: Tag::Known(LinkAttrType::Operstate),
                payload: Payload::Bytes(v@),
            },
            LinkAttrValue::Linkmode(v) => AttrModel {
                tag: Tag::Known(LinkAttrType::Linkmode),
                payload: Payload::Bytes(v@),
            },
            LinkAttrValue::LinkInfo(v) => AttrModel {
                tag: Tag::Known(LinkAttrType::LinkInfo),
                payload: Payload::Bytes(v@),
            },
            LinkAttrValue::NetNsPid(v) => AttrModel {
                tag: Tag::Known(LinkAttrType::NetNsPid),
                payload: Payload::Bytes(v@),
            },
            LinkAttrValue::InterfaceAlias(v) => AttrModel {
                tag: Tag::Known(LinkAttrType::InterfaceAlias),
                payload: Payload::Bytes(v@),
            },
            LinkAttrValue::NumVf(v) => AttrModel {
                tag: Tag::Known(LinkAttrType::NumVf),
                payload: Payload::Bytes(v@),
            },
            LinkAttrValue::VfinfoList(v) => AttrModel {
                tag: Tag::Known(LinkAttrType::VfinfoList),
                payload: Payload::Bytes(v@),
            },
            LinkAttrValue::Stats64(v) => AttrModel {
                tag: Tag::Known(LinkAttrType::Stats64),
                payload: Payload::Stats64(v),
            },
            LinkAttrValue::VfPorts(v) => AttrModel {
                tag: Tag::Known(LinkAttrType::VfPorts),
                payload: Payload::Bytes(v@),
            },
            LinkAttrValue::PortSelf(v) => AttrModel {
                tag: Tag::Known(LinkAttrType::PortSelf),
                payload: Payload::Bytes(v@),
            },
            LinkAttrValue::AfSpec(v) => AttrModel {
                tag: Tag::Known(LinkAttrType::AfSpec),
                payload: Payload::Bytes(v@),
            },
            LinkAttrValue::Group(v) => AttrModel {
                tag: Tag::Known(LinkAttrType::Group),
                payload: Payload::Bytes(v@),
            },
            LinkAttrValue::NetNsFd(v) => AttrModel {
                tag: Tag::Known(LinkAttrType::NetNsFd),
                payload: Payload::Bytes(v@),
            },
            LinkAttrValue::ExtMask(v) => AttrModel {
                tag: Tag::Known(LinkAttrType::ExtMask),
                payload: Payload::U32(v),
            },
            LinkAttrValue::Promiscuity(v) => AttrModel {
                tag: Tag::Known(LinkAttrType::Promiscuity),
                payload: Payload::U32(v),
            },
            LinkAttrValue::NumTxQueues(v) => AttrModel {
                tag: Tag::Known(LinkAttrType::NumTxQueues),
                payload: Payload::Bytes(v@),
            },
            LinkAttrValue::NumRxQueues(v) => AttrModel {
                tag: Tag::Known(LinkAttrType::NumRxQueues),
                payload: Payload::Bytes(v@),
            },
            LinkAttrValue::Carrier(v) => AttrModel {
                tag: Tag::Known(LinkAttrType::Carrier),
                payload: Payload::Bytes(v@),
            },
            LinkAttrValue::PhysPortId(v) => AttrModel {
                tag: Tag::Known(LinkAttrType::PhysPortId),
                payload: Payload::Bytes(v@),
            },
            LinkAttrValue::CarrierChanges(v) => AttrModel {
                tag: Tag::Known(LinkAttrType::CarrierChanges),
                payload: Payload::Bytes(v@),
            },
            LinkAttrValue::PhysSwitchId(v) => AttrModel {
                tag: Tag::Known(LinkAttrType::PhysSwitchId),
                payload: Payload::Bytes(v@),
            },
            LinkAttrValue::LinkNetnsid(v) => AttrModel {
                tag: Tag::Known(LinkAttrType::LinkNetnsid),
                payload: Payload::Bytes(v@),
            },
            LinkAttrValue::PhysPortName(v) => AttrModel {
                tag: Tag::Known(LinkAttrType::PhysPortName),
                payload: Payload::Text(v@),
            },
            LinkAttrValue::ProtoDown(v) => AttrModel {
                tag: Tag::Known(LinkAttrType::ProtoDown),
                payload: Payload::Bytes(v@),
            },
            LinkAttrValue::GsoMaxSegs(v) => AttrModel {
                tag: Tag::Known(LinkAttrType::GsoMaxSegs),
                payload: Payload::U32(v),
            },
            LinkAttrValue::GsoMaxSize(v) => AttrModel {
                tag: Tag::Known(LinkAttrType::GsoMaxSize),
                payload: Payload::U32(v),
            },
            LinkAttrValue::Pad(v) => AttrModel {
                tag: Tag::Known(LinkAttrType::Pad),
                payload: Payload::Bytes(v@),
            },
            LinkAttrValue::Xdp(v) => AttrModel {
                tag: Tag::Known(LinkAttrType::Xdp),
                payload: Payload::Bytes(v@),
            },
            LinkAttrValue::Event(v) => AttrModel {
                tag: Tag::Known(LinkAttrType::Event),
                payload: Payload::Bytes(v@),
            },
            LinkAttrValue::NewNetnsid(v) => AttrModel {
                tag: Tag::Known(LinkAttrType::NewNetnsid),
                payload: Payload::Bytes(v@),
            },
            LinkAttrValue::IfNetnsid(v) => AttrModel {
                tag: Tag::Known(LinkAttrType::IfNetnsid),
                payload: Payload::Bytes(v@),
            },
            LinkAttrValue::TargetNetnsid(v) => AttrModel {
                tag: Tag::Known(LinkAttrType::TargetNetnsid),
                payload: Payload::Bytes(v@),
            },
            LinkAttrValue::CarrierUpCount(v) => AttrModel {
                tag: Tag::Known(LinkAttrType::CarrierUpCount),
                payload: Payload::Bytes(v@),
            },
            LinkAttrValue::CarrierDownCount(v) => AttrModel {
                tag: Tag::Known(LinkAttrType::CarrierDownCount),
                payload: Payload::Bytes(v@),
            },
            LinkAttrValue::NewInterfaceIndex(v) => AttrModel {
                tag: Tag::Known(LinkAttrType::NewInterfaceIndex),
                payload: Payload::Bytes(v@),
            },
            LinkAttrValue::MinMtu(v) => AttrModel {
                tag: Tag::Known(LinkAttrType::MinMtu),
                payload: Payload::U32(v),
            },
            LinkAttrValue::MaxMtu(v) => AttrModel {
                tag: Tag::Known(LinkAttrType::MaxMtu),
                payload: Payload::U32(v),
            },
            LinkAttrValue::PropList(v) => AttrModel {
                tag: Tag::Known(LinkAttrType::PropList),
                payload: Payload::Bytes(v@),
            },
            LinkAttrValue::AltInterfaceName(v) => AttrModel {
                tag: Tag::Known(LinkAttrType::AltInterfaceName),
                payload: Payload::Text(v@),
            },
            LinkAttrValue::PermAddress(v) => AttrModel {
                tag: Tag::Known(LinkAttrType::PermAddress),
                payload: Payload::Addr(v@),
            },
            LinkAttrValue::ProtoDownReason(v) => AttrModel {
                tag: Tag::Known(LinkAttrType::ProtoDownReason),
                payload: Payload::Bytes(v@),
            },
            LinkAttrValue::ParentDevName(v) => AttrModel {
                tag: Tag::Known(LinkAttrType::ParentDevName),
                payload: Payload::Text(v@),
            },
            LinkAttrValue::ParentDevBusName(v) => AttrModel {
                tag: Tag::Known(LinkAttrType::ParentDevBusName),
                payload: Payload::Text(v@),
            },
            LinkAttrValue::GroMaxSize(v) => AttrModel {
                tag: Tag::Known(LinkAttrType::GroMaxSize),
                payload: Payload::Bytes(v@),
            },
            LinkAttrValue::TsoMaxSize(v) => AttrModel {
                tag: Tag::Known(LinkAttrType::TsoMaxSize),
                payload: Payload::Bytes(v@),
            },
            LinkAttrValue::TsoMaxSegs(v) => AttrModel {
                tag: Tag::Known(LinkAttrType::TsoMaxSegs),
                payload: Payload::Bytes(v@),
            },
            LinkAttrValue::AllMulti(v) => AttrModel {
                tag: Tag::Known(LinkAttrType::AllMulti),
                payload: Payload::Bytes(v@),
            },
            LinkAttrValue::Unknown(raw, v) => AttrModel {
                tag: Tag::Unknown(raw),
                payload: Payload::Bytes(v@),
            },
        }
    }
}

impl LinkAttrValue {
    /// What decoding `payload` as the attribute with tag `typ` gives.
    pub open spec fn decoded(typ: LinkAttrType, payload: Seq<u8>) -> core::result::Result<
        AttrModel<LinkAttrType>,
        Error,
    > {
        match decode_payload(typ.payload_kind(), payload) {
            Ok(p) => Ok(AttrModel { tag: Tag::Known(typ), payload: p }),
            Err(e) => Err(e),
        }
    }

    /// Decodes the payload of the attribute with tag `typ`.
    pub fn deserialize(typ: LinkAttrType, payload: &[u8]) -> (r: Result<LinkAttrValue>)
        ensures
            match LinkAttrValue::decoded(typ, payload@) {
                Ok(model) => r is Ok && r.unwrap()@ == model,
                Err(e) => r == Err::<LinkAttrValue, Error>(e),
            },
    {
        match typ {
            LinkAttrType::Unspec => Ok(LinkAttrValue::Unspec(slice_to_vec(payload))),
            LinkAttrType::Address => match deserialize_ip_addr(payload) {
                Ok(v) => Ok(LinkAttrValue::Address(v)),
                Err(e) => Err(e),
            },
            LinkAttrType::Broadcast => Ok(LinkAttrValue::Broadcast(slice_to_vec(payload))),
            LinkAttrType::InterfaceName => Ok(
                LinkAttrValue::InterfaceName(deserialize_ascii(payload)),
            ),
            LinkAttrType::MaxTransmissionUnit => match deserialize_u32(payload) {
                Ok(v) => Ok(LinkAttrValue::MaxTransmissionUnit(v)),
                Err(e) => Err(e),
            },
            LinkAttrType::Link => Ok(LinkAttrValue::Link(slice_to_vec(payload))),
            LinkAttrType::QueueingDiscipline => Ok(
                LinkAttrValue::QueueingDiscipline(slice_to_vec(payload)),
            ),
            LinkAttrType::Stats => match LinkStats::deserialize(payload) {
                Ok(v) => Ok(LinkAttrValue::Stats(v)),
                Err(e) => Err(e),
            },
            LinkAttrType::Cost => Ok(LinkAttrValue::Cost(slice_to_vec(payload))),
            LinkAttrType::Priority => Ok(LinkAttrValue::Priority(slice_to_vec(payload))),
            LinkAttrType::Master => Ok(LinkAttrValue::Master(slice_to_vec(payload))),
            LinkAttrType::Wireless => Ok(LinkAttrValue::Wireless(slice_to_vec(payload))),
            LinkAttrType::Protinfo => Ok(LinkAttrValue::Protinfo(slice_to_vec(payload))),
            LinkAttrType::TransmissionQueueLen => Ok(
                LinkAttrValue::TransmissionQueueLen(slice_to_vec(payload)),
            ),
            LinkAttrType::IfMap => Ok(LinkAttrValue::IfMap(slice_to_vec(payload))),
            LinkAttrType::Weight => Ok(LinkAttrValue::Weight(slice_to_vec(payload))),
            LinkAttrType::Operstate => Ok(LinkAttrValue::Operstate(slice_to_vec(payload))),
            LinkAttrType::Linkmode => Ok(LinkAttrValue::Linkmode(slice_to_vec(payload))),
            LinkAttrType::LinkInfo => Ok(LinkAttrValue::LinkInfo(slice_to_vec(payload))),
            LinkAttrType::NetNsPid => Ok(LinkAttrValue::NetNsPid(slice_to_vec(payload))),
            LinkAttrType::InterfaceAlias => Ok(
                LinkAttrValue::InterfaceAlias(slice_to_vec(payload)),
            ),
            LinkAttrType::NumVf => Ok(LinkAttrValue::NumVf(slice_to_vec(payload))),
            LinkAttrType::VfinfoList => Ok(LinkAttrValue::VfinfoList(slice_to_vec(payload))),
            LinkAttrType::Stats64 => match Stats64::deserialize(payload) {
                Ok(v) => Ok(LinkAttrValue::Stats64(v)),
                Err(e) => Err(e),
            },
            LinkAttrType::VfPorts => Ok(LinkAttrValue::VfPorts(slice_to_vec(payload))),
            LinkAttrType::PortSelf => Ok(LinkAttrValue::PortSelf(slice_to_vec(payload))),
            LinkAttrType::AfSpec => Ok(LinkAttrValue::AfSpec(slice_to_vec(payload))),
            LinkAttrType::Group => Ok(LinkAttrValue::Group(slice_to_vec(payload))),
            LinkAttrType::NetNsFd => Ok(LinkAttrValue::NetNsFd(slice_to_vec(payload))),
            LinkAttrType::ExtMask => match deserialize_u32(payload) {
                Ok(v) => Ok(LinkAttrValue::ExtMask(v)),
                Err(e) => Err(e),
            },
            LinkAttrType::Promiscuity => match deserialize_u32(payload) {
                Ok(v) => Ok(LinkAttrValue::Promiscuity(v)),
                Err(e) => Err(e),
            },
            LinkAttrType::NumTxQueues => Ok(LinkAttrValue::NumTxQueues(slice_to_vec(payload))),
            LinkAttrType::NumRxQueues => Ok(LinkAttrValue::NumRxQueues(slice_to_vec(payload))),
            LinkAttrType::Carrier => Ok(LinkAttrValue::Carrier(slice_to_vec(payload))),
            LinkAttrType::PhysPortId => Ok(LinkAttrValue::PhysPortId(slice_to_vec(payload))),
            LinkAttrType::CarrierChanges => Ok(
                LinkAttrValue::CarrierChanges(slice_to_vec(payload)),
            ),
            LinkAttrType::PhysSwitchId => Ok(LinkAttrValue::PhysSwitchId(slice_to_vec(payload))),
            LinkAttrType::LinkNetnsid => Ok(LinkAttrValue::LinkNetnsid(slice_to_vec(payload))),
            LinkAttrType::PhysPortName => Ok(
                LinkAttrValue::PhysPortName(deserialize_ascii(payload)),
            ),
            LinkAttrType::ProtoDown => Ok(LinkAttrValue::ProtoDown(slice_to_vec(payload))),
            LinkAttrType::GsoMaxSegs => match deserialize_u32(payload) {
                Ok(v) => Ok(LinkAttrValue::GsoMaxSegs(v)),
                Err(e) => Err(e),
            },
            LinkAttrType::GsoMaxSize => match deserialize_u32(payload) {
                Ok(v) => Ok(LinkAttrValue::GsoMaxSize(v)),
                Err(e) => Err(e),
            },
            LinkAttrType::Pad => Ok(LinkAttrValue::Pad(slice_to_vec(payload))),
            LinkAttrType::Xdp => Ok(LinkAttrValue::Xdp(slice_to_vec(payload))),
            LinkAttrType::Event => Ok(LinkAttrValue::Event(slice_to_vec(payload))),
            LinkAttrType::NewNetnsid => Ok(LinkAttrValue::NewNetnsid(slice_to_vec(payload))),
            LinkAttrType::IfNetnsid => Ok(LinkAttrValue::IfNetnsid(slice_to_vec(payload))),
            LinkAttrType::TargetNetnsid => Ok(
                LinkAttrValue::TargetNetnsid(slice_to_vec(payload)),
            ),
            LinkAttrType::CarrierUpCount => Ok(
                LinkAttrValue::CarrierUpCount(slice_to_vec(payload)),
            ),
            LinkAttrType::CarrierDownCount => Ok(
                LinkAttrValue::CarrierDownCount(slice_to_vec(payload)),
            ),
            LinkAttrType::NewInterfaceIndex => Ok(
                LinkAttrValue::NewInterfaceIndex(slice_to_vec(payload)),
            ),
            LinkAttrType::MinMtu => match deserialize_u32(payload) {
                Ok(v) => Ok(LinkAttrValue::MinMtu(v)),
                Err(e) => Err(e),
            },
            LinkAttrType::MaxMtu => match deserialize_u32(payload) {
                Ok(v) => Ok(LinkAttrValue::MaxMtu(v)),
                Err(e) => Err(e),
            },
            LinkAttrType::PropList => Ok(LinkAttrValue::PropList(slice_to_vec(payload))),
            LinkAttrType::AltInterfaceName => Ok(
                LinkAttrValue::AltInterfaceName(deserialize_ascii(payload)),
            ),
            LinkAttrType::PermAddress => match deserialize_ip_addr(payload) {
                Ok(v) => Ok(LinkAttrValue::PermAddress(v)),
                Err(e) => Err(e),
            },
            LinkAttrType::ProtoDownReason => Ok(
                LinkAttrValue::ProtoDownReason(slice_to_vec(payload)),
            ),
            LinkAttrType::ParentDevName => Ok(
                LinkAttrValue::ParentDevName(deserialize_ascii(payload)),
            ),
            LinkAttrType::ParentDevBusName => Ok(
                LinkAttrValue::ParentDevBusName(deserialize_ascii(payload)),
            ),
            LinkAttrType::GroMaxSize => Ok(LinkAttrValue::GroMaxSize(slice_to_vec(payload))),
            LinkAttrType::TsoMaxSize => Ok(LinkAttrValue::TsoMaxSize(slice_to_vec(payload))),
            LinkAttrType::TsoMaxSegs => Ok(LinkAttrValue::TsoMaxSegs(slice_to_vec(payload))),
            LinkAttrType::AllMulti => Ok(LinkAttrValue::AllMulti(slice_to_vec(payload))),
        }
    }

    /// What decoding `payload` as the attribute with the tag number `raw` gives:
    /// a number that names no tag keeps its payload as bytes.
    pub open spec fn decoded_raw(raw: u16, payload: Seq<u8>) -> core::result::Result<
        AttrModel<LinkAttrType>,
        Error,
    > {
        match LinkAttrType::of(raw) {
            Some(typ) => LinkAttrValue::decoded(typ, payload),
            None => Ok(AttrModel { tag: Tag::Unknown(raw), payload: Payload::Bytes(payload) }),
        }
    }

    /// Decodes the payload of the attribute with the tag number `raw`. An
    /// unknown number is no error: the payload is kept as bytes.
    pub fn deserialize_raw(raw: u16, payload: &[u8]) -> (r: Result<LinkAttrValue>)
        ensures
            match LinkAttrValue::decoded_raw(raw, payload@) {
                Ok(model) => r is Ok && r.unwrap()@ == model,
                Err(e) => r == Err::<LinkAttrValue, Error>(e),
            },
    {
        match LinkAttrType::from_u16(raw) {
            Ok(typ) => LinkAttrValue::deserialize(typ, payload),
            Err(_) => Ok(LinkAttrValue::Unknown(raw, slice_to_vec(payload))),
        }
    }
}

impl DeserializeTyped for LinkAttrValue {
    open spec fn decoded(header: AttrHeader, payload: Seq<u8>) -> core::result::Result<
        AttrModel<LinkAttrType>,
        Error,
    > {
        LinkAttrValue::decoded_raw(header.typ, payload)
    }

    fn deserialize(header: &AttrHeader, payload: &[u8]) -> (r: Result<LinkAttrValue>) {
        LinkAttrValue::deserialize_raw(header.typ, payload)
    }
}

} // verus!
