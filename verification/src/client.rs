//! The requests that list routes and interfaces, and the records that their
//! replies are read into.

use vstd::prelude::*;
use vstd::string::StringSliceAdditionalSpecFns;
use crate::attr::{
    attr_wire, decode_attrs, read_attributes, serialize_attr, AttrModel, Payload, Tag,
};
use crate::deserialize::IpAddr;
use crate::error::{Error, Result};
use crate::link_attr::{LinkAttrType, LinkAttrValue};
use crate::link_info_attr::{LinkInfoAttrType, LinkInfoAttrValue};
use crate::message::{
    Envelope, NetlinkHeaderDescriptor, NetlinkMessage, DUMP, REQUEST,
};
use crate::reader::SliceReader;
use crate::route::{
    InterfaceInfoHeader, RouteHeader, RouteMessageType, AF_INET, IFINFO_CHANGE_PLACEHOLDER_MAGIC,
};
use crate::route_attr::{RouteAttrType, RouteAttrValue};
use crate::serialize::{pad4, push_u32, u32_bytes, Deserialize, Serialize};

verus! {

/// The octets of an address that may be missing.
pub open spec fn octets(addr: Option<IpAddr>) -> Option<Seq<u8>> {
    match addr {
        Some(a) => Some(a@),
        None => None,
    }
}

/// The characters of a text that may be missing.
pub open spec fn chars(text: Option<String>) -> Option<Seq<char>> {
    match text {
        Some(t) => Some(t@),
        None => None,
    }
}

/// The model of a [`Route`].
pub struct RouteModel {
    pub table: u8,
    pub protocol: u8,
    pub scope: u8,
    pub priority: Option<i32>,
    pub gateway: Option<Seq<u8>>,
    pub dest: Option<Seq<u8>>,
    pub source: Option<Seq<u8>>,
    pub preferred_source: Option<Seq<u8>>,
    pub output_interface_index: Option<i32>,
}

/// An entry of the kernel's route table.
#[derive(Clone, Copy, Debug, PartialEq, Eq)]
pub struct Route {
    pub table: u8,
    pub protocol: u8,
    pub scope: u8,
    pub priority: Option<i32>,
    pub gateway: Option<IpAddr>,
    pub dest: Option<IpAddr>,
    pub source: Option<IpAddr>,
    pub preferred_source: Option<IpAddr>,
    pub output_interface_index: Option<i32>,
}

impl View for Route {
    type V = RouteModel;

    open spec fn view(&self) -> RouteModel {
        RouteModel {
            table: self.table,
            protocol: self.protocol,
            scope: self.scope,
            priority: self.priority,
            gateway: octets(self.gateway),
            dest: octets(self.dest),
            source: octets(self.source),
            preferred_source: octets(self.preferred_source),
            output_interface_index: self.output_interface_index,
        }
    }
}

impl RouteModel {
    /// The route that a header alone describes.
    pub open spec fn of_header(header: RouteHeader) -> RouteModel {
        RouteModel {
            table: header.table,
            protocol: header.protocol,
            scope: header.scope,
            priority: None,
            gateway: None,
            dest: None,
            source: None,
            preferred_source: None,
            output_interface_index: None,
        }
    }

    /// The route with what one attribute says of it. An attribute that says
    /// nothing of a route record leaves it as it is.
    pub open spec fn with(self, attr: AttrModel<RouteAttrType>) -> RouteModel {
        match (attr.tag, attr.payload) {
            (Tag::Known(RouteAttrType::Dest), Payload::Addr(a)) => RouteModel {
                dest: Some(a),
                ..self
            },
            (Tag::Known(RouteAttrType::Source), Payload::Addr(a)) => RouteModel {
                source: Some(a),
                ..self
            },
            (Tag::Known(RouteAttrType::Gateway), Payload::Addr(a)) => RouteModel {
                gateway: Some(a),
                ..self
            },
            (Tag::Known(RouteAttrType::PreferredSourceAddr), Payload::Addr(a)) => RouteModel {
                preferred_source: Some(a),
                ..self
            },
            (Tag::Known(RouteAttrType::Priority), Payload::I32(v)) => RouteModel {
                priority: Some(v),
                ..self
            },
            (Tag::Known(RouteAttrType::OutputInterfaceIndex), Payload::I32(v)) => RouteModel {
                output_interface_index: Some(v),
                ..self
            },
            _ => self,
        }
    }

    /// The route that a header and the attributes behind it describe: where
    /// two attributes speak of one field, the later one counts.
    pub open spec fn of(header: RouteHeader, attrs: Seq<AttrModel<RouteAttrType>>) -> RouteModel {
        attrs.fold_left(
            RouteModel::of_header(header),
            |route: RouteModel, attr: AttrModel<RouteAttrType>| route.with(attr),
        )
    }
}

/// Projects the header and the attributes of a route message into a route.
pub fn build_route(msg: &RouteHeader, attrs: &[RouteAttrValue]) -> (route: Route)
    ensures
        route@ == RouteModel::of(*msg, attrs@.map_values(|a: RouteAttrValue| a@)),
{
    let mut route = Route {
        table: msg.table,
        protocol: msg.protocol,
        scope: msg.scope,
        priority: None,
        gateway: None,
        dest: None,
        source: None,
        preferred_source: None,
        output_interface_index: None,
    };
    let ghost models = attrs@.map_values(|a: RouteAttrValue| a@);
    let ghost step = |route: RouteModel, attr: AttrModel<RouteAttrType>| route.with(attr);
    let mut i: usize = 0;
    while i < attrs.len()
        invariant
            i <= attrs@.len(),
            models == attrs@.map_values(|a: RouteAttrValue| a@),
            step == |route: RouteModel, attr: AttrModel<RouteAttrType>| route.with(attr),
            route@ == models.take(i as int).fold_left(RouteModel::of_header(*msg), step),
        decreases attrs@.len() - i,
    {
        proof {
            assert(models.take(i + 1).drop_last() =~= models.take(i as int));
        }
        match &attrs[i] {
            RouteAttrValue::Dest(addr) => {
                route.dest = Some(*addr);
            },
            RouteAttrValue::Source(addr) => {
                route.source = Some(*addr);
            },
            RouteAttrValue::Gateway(addr) => {
                route.gateway = Some(*addr);
            },
            RouteAttrValue::PreferredSourceAddr(addr) => {
                route.preferred_source = Some(*addr);
            },
            RouteAttrValue::Priority(priority) => {
                route.priority = Some(*priority);
            },
            RouteAttrValue::OutputInterfaceIndex(index) => {
                route.output_interface_index = Some(*index);
            },
            _ => {},
        }
        i += 1;
    }
    route
}

/// What the payload of a route message holds: the header, and the models of
/// the attributes behind it.
pub open spec fn decoded_rtmsg(payload: Seq<u8>) -> core::result::Result<
    (RouteHeader, Seq<AttrModel<RouteAttrType>>),
    Error,
> {
    if payload.len() < 12 {
        Err(Error::ErrUnexpectedEof)
    } else {
        match decode_attrs::<RouteAttrValue>(payload.skip(12)) {
            Ok(attrs) => Ok((RouteHeader::parse(payload), attrs)),
            Err(e) => Err(e),
        }
    }
}

/// Reads the payload of a route message: the padded header, then attributes
/// to the end.
pub fn read_rtmsg(msg: &Envelope) -> (r: Result<(RouteHeader, Vec<RouteAttrValue>)>)
    ensures
        match decoded_rtmsg(msg.payload@) {
            Ok((header, attrs)) => r is Ok && r.unwrap().0 == header && r.unwrap().1@.map_values(
                |a: RouteAttrValue| a@,
            ) == attrs,
            Err(e) => r == Err::<(RouteHeader, Vec<RouteAttrValue>), Error>(e),
        },
{
    let mut reader = SliceReader::new(msg.payload.as_slice());
    let header = reader.read::<RouteHeader>()?;
    let attributes = read_attributes::<RouteAttrValue>(&mut reader)?;
    Ok((header, attributes))
}

/// The route that a route message describes.
pub fn parse_route(msg: &Envelope) -> (r: Result<Route>)
    ensures
        match decoded_rtmsg(msg.payload@) {
            Ok((header, attrs)) => r is Ok && r.unwrap()@ == RouteModel::of(header, attrs),
            Err(e) => r == Err::<Route, Error>(e),
        },
{
    let (header, attributes) = read_rtmsg(msg)?;
    Ok(build_route(&header, attributes.as_slice()))
}

/// The request for every route of the IPv4 table: an empty route header of
/// that family, and the flags of a dump.
pub fn list_routes_request() -> (msg: NetlinkMessage)
    ensures
        msg.header == (NetlinkHeaderDescriptor {
            typ: RouteMessageType::GetRoute.number(),
            flags: 0x301,
        }),
        msg.payload@ == pad4((RouteHeader { family: AF_INET, ..RouteHeader::zeroed() }).wire()),
        msg.payload@.len() == 12,
{
    let header = RouteHeader::builder().family(AF_INET).build();
    let mut payload = header.serialize();
    crate::serialize::pad_to_align4(&mut payload);
    assert(REQUEST | DUMP == 0x301) by (bit_vector);
    NetlinkMessage::builder().typ(RouteMessageType::GetRoute).flags(REQUEST | DUMP).build_with(
        payload,
    )
}

/// The model of a [`Link`].
pub struct LinkModel {
    pub family: u8,
    pub typ: u16,
    pub index: i32,
    pub name: Option<Seq<char>>,
    pub kind: Option<Seq<char>>,
    pub addr: Option<Seq<u8>>,
    pub promiscuity: Option<u32>,
    pub parent_dev_name: Option<Seq<char>>,
}

/// A network interface.
#[derive(Clone, Debug, PartialEq, Eq)]
pub struct Link {
    pub family: u8,
    pub typ: u16,
    pub index: i32,
    pub name: Option<String>,
    /// The kind of the interface, which its link-info attribute names.
    pub kind: Option<String>,
    pub addr: Option<IpAddr>,
    pub promiscuity: Option<u32>,
    pub parent_dev_name: Option<String>,
}

impl View for Link {
    type V = LinkModel;

    open spec fn view(&self) -> LinkModel {
        LinkModel {
            family: self.family,
            typ: self.typ,
            index: self.index,
            name: chars(self.name),
            kind: chars(self.kind),
            addr: octets(self.addr),
            promiscuity: self.promiscuity,
            parent_dev_name: chars(self.parent_dev_name),
        }
    }
}

/// The kind with what one attribute of a link-info attribute says of it.
pub open spec fn kind_with(kind: Option<Seq<char>>, attr: AttrModel<LinkInfoAttrType>) -> Option<
    Seq<char>,
> {
    match (attr.tag, attr.payload) {
        (Tag::Known(LinkInfoAttrType::Kind), Payload::Text(t)) => Some(t),
        _ => kind,
    }
}

/// The kind that the attributes of a link-info attribute give to an interface
/// whose kind was `kind` before.
pub open spec fn kind_of(kind: Option<Seq<char>>, attrs: Seq<AttrModel<LinkInfoAttrType>>)
    -> Option<Seq<char>> {
    attrs.fold_left(
        kind,
        |kind: Option<Seq<char>>, attr: AttrModel<LinkInfoAttrType>| kind_with(kind, attr),
    )
}

impl LinkModel {
    /// The interface that a header alone describes.
    pub open spec fn of_header(header: InterfaceInfoHeader) -> LinkModel {
        LinkModel {
            family: header.family,
            typ: header.typ,
            index: header.index,
            name: None,
            kind: None,
            addr: None,
            promiscuity: None,
            parent_dev_name: None,
        }
    }

    /// The interface with what one attribute says of it. A link-info
    /// attribute is a stream of attributes of its own, and one that cannot be
    /// decoded is a failure. An attribute that says nothing of an interface
    /// record leaves it as it is.
    pub open spec fn with(self, attr: AttrModel<LinkAttrType>) -> core::result::Result<
        LinkModel,
        Error,
    > {
        match (attr.tag, attr.payload) {
            (Tag::Known(LinkAttrType::InterfaceName), Payload::Text(t)) => Ok(
                LinkModel { name: Some(t), ..self },
            ),
            (Tag::Known(LinkAttrType::Address), Payload::Addr(a)) => Ok(
                LinkModel { addr: Some(a), ..self },
            ),
            (Tag::Known(LinkAttrType::Promiscuity), Payload::U32(v)) => Ok(
                LinkModel { promiscuity: Some(v), ..self },
            ),
            (Tag::Known(LinkAttrType::ParentDevName), Payload::Text(t)) => Ok(
                LinkModel { parent_dev_name: Some(t), ..self },
            ),
            (Tag::Known(LinkAttrType::LinkInfo), Payload::Bytes(b)) => match decode_attrs::<
                LinkInfoAttrValue,
            >(b) {
                Ok(nested) => Ok(LinkModel { kind: kind_of(self.kind, nested), ..self }),
                Err(e) => Err(e),
            },
            _ => Ok(self),
        }
    }

    /// The interface that a header and the attributes behind it describe:
    /// where two attributes speak of one field, the later one counts, and the
    /// first link-info attribute that cannot be decoded is the failure.
    pub open spec fn of(header: InterfaceInfoHeader, attrs: Seq<AttrModel<LinkAttrType>>)
        -> core::result::Result<LinkModel, Error>
        decreases attrs.len(),
    {
        if attrs.len() == 0 {
            Ok(LinkModel::of_header(header))
        } else {
            match LinkModel::of(header, attrs.drop_last()) {
                Ok(link) => link.with(attrs.last()),
                Err(e) => Err(e),
            }
        }
    }
}

/// Reads the kind of an interface from the bytes of a link-info attribute.
fn read_kind(kind: Option<String>, link_info: &[u8]) -> (r: Result<Option<String>>)
    ensures
        match decode_attrs::<LinkInfoAttrValue>(link_info@) {
            Ok(nested) => r is Ok && chars(r.unwrap()) == kind_of(chars(kind), nested),
            Err(e) => r == Err::<Option<String>, Error>(e),
        },
{
    let mut reader = SliceReader::new(link_info);
    assert(reader.rest() =~= link_info@);
    let nested = read_attributes::<LinkInfoAttrValue>(&mut reader)?;
    let ghost models = nested@.map_values(|a: LinkInfoAttrValue| a@);
    let ghost step = |kind: Option<Seq<char>>, attr: AttrModel<LinkInfoAttrType>|
        kind_with(kind, attr);
    let ghost start = chars(kind);
    let mut kind = kind;
    let mut i: usize = 0;
    while i < nested.len()
        invariant
            i <= nested@.len(),
            models == nested@.map_values(|a: LinkInfoAttrValue| a@),
            step == |kind: Option<Seq<char>>, attr: AttrModel<LinkInfoAttrType>|
                kind_with(kind, attr),
            chars(kind) == models.take(i as int).fold_left(start, step),
        decreases nested@.len() - i,
    {
        proof {
            assert(models.take(i + 1).drop_last() =~= models.take(i as int));
        }
        match &nested[i] {
            LinkInfoAttrValue::Kind(text) => {
                kind = Some(text.clone());
            },
            _ => {},
        }
        i += 1;
    }
    Ok(kind)
}

/// Projects the header and the attributes of an interface message into an
/// interface.
pub fn build_link(ifinfomsg: InterfaceInfoHeader, attrs: &[LinkAttrValue]) -> (r: Result<Link>)
    ensures
        match LinkModel::of(ifinfomsg, attrs@.map_values(|a: LinkAttrValue| a@)) {
            Ok(model) => r is Ok && r.unwrap()@ == model,
            Err(e) => r == Err::<Link, Error>(e),
        },
{
    let mut link = Link {
        family: ifinfomsg.family,
        typ: ifinfomsg.typ,
        index: ifinfomsg.index,
        name: None,
        kind: None,
        addr: None,
        promiscuity: None,
        parent_dev_name: None,
    };
    let ghost models = attrs@.map_values(|a: LinkAttrValue| a@);
    let mut i: usize = 0;
    while i < attrs.len()
        invariant
            i <= attrs@.len(),
            models == attrs@.map_values(|a: LinkAttrValue| a@),
            LinkModel::of(ifinfomsg, models.take(i as int)) == Ok::<LinkModel, Error>(link@),
        decreases attrs@.len() - i,
    {
        proof {
            assert(models.take(i + 1).drop_last() =~= models.take(i as int));
            if LinkModel::of(ifinfomsg, models.take(i + 1)) is Err {
                lemma_link_of_failure(ifinfomsg, models, i + 1);
            }
        }
        match &attrs[i] {
            LinkAttrValue::InterfaceName(name) => {
                link.name = Some(name.clone());
            },
            LinkAttrValue::Address(addr) => {
                link.addr = Some(*addr);
            },
            LinkAttrValue::Promiscuity(promiscuity) => {
                link.promiscuity = Some(*promiscuity);
            },
            LinkAttrValue::ParentDevName(name) => {
                link.parent_dev_name = Some(name.clone());
            },
            LinkAttrValue::LinkInfo(bytes) => {
                let kind = read_kind(link.kind, bytes.as_slice())?;
                link.kind = kind;
            },
            _ => {},
        }
        i += 1;
    }
    assert(models.take(i as int) =~= models);
    Ok(link)
}

/// A failure among the first attributes is the failure of them all.
proof fn lemma_link_of_failure(
    header: InterfaceInfoHeader,
    attrs: Seq<AttrModel<LinkAttrType>>,
    n: int,
)
    requires
        0 <= n <= attrs.len(),
        LinkModel::of(header, attrs.take(n)) is Err,
    ensures
        LinkModel::of(header, attrs) == LinkModel::of(header, attrs.take(n)),
    decreases attrs.len() - n,
{
    if n == attrs.len() {
        assert(attrs.take(n) =~= attrs);
    } else {
        assert(attrs.take(n + 1).drop_last() =~= attrs.take(n));
        lemma_link_of_failure(header, attrs, n + 1);
    }
}

/// What the payload of an interface message holds: the header, and the models
/// of the attributes behind it.
pub open spec fn decoded_ifinfomsg(payload: Seq<u8>) -> core::result::Result<
    (InterfaceInfoHeader, Seq<AttrModel<LinkAttrType>>),
    Error,
> {
    if payload.len() < 16 {
        Err(Error::ErrUnexpectedEof)
    } else {
        match decode_attrs::<LinkAttrValue>(payload.skip(16)) {
            Ok(attrs) => Ok((InterfaceInfoHeader::parse(payload), attrs)),
            Err(e) => Err(e),
        }
    }
}

/// Reads the payload of an interface message: the header, then attributes to
/// the end.
pub fn read_ifinfomsg(msg: &Envelope) -> (r: Result<(InterfaceInfoHeader, Vec<LinkAttrValue>)>)
    ensures
        match decoded_ifinfomsg(msg.payload@) {
            Ok((header, attrs)) => r is Ok && r.unwrap().0 == header && r.unwrap().1@.map_values(
                |a: LinkAttrValue| a@,
            ) == attrs,
            Err(e) => r == Err::<(InterfaceInfoHeader, Vec<LinkAttrValue>), Error>(e),
        },
{
    let mut reader = SliceReader::new(msg.payload.as_slice());
    let header = reader.read::<InterfaceInfoHeader>()?;
    let attributes = read_attributes::<LinkAttrValue>(&mut reader)?;
    Ok((header, attributes))
}

/// The interface that an interface message describes.
pub fn parse_link(msg: &Envelope) -> (r: Result<Link>)
    ensures
        match decoded_ifinfomsg(msg.payload@) {
            Ok((header, attrs)) => match LinkModel::of(header, attrs) {
                Ok(model) => r is Ok && r.unwrap()@ == model,
                Err(e) => r == Err::<Link, Error>(e),
            },
            Err(e) => r == Err::<Link, Error>(e),
        },
{
    let (header, attributes) = read_ifinfomsg(msg)?;
    build_link(header, attributes.as_slice())
}

/// The request for every interface: an empty interface header, and the flags
/// of a dump.
pub fn list_links_request() -> (msg: NetlinkMessage)
    ensures
        msg.header == (NetlinkHeaderDescriptor {
            typ: RouteMessageType::GetLink.number(),
            flags: 0x301,
        }),
        msg.payload@ == (InterfaceInfoHeader {
            family: 0,
            typ: 0,
            index: 0,
            flags: 0,
            change: IFINFO_CHANGE_PLACEHOLDER_MAGIC,
        }).wire(),
        msg.payload@.len() == 16,
{
    let header = InterfaceInfoHeader::builder().build();
    let payload = header.serialize();
    assert(REQUEST | DUMP == 0x301) by (bit_vector);
    NetlinkMessage::builder().typ(RouteMessageType::GetLink).flags(REQUEST | DUMP).build_with(
        payload,
    )
}

/// `RTEXT_FILTER_VF` of libc: the bit of the extended filter mask that asks
/// for the virtual functions of an interface.
#[verifier::external_body]
fn rtext_filter_vf() -> (bit: u32)
    ensures
        bit == 1,
{
    nix::libc::RTEXT_FILTER_VF as u32
}

/// `RTEXT_FILTER_SKIP_STATS` of libc: the bit of the extended filter mask
/// that asks the kernel to leave the statistics out.
#[verifier::external_body]
fn rtext_filter_skip_stats() -> (bit: u32)
    ensures
        bit == 8,
{
    nix::libc::RTEXT_FILTER_SKIP_STATS as u32
}

/// The extended filter mask of a request for one interface: virtual
/// functions, no statistics.
pub fn ext_filter_mask() -> (mask: u32)
    ensures
        mask == 9,
{
    let vf = rtext_filter_vf();
    let skip_stats = rtext_filter_skip_stats();
    assert(1u32 | 8u32 == 9u32) by (bit_vector);
    vf | skip_stats
}

/// The payload of the request for the interface that `name` names, with the
/// given extended filter mask.
pub open spec fn get_link_payload(name: Seq<u8>, mask: u32) -> Seq<u8> {
    (InterfaceInfoHeader {
        family: 0,
        typ: 0,
        index: 0,
        flags: 0,
        change: IFINFO_CHANGE_PLACEHOLDER_MAGIC,
    }).wire() + attr_wire(LinkAttrType::InterfaceName.tag(), name) + attr_wire(
        LinkAttrType::ExtMask.tag(),
        u32_bytes(mask),
    )
}

/// The request for the one interface with the given name: an interface
/// header that names no family and no index, the name as an attribute, and
/// the extended filter mask as another. It is no dump. A name of more than
/// 65531 bytes fits no attribute.
pub fn get_link_request(name: &str) -> (r: Result<NetlinkMessage>)
    ensures
        name.spec_bytes().len() <= 65531 ==> r is Ok && r.unwrap().header == (
        NetlinkHeaderDescriptor { typ: RouteMessageType::GetLink.number(), flags: 0x1 })
            && r.unwrap().payload@ == get_link_payload(name.spec_bytes(), 9),
        name.spec_bytes().len() > 65531 ==> r == Err::<NetlinkMessage, Error>(
            Error::ErrSerialize(
                crate::error::Unencodable::AttributePayload(name.spec_bytes().len() as usize),
            ),
        ),
{
    let header = InterfaceInfoHeader::builder().family(0).index(0).build();
    let mut payload = header.serialize();
    let mut name_attr = serialize_attr(LinkAttrType::InterfaceName.into(), name.as_bytes())?;
    let mut mask: Vec<u8> = Vec::new();
    push_u32(&mut mask, ext_filter_mask());
    let mut mask_attr = serialize_attr(LinkAttrType::ExtMask.into(), mask.as_slice())?;
    payload.append(&mut name_attr);
    payload.append(&mut mask_attr);
    Ok(NetlinkMessage::builder().typ(RouteMessageType::GetLink).flags(REQUEST).build_with(payload))
}

} // verus!
