use netlink::attr::{serialize_attr, AttrHeader, AttrSliceReader};
use netlink::client::{
    build_link, build_route, ext_filter_mask, get_link_request, list_links_request,
    list_routes_request, parse_link, parse_route, read_ifinfomsg, read_rtmsg, Link, Route,
};
use netlink::deserialize::{IpAddr, Ipv4Addr, Ipv6Addr};
use netlink::dialogue::{Dialogue, Step};
use netlink::error::{Error, Field, Malformed, Unencodable};
use netlink::link_attr::{LinkAttrHeader, LinkAttrType, LinkAttrValue};
use netlink::link_info_attr::{LinkInfoAttrType, LinkInfoAttrValue};
use netlink::message::{
    read_all_messages, Envelope, Flag, FlagContext, MessageType, NetlinkHeader, NetlinkHeaderDescriptor,
    NetlinkMessage, NetlinkMessageBuilder, DUMP, MULTI, REQUEST,
};
use netlink::route::{
    InterfaceAddrMessage, InterfaceInfoHeader, InterfaceInfoMessage, LinkMessageType, RouteHeader,
    RouteMessageType, AF_INET,
};
use netlink::route_attr::{RouteAttrHeader, RouteAttrType, RouteAttrValue};
use netlink::route_message::{RouteAttr, RouteAttrBuilder, RouteMessage, RouteMessageBuilder};
use netlink::serialize::{Deserialize, Serialize};
use netlink::stats::{LinkStats, Stats64};
use netlink::transport::{Drain, Outgoing, ReadEvent, DRAIN_CHUNK};

fn v4(a: u8, b: u8, c: u8, d: u8) -> IpAddr {
    IpAddr::V4(Ipv4Addr { octets: [a, b, c, d] })
}

fn envelope(typ: u16, flags: u16, payload: Vec<u8>) -> Envelope {
    let header =
        NetlinkHeader { len: 16 + payload.len() as u32, typ, flags, seq: 1, pid: 77 };
    Envelope::new(header, payload).unwrap()
}

#[test]
fn route_dump_request_on_the_wire() {
    let pid: u32 = 0x0a0b_0c0d;
    let dialogue = Dialogue::new(pid);
    let msg = list_routes_request();
    assert_eq!(msg.header, NetlinkHeaderDescriptor { typ: 26, flags: 0x301 });
    let bytes = dialogue.send(&msg).unwrap();
    assert_eq!(
        bytes,
        vec![
            0x1c, 0, 0, 0, 0x1a, 0, 0x01, 0x03, 0, 0, 0, 0, 0x0d, 0x0c, 0x0b, 0x0a, 0x02, 0, 0, 0,
            0, 0, 0, 0, 0, 0, 0, 0
        ]
    );
    assert_eq!(bytes.len(), 28);
}

#[test]
fn route_dump_request_by_hand_is_the_same() {
    let rthdr = RouteHeader::builder().family(AF_INET).build();
    let msg = NetlinkMessage::builder()
        .typ(RouteMessageType::GetRoute)
        .flags(u16::from(Flag::Request) | u16::from(Flag::Dump))
        .append(rthdr)
        .unwrap()
        .build();
    assert_eq!(msg, list_routes_request());
}

#[test]
fn done_envelope_ends_the_reading() {
    let mut dialogue = Dialogue::new(1);
    assert!(dialogue.has_remaining_reads());
    assert_eq!(dialogue.next_step(), Step::ReadHeader);
    let input = [0x10, 0, 0, 0, 0x03, 0, 0x02, 0, 0x01, 0, 0, 0, 0x2a, 0, 0, 0];
    assert_eq!(dialogue.header_read(&input), Ok(Step::Finished));
    assert!(!dialogue.has_remaining_reads());
    assert_eq!(dialogue.next_step(), Step::Finished);
    assert_eq!(dialogue.next_step(), Step::Finished);
    dialogue.sent();
    assert!(dialogue.has_remaining_reads());
    assert_eq!(dialogue.next_step(), Step::ReadHeader);
}

#[test]
fn sequence_numbers_count_the_sends() {
    let mut dialogue = Dialogue::new(9);
    let msg = list_links_request();
    for k in 0u32..20 {
        assert_eq!(dialogue.sequence(), k);
        let bytes = dialogue.send(&msg).unwrap();
        let header = NetlinkHeader::deserialize(&bytes).unwrap();
        assert_eq!(header.seq, k);
        assert_eq!(header.pid, 9);
        assert_eq!(header.len as usize, bytes.len());
        dialogue.sent();
    }
    assert_eq!(dialogue.process_id(), 9);
}

#[test]
fn send_does_not_count_before_the_write() {
    let dialogue = Dialogue::new(9);
    let msg = list_links_request();
    let first = dialogue.send(&msg).unwrap();
    let second = dialogue.send(&msg).unwrap();
    assert_eq!(first, second);
    assert_eq!(dialogue.sequence(), 0);
}

#[test]
fn header_of_a_part_asks_for_its_payload() {
    let mut dialogue = Dialogue::new(1);
    let header = NetlinkHeader { len: 60, typ: 24, flags: MULTI, seq: 0, pid: 1 };
    assert_eq!(
        dialogue.header_read(&header.serialize()),
        Ok(Step::ReadPayload { header, len: 44 })
    );
    assert!(dialogue.has_remaining_reads());
}

#[test]
fn nothing_is_read_after_done_until_the_next_send() {
    let mut dialogue = Dialogue::new(1);
    let done = NetlinkHeader { len: 16, typ: 3, flags: 0, seq: 0, pid: 1 };
    assert_eq!(dialogue.header_read(&done.serialize()), Ok(Step::Finished));
    assert!(!dialogue.has_remaining_reads());
    let part = NetlinkHeader { len: 20, typ: 24, flags: MULTI, seq: 0, pid: 1 };
    assert_eq!(dialogue.header_read(&part.serialize()), Ok(Step::Finished));
    assert_eq!(dialogue.header_read(&[]), Ok(Step::Finished));
    assert!(!dialogue.has_remaining_reads());
    assert_eq!(dialogue.next_step(), Step::Finished);
    dialogue.sent();
    assert_eq!(
        dialogue.header_read(&part.serialize()),
        Ok(Step::ReadPayload { header: part, len: 4 })
    );
    assert!(dialogue.has_remaining_reads());
}

#[test]
fn single_message_leaves_the_reading_open() {
    let mut dialogue = Dialogue::new(1);
    let single = NetlinkHeader { len: 16, typ: 24, flags: 0, seq: 0, pid: 1 };
    assert_eq!(
        dialogue.header_read(&single.serialize()),
        Ok(Step::ReadPayload { header: single, len: 0 })
    );
    assert!(dialogue.has_remaining_reads());
    assert_eq!(dialogue.next_step(), Step::ReadHeader);
}

#[test]
fn bad_header_leaves_the_dialogue_as_it_was() {
    let mut dialogue = Dialogue::new(1);
    assert_eq!(dialogue.header_read(&[0u8; 15]), Err(Error::ErrUnexpectedEof));
    assert_eq!(
        dialogue.header_read(&[0u8; 16]),
        Err(Error::ErrDeserialize(Malformed::MessageLength(0)))
    );
    assert!(dialogue.has_remaining_reads());
    assert_eq!(dialogue.sequence(), 0);
}

#[test]
fn envelope_is_as_long_as_its_header_says() {
    let header = NetlinkHeader { len: 20, typ: 24, flags: 0, seq: 0, pid: 0 };
    let ok = Envelope::new(header, vec![1, 2, 3, 4]).unwrap();
    assert_eq!(ok.header.len as usize, 16 + ok.payload.len());
    assert_eq!(Envelope::new(header, vec![1, 2, 3]), Err(Error::ErrUnexpectedEof));
    assert_eq!(
        Envelope::new(header, vec![1, 2, 3, 4, 5]),
        Err(Error::ErrDeserialize(Malformed::MessageLength(20)))
    );
    let short = NetlinkHeader { len: 3, typ: 24, flags: 0, seq: 0, pid: 0 };
    assert_eq!(
        Envelope::new(short, vec![]),
        Err(Error::ErrDeserialize(Malformed::MessageLength(3)))
    );
}

#[test]
fn error_envelope_carries_its_code() {
    let mut payload = (-19i32).to_le_bytes().to_vec();
    payload.extend(NetlinkHeader { len: 28, typ: 26, flags: 0x301, seq: 0, pid: 0 }.serialize());
    let report = envelope(2, 0, payload);
    assert_eq!(report.error_code(), Some(-19));
    let ack = envelope(2, 0, vec![0, 0, 0, 0]);
    assert_eq!(ack.error_code(), Some(0));
    assert_eq!(envelope(2, 0, vec![1, 2]).error_code(), None);
    assert_eq!(envelope(24, 0, vec![1, 2, 3, 4]).error_code(), None);
    assert!(report.header.has_type(MessageType::Error));
}

#[test]
fn whole_reply_is_read_up_to_done() {
    let first = envelope(24, MULTI, vec![1, 2, 3, 4]);
    let second = envelope(24, MULTI, vec![5, 6, 7, 8, 9, 10, 11, 12]);
    let mut bytes = Vec::new();
    for e in [&first, &second] {
        bytes.extend(e.header.serialize());
        bytes.extend(&e.payload);
    }
    bytes.extend(NetlinkHeader { len: 16, typ: 3, flags: MULTI, seq: 1, pid: 77 }.serialize());
    bytes.extend([0xaa; 7]);
    assert_eq!(read_all_messages(&bytes), Ok(vec![first.clone(), second]));
    assert_eq!(read_all_messages(&bytes[..20]), Err(Error::ErrUnexpectedEof));
    assert_eq!(read_all_messages(&bytes[..18]), Err(Error::ErrUnexpectedEof));
    assert_eq!(read_all_messages(&[]), Err(Error::ErrUnexpectedEof));
    let done = NetlinkHeader { len: 16, typ: 3, flags: 0, seq: 0, pid: 0 }.serialize();
    assert_eq!(read_all_messages(&done), Ok(vec![]));
}

#[test]
fn message_builder_aligns_what_it_appends() {
    let msg = NetlinkMessageBuilder::new()
        .typ(MessageType::Noop)
        .flags(REQUEST | DUMP)
        .append(RouteHeader::default())
        .unwrap()
        .append(AttrHeader { len: 4, typ: 9 })
        .unwrap()
        .append_slice(&mut vec![1, 2, 3, 4])
        .unwrap()
        .build();
    assert_eq!(msg.header, NetlinkHeaderDescriptor { typ: 1, flags: 0x301 });
    assert_eq!(msg.payload, vec![0, 0, 0, 0, 0, 0, 0, 0, 0, 0, 0, 0, 4, 0, 9, 0, 1, 2, 3, 4]);
    let moved = &mut vec![9u8, 9];
    let other = NetlinkMessage::builder().typ(7u16).append_slice(moved).unwrap().build();
    assert!(moved.is_empty());
    assert_eq!(
        other,
        NetlinkMessage::new(NetlinkHeaderDescriptor { typ: 7, flags: 0 }, vec![9, 9])
    );
    assert_eq!(NetlinkMessage::builder().build(), NetlinkMessage::default());
}

#[test]
fn header_gives_its_descriptor() {
    let header = NetlinkHeader { len: 16, typ: 18, flags: 5, seq: 3, pid: 4 };
    assert_eq!(header.into_descriptor(), NetlinkHeaderDescriptor { typ: 18, flags: 5 });
}

#[test]
fn link_request_for_lo() {
    assert_eq!(ext_filter_mask(), 9);
    let msg = get_link_request("lo").unwrap();
    assert_eq!(msg.header, NetlinkHeaderDescriptor { typ: 18, flags: 0x1 });
    let mut expected = vec![0u8; 12];
    expected.extend([0xff, 0xff, 0xff, 0xff]);
    expected.extend([0x06, 0x00, 0x03, 0x00, 0x6C, 0x6F, 0x00, 0x00]);
    expected.extend([0x08, 0x00, 0x1D, 0x00, 0x09, 0x00, 0x00, 0x00]);
    assert_eq!(msg.payload, expected);
    let bytes = Dialogue::new(5).send(&msg).unwrap();
    assert_eq!(bytes.len(), 16 + 16 + 8 + 8);
    assert_eq!(&bytes[..4], &[48, 0, 0, 0]);
}

#[test]
fn link_request_for_a_name_of_five_bytes() {
    // A name attribute that declares nine bytes holds five bytes of payload.
    let msg = get_link_request("lo\0\0\0").unwrap();
    assert_eq!(msg.header, NetlinkHeaderDescriptor { typ: 18, flags: 0x1 });
    assert_eq!(
        &msg.payload[16..28],
        &[0x09, 0x00, 0x03, 0x00, 0x6C, 0x6F, 0x00, 0x00, 0x00, 0x00, 0x00, 0x00]
    );
    assert_eq!(&msg.payload[28..32], &[0x08, 0x00, 0x1D, 0x00]);
    assert_eq!(msg.payload.len(), 16 + 12 + 8);
    let bytes = Dialogue::new(5).send(&msg).unwrap();
    assert_eq!(bytes.len(), 52);
    assert_eq!(&bytes[..8], &[52, 0, 0, 0, 18, 0, 1, 0]);
}

#[test]
fn link_request_refuses_a_name_that_fits_no_attribute() {
    let name = "x".repeat(65532);
    assert_eq!(
        get_link_request(&name),
        Err(Error::ErrSerialize(Unencodable::AttributePayload(65532)))
    );
    assert!(get_link_request(&"x".repeat(65531)).is_ok());
}

#[test]
fn link_dump_request() {
    let msg = list_links_request();
    assert_eq!(msg.header, NetlinkHeaderDescriptor { typ: 18, flags: 0x301 });
    assert_eq!(msg.payload, vec![0, 0, 0, 0, 0, 0, 0, 0, 0, 0, 0, 0, 0xff, 0xff, 0xff, 0xff]);
}

#[test]
fn ifname_attribute_is_text_without_nul() {
    let input = [0x09, 0x00, 0x03, 0x00, 0x6C, 0x6F, 0x00, 0x00, 0x00, 0x00, 0x00, 0x00];
    let mut reader = AttrSliceReader::<LinkAttrValue>::new(input.to_vec());
    assert_eq!(reader.try_next(), Ok(Some(LinkAttrValue::InterfaceName("lo".to_string()))));
    assert_eq!(reader.try_next(), Ok(None));
    assert_eq!(reader.try_next(), Ok(None));
}

#[test]
fn attr_slice_reader_reads_all() {
    let mut stream = serialize_attr(4, &1500u32.to_le_bytes()).unwrap();
    stream.extend(serialize_attr(3, b"eth0\0").unwrap());
    stream.extend(serialize_attr(200, &[1, 2, 3]).unwrap());
    let mut reader = AttrSliceReader::<LinkAttrValue>::new(stream.clone());
    assert_eq!(
        reader.read_all(),
        Ok(vec![
            LinkAttrValue::MaxTransmissionUnit(1500),
            LinkAttrValue::InterfaceName("eth0".to_string()),
            LinkAttrValue::Unknown(200, vec![1, 2, 3, 0]),
        ])
    );
    assert_eq!(reader.read_all(), Ok(vec![]));
    stream.extend([3, 0, 0, 0]);
    let mut bad = AttrSliceReader::<LinkAttrValue>::new(stream);
    assert_eq!(bad.read_all(), Err(Error::ErrDeserialize(Malformed::AttributeLength(3))));
}

#[test]
fn attr_slice_reader_walks_on_after_a_bad_payload() {
    let mut stream = serialize_attr(4, &[1, 2]).unwrap();
    stream.extend(serialize_attr(30, &7u32.to_le_bytes()).unwrap());
    let mut reader = AttrSliceReader::<LinkAttrValue>::new(stream);
    assert_eq!(reader.try_next(), Ok(Some(LinkAttrValue::MaxTransmissionUnit(0x0201))));
    assert_eq!(reader.try_next(), Ok(Some(LinkAttrValue::Promiscuity(7))));
    let mut stream = serialize_attr(1, &[1, 2, 3, 4, 5, 6]).unwrap();
    stream.extend(serialize_attr(30, &7u32.to_le_bytes()).unwrap());
    let mut reader = AttrSliceReader::<LinkAttrValue>::new(stream);
    assert_eq!(reader.try_next(), Err(Error::ErrDeserialize(Malformed::AddressLength(8))));
    assert_eq!(reader.try_next(), Ok(Some(LinkAttrValue::Promiscuity(7))));
    assert_eq!(reader.try_next(), Ok(None));
}

#[test]
fn link_attribute_tags_are_the_kernels() {
    let pairs: [(LinkAttrType, u16); 20] = [
        (LinkAttrType::Unspec, 0),
        (LinkAttrType::Address, 1),
        (LinkAttrType::Broadcast, 2),
        (LinkAttrType::InterfaceName, 3),
        (LinkAttrType::MaxTransmissionUnit, 4),
        (LinkAttrType::Stats, 7),
        (LinkAttrType::IfMap, 14),
        (LinkAttrType::LinkInfo, 18),
        (LinkAttrType::Stats64, 23),
        (LinkAttrType::ExtMask, 29),
        (LinkAttrType::Promiscuity, 30),
        (LinkAttrType::PhysPortName, 38),
        (LinkAttrType::IfNetnsid, 46),
        (LinkAttrType::MinMtu, 50),
        (LinkAttrType::MaxMtu, 51),
        (LinkAttrType::AltInterfaceName, 53),
        (LinkAttrType::PermAddress, 54),
        (LinkAttrType::ParentDevName, 56),
        (LinkAttrType::ParentDevBusName, 57),
        (LinkAttrType::AllMulti, 61),
    ];
    for (typ, raw) in pairs {
        assert_eq!(u16::from(typ), raw);
        assert_eq!(LinkAttrType::from_u16(raw), Ok(typ));
    }
    assert_eq!(u16::from(LinkAttrType::TargetNetnsid), 46);
    for raw in 0u16..=61 {
        assert_eq!(LinkAttrType::from_u16(raw).map(u16::from), Ok(raw));
    }
    for raw in [62u16, 63, 255, 65535] {
        assert_eq!(LinkAttrType::from_u16(raw), Err(Error::ErrCastEnum(raw)));
    }
}

#[test]
fn route_attribute_tags_are_the_kernels() {
    assert_eq!(u16::from(RouteAttrType::Dest), 1);
    assert_eq!(u16::from(RouteAttrType::Table), 15);
    assert_eq!(u16::from(RouteAttrType::Expires), 23);
    for raw in 0u16..=23 {
        assert_eq!(RouteAttrType::from_u16(raw).map(u16::from), Ok(raw));
    }
    assert_eq!(RouteAttrType::from_u16(24), Err(Error::ErrCastEnum(24)));
    for raw in 0u16..=5 {
        assert_eq!(LinkInfoAttrType::from_u16(raw).map(u16::from), Ok(raw));
    }
    assert_eq!(LinkInfoAttrType::from_u16(6), Err(Error::ErrCastEnum(6)));
}

#[test]
fn message_types_are_the_kernels() {
    let pairs = [
        (RouteMessageType::NewLink, 16u16),
        (RouteMessageType::DelLink, 17),
        (RouteMessageType::GetLink, 18),
        (RouteMessageType::SetLink, 19),
        (RouteMessageType::NewAddr, 20),
        (RouteMessageType::DelAddr, 21),
        (RouteMessageType::GetAddr, 22),
        (RouteMessageType::NewRoute, 24),
        (RouteMessageType::DelRoute, 25),
        (RouteMessageType::GetRoute, 26),
    ];
    for (typ, raw) in pairs {
        assert_eq!(u16::from(typ), raw);
        assert_eq!(RouteMessageType::from_u16(raw), Ok(typ));
    }
    for raw in [0u16, 15, 23, 27, 65535] {
        assert_eq!(RouteMessageType::from_u16(raw), Err(Error::ErrCastEnum(raw)));
    }
    assert_eq!(LinkMessageType::from_u16(18), Ok(LinkMessageType::GetLink));
    assert_eq!(u16::from(LinkMessageType::SetLink), 19);
    assert_eq!(LinkMessageType::from_u16(20), Err(Error::ErrCastEnum(20)));
    assert_eq!(LinkMessageType::from_u16(15), Err(Error::ErrCastEnum(15)));
}

#[test]
fn typed_route_payloads() {
    assert_eq!(
        RouteAttrValue::deserialize(RouteAttrType::Dest, &[10, 0, 0, 0]),
        Ok(RouteAttrValue::Dest(v4(10, 0, 0, 0)))
    );
    assert_eq!(
        RouteAttrValue::deserialize(RouteAttrType::Source, &[10, 0, 0, 1]),
        Ok(RouteAttrValue::Source(v4(10, 0, 0, 1)))
    );
    assert_eq!(
        RouteAttrValue::deserialize(RouteAttrType::InputInterfaceIndex, &[2, 0, 0, 0]),
        Ok(RouteAttrValue::InputInterfaceIndex(2))
    );
    assert_eq!(
        RouteAttrValue::deserialize(RouteAttrType::OutputInterfaceIndex, &[3, 0, 0, 0]),
        Ok(RouteAttrValue::OutputInterfaceIndex(3))
    );
    assert_eq!(
        RouteAttrValue::deserialize(RouteAttrType::Priority, &[0xff, 0xff, 0xff, 0xff]),
        Ok(RouteAttrValue::Priority(-1))
    );
    assert_eq!(
        RouteAttrValue::deserialize(RouteAttrType::PreferredSourceAddr, &[1, 2, 3, 4]),
        Ok(RouteAttrValue::PreferredSourceAddr(v4(1, 2, 3, 4)))
    );
    assert_eq!(
        RouteAttrValue::deserialize(RouteAttrType::Metrics, &[9, 0, 0, 0]),
        Ok(RouteAttrValue::Metrics(9))
    );
    assert_eq!(
        RouteAttrValue::deserialize(RouteAttrType::Table, &[254, 0, 0, 0]),
        Ok(RouteAttrValue::Table(254))
    );
    assert_eq!(
        RouteAttrValue::deserialize(RouteAttrType::Pref, &[0x80, 0, 0, 0]),
        Ok(RouteAttrValue::Pref(-128))
    );
    assert_eq!(
        RouteAttrValue::deserialize(RouteAttrType::EncapType, &[0xfe, 0xff, 0, 0]),
        Ok(RouteAttrValue::EncapType(-2))
    );
    assert_eq!(
        RouteAttrValue::deserialize(RouteAttrType::Expires, &[60, 0, 0, 0]),
        Ok(RouteAttrValue::Expires(60))
    );
    assert_eq!(
        RouteAttrValue::deserialize(RouteAttrType::Multipath, &[1, 2]),
        Ok(RouteAttrValue::Multipath(vec![1, 2]))
    );
    assert_eq!(
        RouteAttrValue::deserialize(RouteAttrType::Unspec, &[]),
        Ok(RouteAttrValue::Unspec(vec![]))
    );
    assert_eq!(
        RouteAttrValue::deserialize(RouteAttrType::Mark, &[1, 0, 0, 0]),
        Ok(RouteAttrValue::Mark(vec![1, 0, 0, 0]))
    );
    assert_eq!(
        RouteAttrValue::deserialize(RouteAttrType::Table, &[254, 0, 0]),
        Err(Error::ErrUnexpectedEof)
    );
    assert_eq!(RouteAttrValue::deserialize(RouteAttrType::Pref, &[]), Err(Error::ErrUnexpectedEof));
    assert_eq!(
        RouteAttrValue::deserialize(RouteAttrType::EncapType, &[1]),
        Err(Error::ErrUnexpectedEof)
    );
    assert_eq!(
        RouteAttrValue::deserialize(RouteAttrType::Gateway, &[1, 2, 3]),
        Err(Error::ErrDeserialize(Malformed::AddressLength(3)))
    );
    let v6 = [0x20, 1, 0xd, 0xb8, 0, 0, 0, 0, 0, 0, 0, 0, 0, 0, 0, 1];
    assert_eq!(
        RouteAttrValue::deserialize(RouteAttrType::Gateway, &v6),
        Ok(RouteAttrValue::Gateway(IpAddr::V6(Ipv6Addr { octets: v6 })))
    );
    assert_eq!(
        RouteAttrValue::deserialize_raw(5, &[1, 2, 3, 4]),
        Ok(RouteAttrValue::Gateway(v4(1, 2, 3, 4)))
    );
    assert_eq!(
        RouteAttrValue::deserialize_raw(500, &[1, 2]),
        Ok(RouteAttrValue::Unknown(500, vec![1, 2]))
    );
}

#[test]
fn typed_link_payloads() {
    assert_eq!(
        LinkAttrValue::deserialize(LinkAttrType::Address, &[1, 2, 3, 4]),
        Ok(LinkAttrValue::Address(v4(1, 2, 3, 4)))
    );
    assert_eq!(
        LinkAttrValue::deserialize(LinkAttrType::Broadcast, &[255; 6]),
        Ok(LinkAttrValue::Broadcast(vec![255; 6]))
    );
    assert_eq!(
        LinkAttrValue::deserialize(LinkAttrType::InterfaceName, b"wlan0\0\0\0"),
        Ok(LinkAttrValue::InterfaceName("wlan0".into()))
    );
    assert_eq!(
        LinkAttrValue::deserialize(LinkAttrType::MaxTransmissionUnit, &[0xdc, 5, 0, 0]),
        Ok(LinkAttrValue::MaxTransmissionUnit(1500))
    );
    assert_eq!(
        LinkAttrValue::deserialize(LinkAttrType::ExtMask, &[9, 0, 0, 0]),
        Ok(LinkAttrValue::ExtMask(9))
    );
    assert_eq!(
        LinkAttrValue::deserialize(LinkAttrType::Promiscuity, &[1, 0, 0, 0]),
        Ok(LinkAttrValue::Promiscuity(1))
    );
    assert_eq!(
        LinkAttrValue::deserialize(LinkAttrType::GsoMaxSegs, &[0xff, 0xff, 0, 0]),
        Ok(LinkAttrValue::GsoMaxSegs(65535))
    );
    assert_eq!(
        LinkAttrValue::deserialize(LinkAttrType::GsoMaxSize, &[0, 0, 1, 0]),
        Ok(LinkAttrValue::GsoMaxSize(65536))
    );
    assert_eq!(
        LinkAttrValue::deserialize(LinkAttrType::MinMtu, &[68, 0, 0, 0]),
        Ok(LinkAttrValue::MinMtu(68))
    );
    assert_eq!(
        LinkAttrValue::deserialize(LinkAttrType::MaxMtu, &[0xff, 0xff, 0xff, 0xff]),
        Ok(LinkAttrValue::MaxMtu(u32::MAX))
    );
    assert_eq!(
        LinkAttrValue::deserialize(LinkAttrType::PhysPortName, b"p0\0\0"),
        Ok(LinkAttrValue::PhysPortName("p0".into()))
    );
    assert_eq!(
        LinkAttrValue::deserialize(LinkAttrType::AltInterfaceName, b"alt\0"),
        Ok(LinkAttrValue::AltInterfaceName("alt".into()))
    );
    assert_eq!(
        LinkAttrValue::deserialize(LinkAttrType::ParentDevName, b"0000:00:1f.6\0"),
        Ok(LinkAttrValue::ParentDevName("0000:00:1f.6".into()))
    );
    assert_eq!(
        LinkAttrValue::deserialize(LinkAttrType::ParentDevBusName, b"pci\0"),
        Ok(LinkAttrValue::ParentDevBusName("pci".into()))
    );
    assert_eq!(
        LinkAttrValue::deserialize(LinkAttrType::PermAddress, &[0; 16]),
        Ok(LinkAttrValue::PermAddress(IpAddr::V6(Ipv6Addr { octets: [0; 16] })))
    );
    assert_eq!(
        LinkAttrValue::deserialize(LinkAttrType::LinkInfo, &[1, 2, 3]),
        Ok(LinkAttrValue::LinkInfo(vec![1, 2, 3]))
    );
    assert_eq!(
        LinkAttrValue::deserialize(LinkAttrType::Unspec, &[7]),
        Ok(LinkAttrValue::Unspec(vec![7]))
    );
    assert_eq!(
        LinkAttrValue::deserialize(LinkAttrType::TargetNetnsid, &[7]),
        Ok(LinkAttrValue::TargetNetnsid(vec![7]))
    );
    assert_eq!(LinkAttrValue::deserialize_raw(46, &[7]), Ok(LinkAttrValue::IfNetnsid(vec![7])));
    assert_eq!(
        LinkAttrValue::deserialize(LinkAttrType::MaxTransmissionUnit, &[1, 2, 3]),
        Err(Error::ErrUnexpectedEof)
    );
    assert_eq!(
        LinkAttrValue::deserialize(LinkAttrType::Address, &[1, 2, 3, 4, 5, 6]),
        Err(Error::ErrDeserialize(Malformed::AddressLength(6)))
    );
    assert_eq!(LinkAttrValue::deserialize_raw(62, &[1]), Ok(LinkAttrValue::Unknown(62, vec![1])));
}

#[test]
fn link_statistics_are_packed_numbers() {
    let mut bytes = Vec::new();
    for k in 1u32..=24 {
        bytes.extend((k * 0x0101_0101).to_le_bytes());
    }
    let stats = LinkStats::deserialize(&bytes).unwrap();
    assert_eq!(stats.rx_packets, 0x0101_0101);
    assert_eq!(stats.tx_packets, 0x0202_0202);
    assert_eq!(stats.collisions, 10 * 0x0101_0101);
    assert_eq!(stats.tx_compressed, 23 * 0x0101_0101);
    assert_eq!(stats.rx_nohandler, 24 * 0x0101_0101);
    assert_eq!(
        LinkAttrValue::deserialize(LinkAttrType::Stats, &bytes),
        Ok(LinkAttrValue::Stats(stats))
    );
    assert_eq!(LinkStats::deserialize(&bytes[..95]), Err(Error::ErrUnexpectedEof));
    assert_eq!(LinkStats::SIZE, 96);

    let mut bytes = Vec::new();
    for k in 1u64..=25 {
        bytes.extend((k << 40 | k).to_le_bytes());
    }
    let stats = Stats64::deserialize(&bytes).unwrap();
    assert_eq!(stats.rx_packets, 1 << 40 | 1);
    assert_eq!(stats.tx_bytes, 4 << 40 | 4);
    assert_eq!(stats.rx_nohandler, 24 << 40 | 24);
    assert_eq!(stats.rx_otherhost_dropped, 25 << 40 | 25);
    assert_eq!(
        LinkAttrValue::deserialize(LinkAttrType::Stats64, &bytes),
        Ok(LinkAttrValue::Stats64(stats))
    );
    assert_eq!(Stats64::deserialize(&bytes[..199]), Err(Error::ErrUnexpectedEof));
    assert_eq!(Stats64::SIZE, 200);
}

#[test]
fn link_info_attributes() {
    assert_eq!(
        LinkInfoAttrValue::deserialize(LinkInfoAttrType::Kind, b"bridge\0\0"),
        Ok(LinkInfoAttrValue::Kind("bridge".into()))
    );
    assert_eq!(
        LinkInfoAttrValue::deserialize(LinkInfoAttrType::Data, &[1, 2]),
        Ok(LinkInfoAttrValue::Data(vec![1, 2]))
    );
    assert_eq!(
        LinkInfoAttrValue::deserialize(LinkInfoAttrType::Unspec, &[]),
        Ok(LinkInfoAttrValue::Unspec(vec![]))
    );
    assert_eq!(
        LinkInfoAttrValue::deserialize(LinkInfoAttrType::XStats, &[3]),
        Ok(LinkInfoAttrValue::XStats(vec![3]))
    );
    assert_eq!(
        LinkInfoAttrValue::deserialize(LinkInfoAttrType::SlaveKind, &[4]),
        Ok(LinkInfoAttrValue::SlaveKind(vec![4]))
    );
    assert_eq!(
        LinkInfoAttrValue::deserialize(LinkInfoAttrType::SlaveData, &[5]),
        Ok(LinkInfoAttrValue::SlaveData(vec![5]))
    );
    assert_eq!(
        LinkInfoAttrValue::deserialize_raw(9, &[5]),
        Ok(LinkInfoAttrValue::Unknown(9, vec![5]))
    );
}

#[test]
fn route_is_projected_from_header_and_attributes() {
    let header = RouteHeader::builder().family(2).table(254).protocol(3).scope(253).build();
    let attrs = vec![
        RouteAttrValue::Table(254),
        RouteAttrValue::Dest(v4(10, 0, 0, 0)),
        RouteAttrValue::Gateway(v4(10, 0, 0, 1)),
        RouteAttrValue::Unknown(0xff, vec![0xde, 0xad, 0xbe, 0xef]),
        RouteAttrValue::Priority(100),
        RouteAttrValue::OutputInterfaceIndex(2),
        RouteAttrValue::PreferredSourceAddr(v4(10, 0, 0, 7)),
        RouteAttrValue::Source(v4(10, 0, 0, 9)),
        RouteAttrValue::Gateway(v4(10, 0, 0, 254)),
        RouteAttrValue::Metrics(5),
    ];
    assert_eq!(
        build_route(&header, &attrs),
        Route {
            table: 254,
            protocol: 3,
            scope: 253,
            priority: Some(100),
            gateway: Some(v4(10, 0, 0, 254)),
            dest: Some(v4(10, 0, 0, 0)),
            source: Some(v4(10, 0, 0, 9)),
            preferred_source: Some(v4(10, 0, 0, 7)),
            output_interface_index: Some(2),
        }
    );
    assert_eq!(
        build_route(&header, &[]),
        Route {
            table: 254,
            protocol: 3,
            scope: 253,
            priority: None,
            gateway: None,
            dest: None,
            source: None,
            preferred_source: None,
            output_interface_index: None,
        }
    );
}

#[test]
fn route_message_is_read_and_projected() {
    let mut payload = vec![2u8, 24, 0, 0, 254, 4, 0, 1, 0, 0, 0, 0];
    payload.extend([0x08, 0x00, 0x0f, 0x00, 254, 0, 0, 0]);
    payload.extend([0x08, 0x00, 0x05, 0x00, 0xC0, 0xA8, 0x01, 0x01]);
    payload.extend([0x08, 0x00, 0xFF, 0x00, 0xDE, 0xAD, 0xBE, 0xEF]);
    payload.extend([0x08, 0x00, 0x04, 0x00, 3, 0, 0, 0]);
    let msg = envelope(24, MULTI, payload);
    let (header, attrs) = read_rtmsg(&msg).unwrap();
    assert_eq!(header.dst_len, 24);
    assert_eq!(attrs.len(), 4);
    assert_eq!(attrs[2], RouteAttrValue::Unknown(0xff, vec![0xde, 0xad, 0xbe, 0xef]));
    let route = parse_route(&msg).unwrap();
    assert_eq!(route.table, 254);
    assert_eq!(route.protocol, 4);
    assert_eq!(route.gateway, Some(v4(192, 168, 1, 1)));
    assert_eq!(route.output_interface_index, Some(3));
    assert_eq!(route.dest, None);
    assert_eq!(read_rtmsg(&envelope(24, 0, vec![0; 11])), Err(Error::ErrUnexpectedEof));
    assert_eq!(parse_route(&envelope(24, 0, vec![0; 14])), Err(Error::ErrUnexpectedEof));
}

#[test]
fn link_is_projected_from_header_and_attributes() {
    let header = InterfaceInfoHeader::builder().family(0).typ(772).index(1).build();
    let mut nested = serialize_attr(2, &[1, 2, 3, 4]).unwrap();
    nested.extend(serialize_attr(1, b"veth\0").unwrap());
    let attrs = vec![
        LinkAttrValue::InterfaceName("lo".to_string()),
        LinkAttrValue::MaxTransmissionUnit(65536),
        LinkAttrValue::Address(v4(127, 0, 0, 1)),
        LinkAttrValue::Promiscuity(0),
        LinkAttrValue::LinkInfo(nested),
        LinkAttrValue::ParentDevName("pci0".to_string()),
        LinkAttrValue::Unknown(77, vec![1]),
    ];
    assert_eq!(
        build_link(header, &attrs),
        Ok(Link {
            family: 0,
            typ: 772,
            index: 1,
            name: Some("lo".to_string()),
            kind: Some("veth".to_string()),
            addr: Some(v4(127, 0, 0, 1)),
            promiscuity: Some(0),
            parent_dev_name: Some("pci0".to_string()),
        })
    );
    let bad = vec![LinkAttrValue::LinkInfo(vec![2, 0, 1, 0])];
    assert_eq!(
        build_link(header, &bad),
        Err(Error::ErrDeserialize(Malformed::AttributeLength(2)))
    );
    let none = build_link(header, &[LinkAttrValue::LinkInfo(vec![])]).unwrap();
    assert_eq!(none.kind, None);
    assert_eq!(none.name, None);
}

#[test]
fn link_message_is_read_and_projected() {
    let header = InterfaceInfoHeader::builder().typ(1).index(2).flags(0x1043).build();
    let mut payload = header.serialize();
    payload.extend([0x09, 0x00, 0x03, 0x00, b'e', b't', b'h', b'0', 0, 0, 0, 0]);
    payload.extend(serialize_attr(30, &1u32.to_le_bytes()).unwrap());
    let msg = envelope(16, 0, payload);
    let (header, attrs) = read_ifinfomsg(&msg).unwrap();
    assert_eq!(header.index, 2);
    assert_eq!(header.flags, 0x1043);
    assert_eq!(
        attrs,
        vec![LinkAttrValue::InterfaceName("eth0".to_string()), LinkAttrValue::Promiscuity(1)]
    );
    let link = parse_link(&msg).unwrap();
    assert_eq!(link.name.as_deref(), Some("eth0"));
    assert_eq!(link.promiscuity, Some(1));
    assert_eq!(link.typ, 1);
    assert_eq!(parse_link(&envelope(16, 0, vec![0; 15])), Err(Error::ErrUnexpectedEof));
}

#[test]
fn route_attr_builder_needs_type_and_value() {
    let missing_type = RouteAttrBuilder::<RouteHeader>::new().value(RouteHeader::default()).build();
    assert_eq!(missing_type, Err(Error::ErrMissingField(Field::Type)));
    let missing_value = RouteAttr::builder::<RouteHeader>().typ(RouteAttrType::Dest).build();
    assert_eq!(missing_value, Err(Error::ErrMissingField(Field::Value)));
    let neither = RouteAttrBuilder::<RouteHeader>::new().build();
    assert_eq!(neither, Err(Error::ErrMissingField(Field::Type)));
    let attr = RouteAttr::builder()
        .typ(RouteAttrType::Table)
        .value(AttrHeader { len: 0x0201, typ: 0x0403 })
        .build()
        .unwrap();
    assert_eq!(attr, RouteAttr { len: 8, typ: RouteAttrType::Table, value: vec![1, 2, 3, 4] });
    assert_eq!(attr.serialize(), vec![8, 0, 15, 0, 1, 2, 3, 4]);
}

#[test]
fn route_message_builder_needs_a_header() {
    let missing = RouteMessageBuilder::<RouteHeader>::new().attrs(vec![]).build();
    assert_eq!(missing, Err(Error::ErrMissingField(Field::Header)));
    let attr = RouteAttr { len: 5, typ: RouteAttrType::Pref, value: vec![7] };
    let msg = RouteMessage::builder()
        .header(RouteHeader::builder().family(2).build())
        .attrs(vec![attr.clone(), attr])
        .build()
        .unwrap();
    assert_eq!(
        msg.serialize(),
        Ok(vec![
            2, 0, 0, 0, 0, 0, 0, 0, 0, 0, 0, 0, 5, 0, 20, 0, 7, 0, 0, 0, 5, 0, 20, 0, 7, 0, 0, 0
        ])
    );
}

#[test]
fn typed_attribute_headers() {
    let header = LinkAttrHeader { len: 6, typ: LinkAttrType::InterfaceName };
    assert_eq!(header.serialize(), vec![6, 0, 3, 0]);
    assert_eq!(header.raw(), AttrHeader { len: 6, typ: 3 });
    assert_eq!(LinkAttrHeader::from_raw(AttrHeader { len: 6, typ: 3 }), Ok(header));
    assert_eq!(
        RouteAttrHeader::from_raw(AttrHeader { len: 8, typ: 99 }),
        Err(Error::ErrCastEnum(99))
    );
    assert_eq!(
        RouteAttrHeader::from_raw(AttrHeader { len: 8, typ: 5 }),
        Ok(RouteAttrHeader { len: 8, typ: RouteAttrType::Gateway })
    );
}

#[test]
fn messages_are_named_after_their_headers() {
    let info: InterfaceInfoMessage = InterfaceInfoMessage::builder().index(3).build();
    assert_eq!(info.index, 3);
    assert_eq!(info.change, 0xFFFF_FFFF);
    let addr: InterfaceAddrMessage = InterfaceAddrMessage::builder().index(4).build();
    assert_eq!(addr.index, 4);
}

#[test]
fn outgoing_message_advances_by_what_was_written() {
    let mut outgoing = Outgoing::new(vec![1, 2, 3, 4, 5]);
    assert!(!outgoing.is_done());
    assert_eq!(outgoing.pending(), &[1, 2, 3, 4, 5]);
    assert_eq!(outgoing.wrote(2), Ok(()));
    assert_eq!(outgoing.pending(), &[3, 4, 5]);
    assert_eq!(outgoing.wrote(0), Ok(()));
    assert_eq!(outgoing.wrote(4), Err(Error::ErrValueConversion));
    assert_eq!(outgoing.wrote(usize::MAX), Err(Error::ErrValueConversion));
    assert_eq!(outgoing.pending(), &[3, 4, 5]);
    assert_eq!(outgoing.wrote(3), Ok(()));
    assert!(outgoing.is_done());
    assert!(outgoing.pending().is_empty());
    assert!(Outgoing::new(vec![]).is_done());
}

#[test]
fn drain_reads_until_the_socket_would_block() {
    let mut drain = Drain::new();
    assert_eq!(drain.read(ReadEvent::Data(vec![1, 2])), Ok(true));
    assert_eq!(drain.read(ReadEvent::Data(vec![])), Ok(true));
    assert_eq!(drain.read(ReadEvent::Data(vec![3])), Ok(true));
    assert_eq!(drain.read(ReadEvent::WouldBlock), Ok(false));
    assert_eq!(drain.finish(), vec![1, 2, 3]);
    let mut failed = Drain::new();
    assert_eq!(failed.read(ReadEvent::Data(vec![9])), Ok(true));
    assert_eq!(failed.read(ReadEvent::Failed(104)), Err(Error::ErrRecvSocket(104)));
    assert_eq!(failed.finish(), vec![9]);
    assert_eq!(DRAIN_CHUNK, 2048);
}

#[test]
fn flags_of_dump_and_modify_requests_do_not_mix() {
    let dump = NetlinkMessage::builder().flag(Flag::Request).unwrap().flag(Flag::Dump).unwrap();
    assert_eq!(dump.flags, 0x301);
    assert_eq!(dump.context, Some(FlagContext::Dump));
    assert_eq!(
        dump.clone().flag(Flag::Create),
        Err(Error::ErrSerialize(Unencodable::MixedFlags))
    );
    assert_eq!(dump.clone().flag(Flag::Atomic).map(|b| b.flags), Ok(0x701));
    assert_eq!(dump.flag(Flag::Ack).map(|b| b.flags), Ok(0x305));
    let modify = NetlinkMessage::builder()
        .flag(Flag::Replace)
        .unwrap()
        .flag(Flag::Ack)
        .unwrap()
        .flag(Flag::Excl)
        .unwrap();
    assert_eq!(modify.flags, 0x304);
    assert_eq!(modify.context, Some(FlagContext::Modify));
    for flag in [Flag::Root, Flag::Match, Flag::Atomic, Flag::Dump] {
        assert_eq!(flag.context(), Some(FlagContext::Dump));
        assert_eq!(
            modify.clone().flag(flag),
            Err(Error::ErrSerialize(Unencodable::MixedFlags))
        );
    }
    for flag in [Flag::Replace, Flag::Excl, Flag::Create, Flag::Append] {
        assert_eq!(flag.context(), Some(FlagContext::Modify));
        assert!(modify.clone().flag(flag).is_ok());
    }
    for flag in [Flag::Request, Flag::Multi, Flag::Ack] {
        assert_eq!(flag.context(), None);
    }
    assert_eq!(Flag::Request | Flag::Dump, 0x301);
}

