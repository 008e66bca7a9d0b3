use netlink::align::aligned_size;
use netlink::attr::{read_attribute, read_attributes, serialize_attr, Attr, AttrHeader};
use netlink::deserialize::{
    deserialize_ascii, deserialize_i16, deserialize_i32, deserialize_i8, deserialize_ip_addr,
    deserialize_u16, deserialize_u32, deserialize_u64, IpAddr, Ipv4Addr, Ipv6Addr,
};
use netlink::error::{Error, Malformed, Unencodable};
use netlink::message::{Flag, MessageType, NetlinkHeader, DUMP, MATCH, MULTI, REQUEST, ROOT};
use netlink::reader::{OwnedSliceReader, SliceReader};
use netlink::route::{
    IfAddrMessageBuilder, InterfaceAddrHeader, InterfaceInfoHeader, RouteHeader,
};
use netlink::route_attr::{RouteAttrType, RouteAttrValue};
use netlink::serialize::{
    aligned_size_of, aligned_size_of_val, pad_to_align4, serialize_aligned, Deserialize, Serialize,
};

#[test]
fn test_nlmsg_with_no_payload_is_expected_size() {
    let rthdr = RouteHeader::builder().build();
    let bytes = serialize_aligned(rthdr).unwrap();
    assert_eq!(bytes.len(), aligned_size_of::<RouteHeader>());
}

#[test]
fn aligned_size_rounds_up_to_four() {
    assert_eq!(aligned_size(0), 0);
    assert_eq!(aligned_size(1), 4);
    assert_eq!(aligned_size(4), 4);
    assert_eq!(aligned_size(9), 12);
    assert_eq!(aligned_size(15), 16);
    assert_eq!(aligned_size(65535), 65536);
}

#[test]
fn aligned_size_keeps_the_three_bounds() {
    for n in 0usize..1000 {
        let a = aligned_size(n);
        assert!(a >= n);
        assert_eq!(a % 4, 0);
        assert!(a < n + 4);
    }
}

#[test]
fn aligned_sizes_of_the_headers() {
    assert_eq!(aligned_size_of::<NetlinkHeader>(), 16);
    assert_eq!(aligned_size_of::<RouteHeader>(), 12);
    assert_eq!(aligned_size_of::<InterfaceInfoHeader>(), 16);
    assert_eq!(aligned_size_of::<InterfaceAddrHeader>(), 8);
    assert_eq!(aligned_size_of::<AttrHeader>(), 4);
    assert_eq!(aligned_size_of_val(&RouteHeader::default()), 12);
}

#[test]
fn padding_appends_zero_bytes() {
    let mut bytes = vec![1u8, 2, 3, 4, 5];
    pad_to_align4(&mut bytes);
    assert_eq!(bytes, vec![1, 2, 3, 4, 5, 0, 0, 0]);
    let mut aligned = vec![1u8, 2, 3, 4];
    pad_to_align4(&mut aligned);
    assert_eq!(aligned, vec![1, 2, 3, 4]);
    let mut empty: Vec<u8> = Vec::new();
    pad_to_align4(&mut empty);
    assert!(empty.is_empty());
}

#[test]
fn integers_are_little_endian() {
    assert_eq!(deserialize_u16(&[0x34, 0x12]), Ok(0x1234));
    assert_eq!(deserialize_u32(&[0x78, 0x56, 0x34, 0x12]), Ok(0x1234_5678));
    assert_eq!(deserialize_u32(&[0xff, 0xff, 0xff, 0xff]), Ok(u32::MAX));
    assert_eq!(
        deserialize_u64(&[0xef, 0xcd, 0xab, 0x89, 0x67, 0x45, 0x23, 0x01]),
        Ok(0x0123_4567_89ab_cdef)
    );
    assert_eq!(deserialize_u64(&[0xff; 8]), Ok(u64::MAX));
    assert_eq!(deserialize_i8(&[0xff]), Ok(-1));
    assert_eq!(deserialize_i8(&[0x80]), Ok(i8::MIN));
    assert_eq!(deserialize_i8(&[0x7f]), Ok(i8::MAX));
    assert_eq!(deserialize_i16(&[0xfe, 0xff]), Ok(-2));
    assert_eq!(deserialize_i16(&[0x00, 0x80]), Ok(i16::MIN));
    assert_eq!(deserialize_i32(&[0xfd, 0xff, 0xff, 0xff]), Ok(-3));
    assert_eq!(deserialize_i32(&[0x00, 0x00, 0x00, 0x80]), Ok(i32::MIN));
    assert_eq!(deserialize_i32(&[0xff, 0xff, 0xff, 0x7f]), Ok(i32::MAX));
}

#[test]
fn integers_agree_with_the_standard_library() {
    for v in [0u32, 1, 255, 256, 65535, 65536, 0x7fff_ffff, 0x8000_0000, u32::MAX] {
        assert_eq!(deserialize_u32(&v.to_le_bytes()), Ok(v));
        assert_eq!(deserialize_i32(&v.to_le_bytes()), Ok(v as i32));
    }
    for v in [0u16, 1, 255, 256, 0x7fff, 0x8000, u16::MAX] {
        assert_eq!(deserialize_u16(&v.to_le_bytes()), Ok(v));
        assert_eq!(deserialize_i16(&v.to_le_bytes()), Ok(v as i16));
    }
    for v in 0u8..=255 {
        assert_eq!(deserialize_i8(&[v]), Ok(v as i8));
    }
}

#[test]
fn integers_agree_with_bincode() {
    for v in [0u32, 7, 0x0102_0304, u32::MAX] {
        let bytes = bincode::serialize(&v).unwrap();
        assert_eq!(deserialize_u32(&bytes), Ok(v));
    }
    for v in [i32::MIN, -1, 0, 5, i32::MAX] {
        let bytes = bincode::serialize(&v).unwrap();
        assert_eq!(deserialize_i32(&bytes), Ok(v));
    }
}

#[test]
fn short_integers_are_unexpected_eof() {
    assert_eq!(deserialize_i8(&[]), Err(Error::ErrUnexpectedEof));
    assert_eq!(deserialize_i16(&[1]), Err(Error::ErrUnexpectedEof));
    assert_eq!(deserialize_u16(&[1]), Err(Error::ErrUnexpectedEof));
    assert_eq!(deserialize_i32(&[1, 2, 3]), Err(Error::ErrUnexpectedEof));
    assert_eq!(deserialize_u32(&[1, 2, 3]), Err(Error::ErrUnexpectedEof));
    assert_eq!(deserialize_u64(&[1, 2, 3, 4, 5, 6, 7]), Err(Error::ErrUnexpectedEof));
}

#[test]
fn integers_ignore_what_follows_their_width() {
    assert_eq!(deserialize_i8(&[5, 0, 0, 0]), Ok(5));
    assert_eq!(deserialize_i16(&[5, 0, 9, 9]), Ok(5));
    assert_eq!(deserialize_u32(&[5, 0, 0, 0, 9, 9, 9, 9]), Ok(5));
}

#[test]
fn four_bytes_are_an_ipv4_address() {
    assert_eq!(
        deserialize_ip_addr(&[192, 168, 1, 1]),
        Ok(IpAddr::V4(Ipv4Addr { octets: [192, 168, 1, 1] }))
    );
}

#[test]
fn sixteen_bytes_are_an_ipv6_address() {
    let octets = [0xfe, 0x80, 0, 0, 0, 0, 0, 0, 0, 0, 0, 0, 0, 0, 0, 1];
    assert_eq!(deserialize_ip_addr(&octets), Ok(IpAddr::V6(Ipv6Addr { octets })));
}

#[test]
fn other_lengths_are_no_address() {
    for len in [0usize, 1, 3, 5, 6, 15, 17, 32] {
        let bytes = vec![0u8; len];
        assert_eq!(
            deserialize_ip_addr(&bytes),
            Err(Error::ErrDeserialize(Malformed::AddressLength(len)))
        );
    }
}

#[test]
fn text_loses_its_trailing_nul_bytes() {
    assert_eq!(deserialize_ascii(b"lo\0"), "lo");
    assert_eq!(deserialize_ascii(b"lo\0\0\0\0\0\0"), "lo");
    assert_eq!(deserialize_ascii(b"eth0"), "eth0");
    assert_eq!(deserialize_ascii(b""), "");
    assert_eq!(deserialize_ascii(b"\0\0\0"), "");
    assert_eq!(deserialize_ascii(b"a\0b\0"), "a\0b");
    assert_eq!(deserialize_ascii(b"\0a"), "\0a");
}

#[test]
fn text_replaces_ill_formed_bytes() {
    assert_eq!(deserialize_ascii(&[b'a', 0xff, b'b', 0]), "a\u{fffd}b");
    assert_eq!(deserialize_ascii("h\u{e9}\0".as_bytes()), "h\u{e9}");
}

#[test]
fn header_is_sixteen_little_endian_bytes() {
    let header = NetlinkHeader { len: 28, typ: 26, flags: 0x301, seq: 0, pid: 0x0403_0201 };
    assert_eq!(
        header.serialize(),
        vec![0x1c, 0, 0, 0, 0x1a, 0, 0x01, 0x03, 0, 0, 0, 0, 0x01, 0x02, 0x03, 0x04]
    );
}

#[test]
fn header_agrees_with_bincode() {
    let header =
        NetlinkHeader { len: 0x11223344, typ: 0x5566, flags: 0x7788, seq: 0x99aabbcc, pid: 7 };
    let expected =
        bincode::serialize(&(header.len, header.typ, header.flags, header.seq, header.pid))
            .unwrap();
    assert_eq!(header.serialize(), expected);
}

#[test]
fn header_round_trip() {
    for header in [
        NetlinkHeader { len: 16, typ: 3, flags: 2, seq: 1, pid: 4242 },
        NetlinkHeader {
            len: u32::MAX,
            typ: u16::MAX,
            flags: u16::MAX,
            seq: u32::MAX,
            pid: u32::MAX,
        },
        NetlinkHeader { len: 0x0102_0304, typ: 0x0506, flags: 0x0708, seq: 0x090a_0b0c, pid: 0 },
    ] {
        let bytes = header.serialize();
        assert_eq!(bytes.len(), 16);
        assert_eq!(NetlinkHeader::deserialize(&bytes), Ok(header));
    }
}

#[test]
fn header_needs_sixteen_bytes() {
    assert_eq!(NetlinkHeader::deserialize(&[0u8; 15]), Err(Error::ErrUnexpectedEof));
    assert_eq!(NetlinkHeader::deserialize(&[]), Err(Error::ErrUnexpectedEof));
}

#[test]
fn header_that_declares_less_than_itself_is_malformed() {
    let mut bytes = vec![0u8; 16];
    bytes[0] = 15;
    assert_eq!(
        NetlinkHeader::deserialize(&bytes),
        Err(Error::ErrDeserialize(Malformed::MessageLength(15)))
    );
}

#[test]
fn has_flags_asks_for_every_bit_of_the_mask() {
    let header = NetlinkHeader { len: 16, typ: 0, flags: 0x301, seq: 0, pid: 0 };
    assert!(header.has_flags(REQUEST));
    assert!(header.has_flags(ROOT));
    assert!(header.has_flags(MATCH));
    assert!(header.has_flags(DUMP));
    assert!(header.has_flags(REQUEST | DUMP));
    assert!(header.has_flags(0));
    assert!(!header.has_flags(MULTI));
    assert!(!header.has_flags(REQUEST | MULTI));
    for flags in [0u16, 1, 2, 0x301, 0xffff] {
        for mask in [0u16, 1, 2, 3, 0x100, 0x300, 0xffff] {
            let h = NetlinkHeader { len: 16, typ: 0, flags, seq: 0, pid: 0 };
            assert_eq!(h.has_flags(mask), flags & mask == mask);
        }
    }
}

#[test]
fn has_type_compares_the_type() {
    let header = NetlinkHeader { len: 16, typ: 3, flags: 0, seq: 0, pid: 0 };
    assert!(header.has_type(MessageType::Done));
    assert!(!header.has_type(MessageType::Error));
    assert!(!header.has_type(MessageType::Noop));
    assert!(!header.has_type(MessageType::Overrun));
}

#[test]
fn message_types_and_flags_have_their_numbers() {
    assert_eq!(u16::from(MessageType::Noop), 1);
    assert_eq!(u16::from(MessageType::Error), 2);
    assert_eq!(u16::from(MessageType::Done), 3);
    assert_eq!(u16::from(MessageType::Overrun), 4);
    assert_eq!(u16::from(Flag::Request), 0x1);
    assert_eq!(u16::from(Flag::Multi), 0x2);
    assert_eq!(u16::from(Flag::Ack), 0x4);
    assert_eq!(u16::from(Flag::Root), 0x100);
    assert_eq!(u16::from(Flag::Match), 0x200);
    assert_eq!(u16::from(Flag::Atomic), 0x400);
    assert_eq!(u16::from(Flag::Dump), 0x300);
    assert_eq!(u16::from(Flag::Replace), 0x100);
    assert_eq!(u16::from(Flag::Excl), 0x200);
    assert_eq!(u16::from(Flag::Create), 0x400);
    assert_eq!(u16::from(Flag::Append), 0x800);
    assert_eq!(DUMP, ROOT | MATCH);
}

#[test]
fn route_header_is_nine_bytes_padded_to_twelve() {
    let header = RouteHeader::builder()
        .family(2)
        .dst_len(24)
        .src_len(1)
        .tos(3)
        .table(254)
        .protocol(4)
        .scope(5)
        .typ(6)
        .flags(7)
        .build();
    assert_eq!(header.serialize(), vec![2, 24, 1, 3, 254, 4, 5, 6, 7]);
    assert_eq!(serialize_aligned(header), Ok(vec![2, 24, 1, 3, 254, 4, 5, 6, 7, 0, 0, 0]));
    assert_eq!(RouteHeader::deserialize(&[2, 24, 1, 3, 254, 4, 5, 6, 7, 0, 0, 0]), Ok(header));
    assert_eq!(RouteHeader::deserialize(&[0u8; 8]), Err(Error::ErrUnexpectedEof));
}

#[test]
fn interface_header_is_sixteen_bytes() {
    let header = InterfaceInfoHeader::builder().family(1).typ(0x0302).index(-2).flags(0x43).build();
    let bytes = header.serialize();
    assert_eq!(
        bytes,
        vec![1, 0, 0x02, 0x03, 0xfe, 0xff, 0xff, 0xff, 0x43, 0, 0, 0, 0xff, 0xff, 0xff, 0xff]
    );
    assert_eq!(InterfaceInfoHeader::deserialize(&bytes), Ok(header));
    assert_eq!(InterfaceInfoHeader::deserialize(&bytes[..15]), Err(Error::ErrUnexpectedEof));
    let masked = InterfaceInfoHeader::builder().change(1).build();
    assert_eq!(masked.change, 1);
    for index in [i32::MIN, -1, 0, 1, i32::MAX] {
        let header = InterfaceInfoHeader::builder().index(index).build();
        assert_eq!(InterfaceInfoHeader::deserialize(&header.serialize()), Ok(header));
    }
}

#[test]
fn address_header_is_eight_bytes() {
    let header = InterfaceAddrHeader::builder()
        .family(2)
        .prefixlen(24)
        .flags(0x80)
        .scope(253)
        .index(0x0102_0304)
        .build();
    let bytes = header.serialize();
    assert_eq!(bytes, vec![2, 24, 0x80, 253, 4, 3, 2, 1]);
    assert_eq!(InterfaceAddrHeader::deserialize(&bytes), Ok(header));
    assert_eq!(InterfaceAddrHeader::deserialize(&bytes[..7]), Err(Error::ErrUnexpectedEof));
    assert_eq!(IfAddrMessageBuilder::new().build(), InterfaceAddrHeader::default());
}

#[test]
fn attribute_is_header_payload_and_padding() {
    assert_eq!(serialize_attr(3, b"lo\0"), Ok(vec![7, 0, 3, 0, b'l', b'o', 0, 0]));
    assert_eq!(serialize_attr(29, &[9, 0, 0, 0]), Ok(vec![8, 0, 29, 0, 9, 0, 0, 0]));
    assert_eq!(serialize_attr(0x1234, &[]), Ok(vec![4, 0, 0x34, 0x12]));
    assert_eq!(serialize_attr(1, &[1]), Ok(vec![5, 0, 1, 0, 1, 0, 0, 0]));
}

#[test]
fn attribute_payload_is_at_most_65531_bytes() {
    let longest = vec![7u8; 65531];
    let bytes = serialize_attr(1, &longest).unwrap();
    assert_eq!(bytes.len(), 65536);
    assert_eq!(&bytes[..4], &[0xff, 0xff, 1, 0]);
    let too_long = vec![7u8; 65532];
    assert_eq!(
        serialize_attr(1, &too_long),
        Err(Error::ErrSerialize(Unencodable::AttributePayload(65532)))
    );
}

#[test]
fn attribute_round_trip() {
    for len in [0usize, 1, 2, 3, 4, 5, 8, 100, 65531] {
        let payload: Vec<u8> = (0..len).map(|i| (i % 251) as u8 + 1).collect();
        let stream = serialize_attr(0xabcd, &payload).unwrap();
        assert_eq!(stream.len(), aligned_size(4 + len));
        let mut reader = SliceReader::new(&stream);
        let attrs = read_attributes::<Attr>(&mut reader).unwrap();
        assert_eq!(attrs.len(), 1);
        assert_eq!(attrs[0].header, AttrHeader { len: (4 + len) as u16, typ: 0xabcd });
        assert_eq!(&attrs[0].payload[..len], &payload[..]);
        assert!(attrs[0].payload[len..].iter().all(|b| *b == 0));
        assert_eq!(attrs[0].payload.len(), aligned_size(4 + len) - 4);
        assert_eq!(attrs[0].value(), &payload[..]);
        if len % 4 == 0 {
            assert_eq!(attrs[0].payload, payload);
        }
    }
}

#[test]
fn attribute_stream_keeps_its_order() {
    let items: Vec<(u16, Vec<u8>)> = vec![
        (1, vec![10, 0, 0, 1]),
        (0xff, vec![]),
        (3, b"eth0\0\0\0\0".to_vec()),
        (7, vec![1, 2, 3, 4, 5, 6, 7, 8]),
        (1, vec![10, 0, 0, 2]),
    ];
    let mut stream = Vec::new();
    for (typ, payload) in &items {
        stream.extend(serialize_attr(*typ, payload).unwrap());
    }
    let mut reader = SliceReader::new(&stream);
    let attrs = read_attributes::<Attr>(&mut reader).unwrap();
    assert_eq!(attrs.len(), items.len());
    for (attr, (typ, payload)) in attrs.iter().zip(&items) {
        assert_eq!(attr.header.typ, *typ);
        assert_eq!(attr.header.len as usize, 4 + payload.len());
        assert_eq!(&attr.payload, payload);
    }
    assert!(reader.is_empty());
}

#[test]
fn empty_stream_has_no_attributes() {
    let mut reader = SliceReader::new(&[]);
    assert_eq!(read_attributes::<Attr>(&mut reader), Ok(vec![]));
}

#[test]
fn attribute_that_declares_less_than_its_header_is_malformed() {
    let mut reader = SliceReader::new(&[3, 0, 1, 0]);
    assert_eq!(
        read_attributes::<Attr>(&mut reader),
        Err(Error::ErrDeserialize(Malformed::AttributeLength(3)))
    );
}

#[test]
fn attribute_that_overruns_the_stream_is_unexpected_eof() {
    let mut reader = SliceReader::new(&[12, 0, 1, 0, 1, 2, 3, 4]);
    assert_eq!(read_attributes::<Attr>(&mut reader), Err(Error::ErrUnexpectedEof));
    let mut padded = SliceReader::new(&[5, 0, 1, 0, 1]);
    assert_eq!(read_attributes::<Attr>(&mut padded), Err(Error::ErrUnexpectedEof));
    let mut short = SliceReader::new(&[8, 0, 1]);
    assert_eq!(read_attributes::<Attr>(&mut short), Err(Error::ErrUnexpectedEof));
}

#[test]
fn gateway_attribute_is_an_ipv4_address() {
    let input = [0x08, 0x00, 0x05, 0x00, 0xC0, 0xA8, 0x01, 0x01];
    let mut reader = SliceReader::new(&input);
    let attr = read_attribute::<RouteAttrValue>(&mut reader).unwrap();
    assert_eq!(attr, RouteAttrValue::Gateway(IpAddr::V4(Ipv4Addr { octets: [192, 168, 1, 1] })));
    assert!(reader.is_empty());
    assert_eq!(RouteAttrType::from_u16(5), Ok(RouteAttrType::Gateway));
}

#[test]
fn unknown_attribute_is_kept_as_bytes() {
    let input = [0x08, 0x00, 0xFF, 0x00, 0xDE, 0xAD, 0xBE, 0xEF];
    let mut reader = SliceReader::new(&input);
    let attrs = read_attributes::<RouteAttrValue>(&mut reader).unwrap();
    assert_eq!(attrs, vec![RouteAttrValue::Unknown(0x00FF, vec![0xDE, 0xAD, 0xBE, 0xEF])]);
}

#[test]
fn unknown_attribute_does_not_fail_its_siblings() {
    let input = [
        0x08, 0x00, 0xFF, 0x00, 0xDE, 0xAD, 0xBE, 0xEF, 0x08, 0x00, 0x05, 0x00, 0xC0, 0xA8, 0x01,
        0x01,
    ];
    let mut reader = SliceReader::new(&input);
    let attrs = read_attributes::<RouteAttrValue>(&mut reader).unwrap();
    assert_eq!(
        attrs,
        vec![
            RouteAttrValue::Unknown(0x00FF, vec![0xDE, 0xAD, 0xBE, 0xEF]),
            RouteAttrValue::Gateway(IpAddr::V4(Ipv4Addr { octets: [192, 168, 1, 1] })),
        ]
    );
}

#[test]
fn reader_after_a_failed_payload_stands_at_the_next_attribute() {
    // A gateway of five bytes is no address; the priority behind it is still read.
    let input = [
        0x09, 0x00, 0x05, 0x00, 1, 2, 3, 4, 5, 0, 0, 0, 0x08, 0x00, 0x06, 0x00, 100, 0, 0, 0,
    ];
    let mut reader = SliceReader::new(&input);
    assert_eq!(
        read_attribute::<RouteAttrValue>(&mut reader),
        Err(Error::ErrDeserialize(Malformed::AddressLength(8)))
    );
    assert_eq!(read_attribute::<RouteAttrValue>(&mut reader), Ok(RouteAttrValue::Priority(100)));
    assert!(reader.is_empty());
}

#[test]
fn slice_reader_takes_and_stops_at_the_end() {
    let bytes = [1u8, 2, 3, 4, 5];
    let mut reader = SliceReader::new(&bytes);
    assert!(!reader.is_empty());
    assert_eq!(reader.take(2), Ok(&bytes[0..2]));
    assert_eq!(reader.remaining(), &bytes[2..]);
    assert_eq!(reader.take(4), Err(Error::ErrUnexpectedEof));
    assert_eq!(reader.remaining(), &bytes[2..]);
    assert_eq!(reader.take(usize::MAX), Err(Error::ErrUnexpectedEof));
    assert_eq!(reader.take(3), Ok(&bytes[2..5]));
    assert!(reader.is_empty());
    assert_eq!(reader.take(0), Ok(&bytes[5..5]));
    assert_eq!(reader.take(1), Err(Error::ErrUnexpectedEof));
}

#[test]
fn owned_reader_takes_and_stops_at_the_end() {
    let mut reader = OwnedSliceReader::new(vec![1, 2, 3, 4, 5]);
    assert!(!reader.is_empty());
    assert_eq!(reader.take(2).map(|s| s.to_vec()), Ok(vec![1, 2]));
    assert_eq!(reader.remaining(), &[3, 4, 5]);
    assert_eq!(reader.take(4).map(|s| s.to_vec()), Err(Error::ErrUnexpectedEof));
    assert_eq!(reader.take(3).map(|s| s.to_vec()), Ok(vec![3, 4, 5]));
    assert!(reader.is_empty());
}

#[test]
fn reader_reads_the_padded_size_of_a_value() {
    let mut bytes = vec![2u8, 0, 0, 0, 254, 0, 0, 0, 0, 0, 0, 0];
    bytes.extend([8, 0, 15, 0, 254, 0, 0, 0]);
    let mut reader = SliceReader::new(&bytes);
    let header: RouteHeader = reader.read().unwrap();
    assert_eq!(header.family, 2);
    assert_eq!(header.table, 254);
    assert_eq!(reader.remaining().len(), 8);
    let attr: AttrHeader = reader.read().unwrap();
    assert_eq!(attr, AttrHeader { len: 8, typ: 15 });
    let missing: Result<NetlinkHeader, Error> = reader.read();
    assert_eq!(missing, Err(Error::ErrUnexpectedEof));
    assert_eq!(reader.remaining().len(), 4);
    let mut owned = OwnedSliceReader::new(bytes.clone());
    let header: RouteHeader = owned.read().unwrap();
    assert_eq!(header.table, 254);
    assert_eq!(owned.remaining().len(), 8);
}

#[test]
fn attribute_value_is_never_longer_than_the_payload() {
    let declared_more = Attr { header: AttrHeader { len: 12, typ: 1 }, payload: vec![1, 2, 3, 4] };
    assert_eq!(declared_more.value(), &[1, 2, 3, 4]);
    let declared_less = Attr { header: AttrHeader { len: 2, typ: 1 }, payload: vec![1, 2, 3, 4] };
    assert!(declared_less.value().is_empty());
    let padded = Attr { header: AttrHeader { len: 5, typ: 1 }, payload: vec![1, 0, 0, 0] };
    assert_eq!(padded.value(), &[1]);
}

#[test]
fn family_headers_agree_with_bincode() {
    let route = RouteHeader::builder().family(2).dst_len(8).tos(1).table(254).scope(9).build();
    let expected = bincode::serialize(&(2u8, 8u8, 0u8, 1u8, 254u8, 0u8, 9u8, 0u8, 0u8)).unwrap();
    assert_eq!(route.serialize(), expected);
    let addr = InterfaceAddrHeader::builder().family(10).prefixlen(64).index(77).build();
    let expected = bincode::serialize(&(10u8, 64u8, 0u8, 0u8, 77u32)).unwrap();
    assert_eq!(addr.serialize(), expected);
    let info = InterfaceInfoHeader::builder().family(1).typ(2).index(-3).flags(4).build();
    let expected = bincode::serialize(&(1u8, 0u8, 2u16, -3i32, 4u32, u32::MAX)).unwrap();
    assert_eq!(info.serialize(), expected);
    let attr = AttrHeader { len: 0x0102, typ: 0x0304 };
    assert_eq!(attr.serialize(), bincode::serialize(&(0x0102u16, 0x0304u16)).unwrap());
}
