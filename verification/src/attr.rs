//! What attributes of every family have in common: the tag, the shapes a
//! payload can take, and the mathematical model of a decoded payload.

use core::marker::PhantomData;
use vstd::prelude::*;
use vstd::slice::slice_to_vec;
use crate::align::align4;
use crate::deserialize::{ascii, deserialize_u16, le_i16, le_i32, le_i8, le_u16, le_u32};
use crate::error::{Error, Malformed, Result, Unencodable};
use crate::reader::{OwnedSliceReader, SliceReader};
use crate::serialize::{pad4, pad_to_align4, push_u16, u16_bytes, Deserialize, Serialize};
use crate::stats::{LinkStats, Stats64};

verus! {

/// The tag of an attribute: one that its family names, or a number that the
/// family does not know.
#[derive(Debug, PartialEq, Eq)]
pub enum Tag<T> {
    Known(T),
    Unknown(u16),
}

/// The shape of an attribute's payload, which its tag decides.
#[derive(Clone, Copy, Debug, PartialEq, Eq, Structural)]
pub enum PayloadKind {
    /// The payload is kept as it is.
    Bytes,
    /// NUL-terminated text.
    Text,
    U32,
    I32,
    I16,
    I8,
    /// An IPv4 or IPv6 address, told apart by the payload's length.
    Addr,
    /// The 32-bit interface counters.
    Stats,
    /// The 64-bit interface counters.
    Stats64,
}

/// The model of a decoded payload.
pub enum Payload {
    Bytes(Seq<u8>),
    Text(Seq<char>),
    U32(u32),
    I32(i32),
    I16(i16),
    I8(i8),
    /// The octets of an address: four or sixteen of them.
    Addr(Seq<u8>),
    Stats(LinkStats),
    Stats64(Stats64),
}

/// The model of a decoded attribute: its tag and its payload.
pub struct AttrModel<T> {
    pub tag: Tag<T>,
    pub payload: Payload,
}

/// The number of bytes that a payload of the given kind must at least hold.
pub open spec fn min_len(kind: PayloadKind) -> nat {
    match kind {
        PayloadKind::Bytes | PayloadKind::Text | PayloadKind::Addr => 0,
        PayloadKind::I8 => 1,
        PayloadKind::I16 => 2,
        PayloadKind::U32 | PayloadKind::I32 => 4,
        PayloadKind::Stats => 96,
        PayloadKind::Stats64 => 200,
    }
}

/// What decoding `bytes` as a payload of the given kind gives: the payload's
/// model, or the error that says why the bytes are no such payload.
pub open spec fn decode_payload(kind: PayloadKind, bytes: Seq<u8>) -> core::result::Result<
    Payload,
    Error,
> {
    if bytes.len() < min_len(kind) {
        Err(Error::ErrUnexpectedEof)
    } else {
        match kind {
            PayloadKind::Bytes => Ok(Payload::Bytes(bytes)),
            PayloadKind::Text => Ok(Payload::Text(ascii(bytes))),
            PayloadKind::U32 => Ok(Payload::U32(le_u32(bytes) as u32)),
            PayloadKind::I32 => Ok(Payload::I32(le_i32(bytes) as i32)),
            PayloadKind::I16 => Ok(Payload::I16(le_i16(bytes) as i16)),
            PayloadKind::I8 => Ok(Payload::I8(le_i8(bytes) as i8)),
            PayloadKind::Addr => if bytes.len() == 4 || bytes.len() == 16 {
                Ok(Payload::Addr(bytes))
            } else {
                Err(Error::ErrDeserialize(Malformed::AddressLength(bytes.len() as usize)))
            },
            PayloadKind::Stats => Ok(Payload::Stats(LinkStats::decode(bytes))),
            PayloadKind::Stats64 => Ok(Payload::Stats64(Stats64::decode(bytes))),
        }
    }
}

/// The header of an attribute as it stands on the wire.
#[derive(Clone, Copy, Debug, Default, PartialEq, Eq, Structural)]
pub struct AttrHeader {
    /// The length of the header and the payload together, without the
    /// padding that follows the payload.
    pub len: u16,
    /// The number of the attribute's tag.
    pub typ: u16,
}

impl AttrHeader {
    /// The header that the first four bytes of `bytes` hold.
    pub open spec fn parse(bytes: Seq<u8>) -> AttrHeader {
        AttrHeader { len: le_u16(bytes) as u16, typ: le_u16(bytes.skip(2)) as u16 }
    }

    /// The number of bytes that the attribute takes in a stream: the length
    /// it declares, padded.
    pub open spec fn footprint(self) -> int {
        align4(self.len as int)
    }
}

impl Serialize for AttrHeader {
    open spec fn wire(&self) -> Seq<u8> {
        u16_bytes(self.len) + u16_bytes(self.typ)
    }

    fn serialize(&self) -> (bytes: Vec<u8>) {
        let mut bytes: Vec<u8> = Vec::with_capacity(4);
        push_u16(&mut bytes, self.len);
        push_u16(&mut bytes, self.typ);
        bytes
    }
}

impl Deserialize for AttrHeader {
    open spec fn wire_size() -> nat {
        4
    }

    open spec fn decoded(bytes: Seq<u8>) -> core::result::Result<AttrHeader, Error> {
        if bytes.len() < 4 {
            Err(Error::ErrUnexpectedEof)
        } else if le_u16(bytes) < 4 {
            Err(Error::ErrDeserialize(Malformed::AttributeLength(le_u16(bytes) as u16)))
        } else {
            Ok(AttrHeader::parse(bytes))
        }
    }

    fn size() -> (n: usize) {
        4
    }

    fn deserialize(bytes: &[u8]) -> (r: Result<AttrHeader>) {
        if bytes.len() < 4 {
            return Err(Error::ErrUnexpectedEof);
        }
        let len = deserialize_u16(bytes)?;
        if len < 4 {
            return Err(Error::ErrDeserialize(Malformed::AttributeLength(len)));
        }
        let typ = deserialize_u16(vstd::slice::slice_subrange(bytes, 2, 4))?;
        Ok(AttrHeader { len, typ })
    }
}

/// A value that is decoded from the payload of an attribute, by the
/// attribute's header.
pub trait DeserializeTyped: Sized + View {
    /// The model of the value that `payload` holds under `header`, or why it
    /// holds none.
    spec fn decoded(header: AttrHeader, payload: Seq<u8>) -> core::result::Result<Self::V, Error>;

    /// Decodes the payload of the attribute with the given header.
    fn deserialize(header: &AttrHeader, payload: &[u8]) -> (r: Result<Self>)
        ensures
            match Self::decoded(*header, payload@) {
                Ok(model) => r is Ok && r.unwrap()@ == model,
                Err(e) => r == Err::<Self, Error>(e),
            },
    ;
}

/// The model of an attribute that was read without looking at its tag.
pub struct RawAttr {
    pub header: AttrHeader,
    pub payload: Seq<u8>,
}

/// An attribute as it was read from a stream: its header, and its payload
/// together with the padding that follows it.
#[derive(Clone, Debug, PartialEq, Eq)]
pub struct Attr {
    pub header: AttrHeader,
    pub payload: Vec<u8>,
}

impl RawAttr {
    /// The payload without the padding behind it: as many bytes as the
    /// header declares beyond itself, and no more than are there.
    pub open spec fn value(self) -> Seq<u8> {
        if self.header.len < 4 {
            Seq::empty()
        } else if self.header.len - 4 <= self.payload.len() {
            self.payload.take(self.header.len - 4)
        } else {
            self.payload
        }
    }
}

impl Attr {
    /// The payload without the padding behind it.
    pub fn value(&self) -> (value: &[u8])
        ensures
            value@ == self@.value(),
    {
        let declared: usize = if self.header.len < 4 {
            0
        } else {
            (self.header.len - 4) as usize
        };
        let end: usize = if declared <= self.payload.len() {
            declared
        } else {
            self.payload.len()
        };
        let value = vstd::slice::slice_subrange(self.payload.as_slice(), 0, end);
        value
    }
}

impl View for Attr {
    type V = RawAttr;

    open spec fn view(&self) -> RawAttr {
        RawAttr { header: self.header, payload: self.payload@ }
    }
}

impl DeserializeTyped for Attr {
    open spec fn decoded(header: AttrHeader, payload: Seq<u8>) -> core::result::Result<
        RawAttr,
        Error,
    > {
        Ok(RawAttr { header, payload })
    }

    fn deserialize(header: &AttrHeader, payload: &[u8]) -> (r: Result<Attr>) {
        Ok(Attr { header: *header, payload: slice_to_vec(payload) })
    }
}

/// What reading one attribute from the front of `bytes` gives: the model of
/// its value and the number of bytes that it took.
pub open spec fn first_attr<P: DeserializeTyped>(bytes: Seq<u8>) -> core::result::Result<
    (P::V, int),
    Error,
> {
    match AttrHeader::decoded(bytes) {
        Err(e) => Err(e),
        Ok(header) => if bytes.len() < header.footprint() {
            Err(Error::ErrUnexpectedEof)
        } else {
            match P::decoded(header, bytes.subrange(4, header.footprint())) {
                Err(e) => Err(e),
                Ok(model) => Ok((model, header.footprint())),
            }
        },
    }
}

/// What reading a stream of attributes to its end gives: the models of the
/// values in the order of the stream, or the first failure.
pub open spec fn decode_attrs<P: DeserializeTyped>(bytes: Seq<u8>) -> core::result::Result<
    Seq<P::V>,
    Error,
>
    decreases bytes.len(),
{
    if bytes.len() == 0 {
        Ok(Seq::empty())
    } else {
        match first_attr::<P>(bytes) {
            Err(e) => Err(e),
            Ok((model, used)) => match decode_attrs::<P>(bytes.skip(used)) {
                Err(e) => Err(e),
                Ok(rest) => Ok(seq![model] + rest),
            },
        }
    }
}

/// Every attribute that `first_attr` reads takes at least its header and at
/// most what is there.
pub proof fn lemma_first_attr_used<P: DeserializeTyped>(bytes: Seq<u8>)
    ensures
        first_attr::<P>(bytes) matches Ok((_, used)) ==> 4 <= used <= bytes.len() && used % 4
            == 0,
{
}

/// Reads one attribute from the reader. Where the payload cannot be decoded
/// the reader stands behind the attribute, so that the next one can still be
/// read.
pub fn read_attribute<P: DeserializeTyped>(reader: &mut SliceReader) -> (r: Result<P>)
    ensures
        final(reader).bytes() == old(reader).bytes(),
        old(reader).position() <= final(reader).position() <= final(reader).bytes().len(),
        match first_attr::<P>(old(reader).rest()) {
            Ok((model, used)) => r is Ok && r.unwrap()@ == model && final(reader).position()
                == old(reader).position() + used,
            Err(e) => r == Err::<P, Error>(e),
        },
        ({
            let header = AttrHeader::decoded(old(reader).rest());
            header is Ok && header->Ok_0.footprint() <= old(reader).rest().len()
                ==> final(reader).position() == old(reader).position() + header->Ok_0.footprint()
        }),
{
    let header: AttrHeader = reader.read::<AttrHeader>()?;
    let ghost rest = old(reader).rest();
    let padded: usize = crate::align::aligned_size(header.len as usize);
    let payload = reader.take(padded - 4)?;
    assert(payload@ =~= rest.subrange(4, header.footprint()));
    P::deserialize(&header, payload)
}

/// Reads attributes until the reader is at its end.
pub fn read_attributes<P: DeserializeTyped>(reader: &mut SliceReader) -> (r: Result<Vec<P>>)
    ensures
        final(reader).bytes() == old(reader).bytes(),
        match decode_attrs::<P>(old(reader).rest()) {
            Ok(models) => r is Ok && r.unwrap()@.map_values(|p: P| p@) == models
                && final(reader).rest().len() == 0,
            Err(e) => r == Err::<Vec<P>, Error>(e),
        },
{
    let mut attributes: Vec<P> = Vec::new();
    let ghost start = reader.rest();
    let ghost mut done: Seq<P::V> = Seq::empty();
    while !reader.is_empty()
        invariant
            reader.bytes() == old(reader).bytes(),
            start == old(reader).rest(),
            attributes@.map_values(|p: P| p@) == done,
            decode_attrs::<P>(start) == prepend(done, decode_attrs::<P>(reader.rest())),
        decreases reader.rest().len(),
    {
        let ghost before = reader.rest();
        proof {
            lemma_first_attr_used::<P>(before);
        }
        let attr: P = read_attribute::<P>(reader)?;
        proof {
            let used = first_attr::<P>(before)->Ok_0.1;
            assert(reader.rest() =~= before.skip(used));
            let rest = decode_attrs::<P>(reader.rest());
            assert(prepend(done.push(attr@), rest) == prepend(done, decode_attrs::<P>(before))) by {
                if rest is Ok {
                    assert(done.push(attr@) + rest->Ok_0 =~= done + (seq![attr@] + rest->Ok_0));
                }
            }
            done = done.push(attr@);
        }
        attributes.push(attr);
    }
    Ok(attributes)
}

/// The result of a stream that continues after the values `done`.
pub open spec fn prepend<M>(done: Seq<M>, rest: core::result::Result<Seq<M>, Error>)
    -> core::result::Result<Seq<M>, Error> {
    match rest {
        Ok(more) => Ok(done + more),
        Err(e) => Err(e),
    }
}

/// The wire form of an attribute: the header, the payload, and the zero bytes
/// that pad it.
pub open spec fn attr_wire(typ: u16, payload: Seq<u8>) -> Seq<u8> {
    pad4(u16_bytes((4 + payload.len()) as u16) + u16_bytes(typ) + payload)
}

/// Encodes an attribute. The header's length counts the header and the
/// payload, not the padding, so it fits only a payload of at most 65531
/// bytes.
pub fn serialize_attr(typ: u16, payload: &[u8]) -> (r: Result<Vec<u8>>)
    ensures
        payload@.len() <= 65531 ==> r is Ok && r.unwrap()@ == attr_wire(typ, payload@),
        payload@.len() > 65531 ==> r == Err::<Vec<u8>, Error>(
            Error::ErrSerialize(Unencodable::AttributePayload(payload.len())),
        ),
{
    if payload.len() > 65531 {
        return Err(Error::ErrSerialize(Unencodable::AttributePayload(payload.len())));
    }
    let mut bytes: Vec<u8> = Vec::new();
    push_u16(&mut bytes, (4 + payload.len()) as u16);
    push_u16(&mut bytes, typ);
    bytes.extend_from_slice(payload);
    pad_to_align4(&mut bytes);
    Ok(bytes)
}

/// The payload of an attribute as a reader hands it out: with the zero bytes
/// that pad the attribute.
pub open spec fn padded_payload(payload: Seq<u8>) -> Seq<u8> {
    payload + crate::serialize::zeros((align4(4 + payload.len() as int) - 4 - payload.len()) as nat)
}

/// What reading the attribute that was written from `typ` and `payload` gives.
pub open spec fn raw_attr(typ: u16, payload: Seq<u8>) -> RawAttr {
    RawAttr {
        header: AttrHeader { len: (4 + payload.len()) as u16, typ },
        payload: padded_payload(payload),
    }
}

/// An encoded attribute at the front of a stream is read back with its tag
/// and its length, takes its padded length from the stream, and hands out the
/// payload followed by the padding.
proof fn lemma_first_attr_of_wire(typ: u16, payload: Seq<u8>, tail: Seq<u8>)
    requires
        payload.len() <= 65531,
    ensures
        attr_wire(typ, payload).len() == align4(4 + payload.len() as int),
        first_attr::<Attr>(attr_wire(typ, payload) + tail) == Ok::<(RawAttr, int), Error>(
            (raw_attr(typ, payload), align4(4 + payload.len() as int)),
        ),
        (attr_wire(typ, payload) + tail).skip(align4(4 + payload.len() as int)) == tail,
{
    let len = (4 + payload.len()) as u16;
    let unpadded = u16_bytes(len) + u16_bytes(typ) + payload;
    let wire = attr_wire(typ, payload);
    let stream = wire + tail;
    crate::serialize::lemma_pad4(unpadded);
    crate::serialize::lemma_u16_round_trip(len);
    crate::serialize::lemma_u16_round_trip(typ);
    assert(stream.subrange(4, align4(len as int)) =~= padded_payload(payload));
}

/// Encoding an attribute and decoding the stream of that one attribute gives
/// the tag and the length back, and the payload followed by its padding. The
/// encoded stream is as long as the padded attribute. A payload whose length
/// is a multiple of four comes back as it was; any other comes back with one
/// to three zero bytes behind it, and the value of the attribute, which
/// leaves them out, is the payload again.
pub proof fn lemma_attr_round_trip(typ: u16, payload: Seq<u8>)
    requires
        payload.len() <= 65531,
    ensures
        attr_wire(typ, payload).len() == align4(4 + payload.len() as int),
        decode_attrs::<Attr>(attr_wire(typ, payload)) == Ok::<Seq<RawAttr>, Error>(
            seq![raw_attr(typ, payload)],
        ),
        raw_attr(typ, payload).header.typ == typ,
        raw_attr(typ, payload).header.len == 4 + payload.len(),
        raw_attr(typ, payload).value() == payload,
        payload.len() % 4 == 0 ==> raw_attr(typ, payload).payload == payload,
{
    lemma_single_attr(typ, payload);
    lemma_padded_payload(payload);
}

/// The stream of one encoded attribute decodes to that attribute.
proof fn lemma_single_attr(typ: u16, payload: Seq<u8>)
    requires
        payload.len() <= 65531,
    ensures
        attr_wire(typ, payload).len() == align4(4 + payload.len() as int),
        decode_attrs::<Attr>(attr_wire(typ, payload)) == Ok::<Seq<RawAttr>, Error>(
            seq![raw_attr(typ, payload)],
        ),
{
    let wire = attr_wire(typ, payload);
    let used = align4(4 + payload.len() as int);
    lemma_first_attr_of_wire(typ, payload, Seq::empty());
    assert(decode_attrs::<Attr>(wire.skip(used)) == Ok::<Seq<RawAttr>, Error>(Seq::empty()));
    assert(seq![raw_attr(typ, payload)] + Seq::<RawAttr>::empty() =~= seq![
        raw_attr(typ, payload),
    ]);
}

/// The padded payload starts with the payload, and is the payload where its
/// length is a multiple of four.
proof fn lemma_padded_payload(payload: Seq<u8>)
    ensures
        padded_payload(payload).take(payload.len() as int) == payload,
        payload.len() % 4 == 0 ==> padded_payload(payload) == payload,
{
}

/// The stream of the attributes written one after the other from the tags and
/// payloads of `items`.
pub open spec fn attrs_wire(items: Seq<(u16, Seq<u8>)>) -> Seq<u8>
    decreases items.len(),
{
    if items.len() == 0 {
        Seq::empty()
    } else {
        attr_wire(items[0].0, items[0].1) + attrs_wire(items.skip(1))
    }
}

/// Decoding the concatenation of any number of encoded attributes gives
/// exactly those attributes, in their order.
pub proof fn lemma_attrs_round_trip(items: Seq<(u16, Seq<u8>)>)
    requires
        forall|i: int| 0 <= i < items.len() ==> (#[trigger] items[i]).1.len() <= 65531,
    ensures
        decode_attrs::<Attr>(attrs_wire(items)) == Ok::<Seq<RawAttr>, Error>(
            Seq::new(items.len(), |i: int| raw_attr(items[i].0, items[i].1)),
        ),
    decreases items.len(),
{
    let models = Seq::new(items.len(), |i: int| raw_attr(items[i].0, items[i].1));
    if items.len() == 0 {
        assert(models =~= Seq::empty());
    } else {
        let rest = items.skip(1);
        lemma_attrs_round_trip(rest);
        lemma_first_attr_of_wire(items[0].0, items[0].1, attrs_wire(rest));
        let rest_models = Seq::new(rest.len(), |i: int| raw_attr(rest[i].0, rest[i].1));
        assert(seq![raw_attr(items[0].0, items[0].1)] + rest_models =~= models);
    }
}

/// A reader of the attributes of a stream that it owns, one at a time.
#[derive(Debug)]
pub struct AttrSliceReader<P: DeserializeTyped> {
    bytes: OwnedSliceReader,
    markers: PhantomData<P>,
}

impl<P: DeserializeTyped> AttrSliceReader<P> {
    /// The bytes of the stream that were not read yet.
    pub closed spec fn rest(&self) -> Seq<u8> {
        self.bytes.rest()
    }

    /// A reader at the start of the stream `bytes`.
    pub fn new(bytes: Vec<u8>) -> (reader: Self)
        ensures
            reader.rest() == bytes@,
    {
        let reader = Self { bytes: OwnedSliceReader::new(bytes), markers: PhantomData };
        reader
    }

    /// Reads the next attribute, or nothing at the end of the stream. After
    /// an attribute whose payload cannot be decoded the reader stands behind
    /// it.
    pub fn try_next(&mut self) -> (r: Result<Option<P>>)
        ensures
            old(self).rest().len() == 0 ==> r == Ok::<Option<P>, Error>(None) && final(self).rest()
                == old(self).rest(),
            old(self).rest().len() > 0 ==> match first_attr::<P>(old(self).rest()) {
                Ok((model, used)) => r is Ok && r.unwrap() is Some && r.unwrap().unwrap()@ == model
                    && final(self).rest() == old(self).rest().skip(used),
                Err(e) => r == Err::<Option<P>, Error>(e),
            },
            ({
                let header = AttrHeader::decoded(old(self).rest());
                header is Ok && header->Ok_0.footprint() <= old(self).rest().len()
                    ==> final(self).rest() == old(self).rest().skip(header->Ok_0.footprint())
            }),
    {
        if self.bytes.is_empty() {
            return Ok(None);
        }
        let ghost before = self.bytes.rest();
        let mut reader = SliceReader::new(self.bytes.remaining());
        assert(reader.rest() =~= before);
        let attr = read_attribute::<P>(&mut reader);
        let used: usize = self.bytes.remaining().len() - reader.remaining().len();
        let _ = self.bytes.take(used);
        match attr {
            Ok(attr) => Ok(Some(attr)),
            Err(e) => Err(e),
        }
    }

    /// Reads the attributes that are left, to the end of the stream.
    pub fn read_all(&mut self) -> (r: Result<Vec<P>>)
        ensures
            match decode_attrs::<P>(old(self).rest()) {
                Ok(models) => r is Ok && r.unwrap()@.map_values(|p: P| p@) == models
                    && final(self).rest().len() == 0,
                Err(e) => r == Err::<Vec<P>, Error>(e),
            },
    {
        let mut attributes: Vec<P> = Vec::new();
        let ghost start = self.rest();
        let ghost mut done: Seq<P::V> = Seq::empty();
        loop
            invariant
                start == old(self).rest(),
                attributes@.map_values(|p: P| p@) == done,
                decode_attrs::<P>(start) == prepend(done, decode_attrs::<P>(self.rest())),
            ensures
                self.rest().len() == 0,
                attributes@.map_values(|p: P| p@) == done,
                decode_attrs::<P>(start) == prepend(done, decode_attrs::<P>(self.rest())),
            decreases self.rest().len(),
        {
            let ghost before = self.rest();
            proof {
                lemma_first_attr_used::<P>(before);
            }
            match self.try_next()? {
                None => {
                    break ;
                },
                Some(attr) => {
                    proof {
                        let rest = decode_attrs::<P>(self.rest());
                        assert(prepend(done.push(attr@), rest) == prepend(
                            done,
                            decode_attrs::<P>(before),
                        )) by {
                            if rest is Ok {
                                assert(done.push(attr@) + rest->Ok_0 =~= done + (seq![attr@]
                                    + rest->Ok_0));
                            }
                        }
                        done = done.push(attr@);
                    }
                    attributes.push(attr);
                },
            }
        }
        Ok(attributes)
    }
}

} // verus!
