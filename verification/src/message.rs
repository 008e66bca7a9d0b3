//! The netlink envelope: the 16-byte header that leads every message, the
//! control message types, the flags, and the request that a caller builds.

use vstd::prelude::*;
use vstd::std_specs::convert::{FromSpecImpl, IntoSpec};
use crate::deserialize::{deserialize_i32, deserialize_u16, deserialize_u32, le_i32, le_u16, le_u32};
use crate::error::{Error, Malformed, Result, Unencodable};
use crate::reader::SliceReader;
use crate::serialize::{
    lemma_u16_round_trip, lemma_u32_round_trip, pad4, push_u16, push_u32, serialize_aligned,
    u16_bytes, u32_bytes, Deserialize, Serialize,
};

verus! {

/// The number of bytes of the envelope header.
pub const HEADER_LEN: usize = 16;

/// Must be set on every request.
pub const REQUEST: u16 = 0x1;

/// The message is one part of a reply that a message of type
/// [`MessageType::Done`] ends.
pub const MULTI: u16 = 0x2;

/// Acknowledgement of success.
pub const ACK: u16 = 0x4;

/// Dump requests: return the whole table, not one entry.
pub const ROOT: u16 = 0x100;

/// Dump requests: return every entry that matches the message's content.
pub const MATCH: u16 = 0x200;

/// Dump requests: return an atomic snapshot of the table.
pub const ATOMIC: u16 = 0x400;

/// Dump requests: return every entry, `ROOT` and `MATCH` together.
pub const DUMP: u16 = 0x300;

/// Modifying requests: replace the object if it exists.
pub const REPLACE: u16 = 0x100;

/// Modifying requests: fail if the object exists.
pub const EXCL: u16 = 0x200;

/// Modifying requests: create the object if it does not exist.
pub const CREATE: u16 = 0x400;

/// Modifying requests: add to the end of the object list.
pub const APPEND: u16 = 0x800;

/// The control message types that every netlink family shares.
#[derive(Clone, Copy, Debug, PartialEq, Eq, Structural)]
pub enum MessageType {
    /// No operation: the message is to be discarded.
    Noop,
    /// An error report, or an acknowledgement.
    Error,
    /// The end of a multi-part reply.
    Done,
    /// Data was lost.
    Overrun,
}

impl MessageType {
    /// The number that stands for the type on the wire.
    pub open spec fn number(self) -> u16 {
        match self {
            MessageType::Noop => 1,
            MessageType::Error => 2,
            MessageType::Done => 3,
            MessageType::Overrun => 4,
        }
    }
}

impl From<MessageType> for u16 {
    /// The number that stands for the type on the wire.
    fn from(value: MessageType) -> (raw: u16) {
        match value {
            MessageType::Noop => 1,
            MessageType::Error => 2,
            MessageType::Done => 3,
            MessageType::Overrun => 4,
        }
    }
}

impl FromSpecImpl<MessageType> for u16 {
    open spec fn obeys_from_spec() -> bool {
        true
    }

    open spec fn from_spec(value: MessageType) -> u16 {
        value.number()
    }
}

/// The flags of a message, by name. Those of dump requests and those of
/// modifying requests share their bits: which is meant depends on the request.
#[derive(Clone, Copy, Debug, PartialEq, Eq, Structural)]
pub enum Flag {
    Request,
    Multi,
    Ack,
    Root,
    Match,
    Atomic,
    Dump,
    Replace,
    Excl,
    Create,
    Append,
}

/// The kind of request that gives the bits from 0x100 on their meaning.
#[derive(Clone, Copy, Debug, PartialEq, Eq, Structural)]
pub enum FlagContext {
    /// A request that lists entries.
    Dump,
    /// A request that creates or changes an entry.
    Modify,
}

impl Flag {
    /// The kind of request that the flag belongs to, if it belongs to one
    /// kind only.
    pub open spec fn spec_context(self) -> Option<FlagContext> {
        match self {
            Flag::Request | Flag::Multi | Flag::Ack => None,
            Flag::Root | Flag::Match | Flag::Atomic | Flag::Dump => Some(FlagContext::Dump),
            Flag::Replace | Flag::Excl | Flag::Create | Flag::Append => Some(FlagContext::Modify),
        }
    }

    /// The kind of request that the flag belongs to, if it belongs to one
    /// kind only.
    pub fn context(self) -> (context: Option<FlagContext>)
        ensures
            context == self.spec_context(),
    {
        match self {
            Flag::Request | Flag::Multi | Flag::Ack => None,
            Flag::Root | Flag::Match | Flag::Atomic | Flag::Dump => Some(FlagContext::Dump),
            Flag::Replace | Flag::Excl | Flag::Create | Flag::Append => Some(FlagContext::Modify),
        }
    }

    /// The bits that the flag sets.
    pub open spec fn bits(self) -> u16 {
        match self {
            Flag::Request => 0x1,
            Flag::Multi => 0x2,
            Flag::Ack => 0x4,
            Flag::Root => 0x100,
            Flag::Match => 0x200,
            Flag::Atomic => 0x400,
            Flag::Dump => 0x300,
            Flag::Replace => 0x100,
            Flag::Excl => 0x200,
            Flag::Create => 0x400,
            Flag::Append => 0x800,
        }
    }
}

impl From<Flag> for u16 {
    /// The bits that the flag sets.
    fn from(flag: Flag) -> (raw: u16) {
        match flag {
            Flag::Request => 0x1,
            Flag::Multi => 0x2,
            Flag::Ack => 0x4,
            Flag::Root => 0x100,
            Flag::Match => 0x200,
            Flag::Atomic => 0x400,
            Flag::Dump => 0x300,
            Flag::Replace => 0x100,
            Flag::Excl => 0x200,
            Flag::Create => 0x400,
            Flag::Append => 0x800,
        }
    }
}

impl core::ops::BitOr for Flag {
    type Output = u16;

    /// The bits of both flags.
    fn bitor(self, rhs: Flag) -> (bits: u16) {
        let lhs: u16 = self.into();
        let rhs: u16 = rhs.into();
        lhs | rhs
    }
}

impl vstd::std_specs::ops::BitOrSpecImpl for Flag {
    open spec fn obeys_bitor_spec() -> bool {
        true
    }

    open spec fn bitor_req(self, rhs: Flag) -> bool {
        true
    }

    open spec fn bitor_spec(self, rhs: Flag) -> u16 {
        self.bits() | rhs.bits()
    }
}

impl FromSpecImpl<Flag> for u16 {
    open spec fn obeys_from_spec() -> bool {
        true
    }

    open spec fn from_spec(flag: Flag) -> u16 {
        flag.bits()
    }
}

/// The header of a message as it stands on the wire.
#[derive(Clone, Copy, Debug, Default, PartialEq, Eq, Structural)]
pub struct NetlinkHeader {
    /// The length of the whole message, this header included.
    pub len: u32,
    pub typ: u16,
    pub flags: u16,
    pub seq: u32,
    pub pid: u32,
}

/// What a caller says of a header. The length, the sequence number and the
/// sender are filled in when the message is sent.
#[derive(Clone, Copy, Debug, Default, PartialEq, Eq, Structural)]
pub struct NetlinkHeaderDescriptor {
    pub typ: u16,
    pub flags: u16,
}

impl NetlinkHeader {
    /// The header that the first 16 bytes of `bytes` hold.
    pub open spec fn parse(bytes: Seq<u8>) -> NetlinkHeader {
        NetlinkHeader {
            len: le_u32(bytes) as u32,
            typ: le_u16(bytes.skip(4)) as u16,
            flags: le_u16(bytes.skip(6)) as u16,
            seq: le_u32(bytes.skip(8)) as u32,
            pid: le_u32(bytes.skip(12)) as u32,
        }
    }

    /// A header is well formed when the length it declares covers the header
    /// itself.
    pub open spec fn wf(self) -> bool {
        self.len >= 16
    }

    /// What the caller said of the header.
    pub fn into_descriptor(self) -> (d: NetlinkHeaderDescriptor)
        ensures
            d == (NetlinkHeaderDescriptor { typ: self.typ, flags: self.flags }),
    {
        NetlinkHeaderDescriptor { typ: self.typ, flags: self.flags }
    }

    /// Whether the message is of the given control type.
    pub fn has_type(&self, typ: MessageType) -> (b: bool)
        ensures
            b == (self.typ == typ.number()),
    {
        let raw: u16 = typ.into();
        self.typ == raw
    }

    /// Whether every bit of `flags` is set in the header's flags.
    pub fn has_flags(&self, flags: u16) -> (b: bool)
        ensures
            b == (self.flags & flags == flags),
    {
        self.flags & flags == flags
    }

    /// The number of bytes that follow the header in the message: none where
    /// the header declares less than itself.
    pub fn payload_len(&self) -> (n: u32)
        ensures
            self.wf() ==> n == self.len - 16,
            !self.wf() ==> n == 0,
    {
        if self.len >= 16 {
            self.len - 16
        } else {
            0
        }
    }
}

impl Serialize for NetlinkHeader {
    open spec fn wire(&self) -> Seq<u8> {
        u32_bytes(self.len) + u16_bytes(self.typ) + u16_bytes(self.flags) + u32_bytes(self.seq)
            + u32_bytes(self.pid)
    }

    fn serialize(&self) -> (bytes: Vec<u8>) {
        let mut bytes: Vec<u8> = Vec::with_capacity(16);
        push_u32(&mut bytes, self.len);
        push_u16(&mut bytes, self.typ);
        push_u16(&mut bytes, self.flags);
        push_u32(&mut bytes, self.seq);
        push_u32(&mut bytes, self.pid);
        bytes
    }
}

impl Deserialize for NetlinkHeader {
    open spec fn wire_size() -> nat {
        16
    }

    open spec fn decoded(bytes: Seq<u8>) -> core::result::Result<NetlinkHeader, Error> {
        if bytes.len() < 16 {
            Err(Error::ErrUnexpectedEof)
        } else if le_u32(bytes) < 16 {
            Err(Error::ErrDeserialize(Malformed::MessageLength(le_u32(bytes) as u32)))
        } else {
            Ok(NetlinkHeader::parse(bytes))
        }
    }

    fn size() -> (n: usize) {
        16
    }

    fn deserialize(bytes: &[u8]) -> (r: Result<NetlinkHeader>) {
        if bytes.len() < 16 {
            return Err(Error::ErrUnexpectedEof);
        }
        let len = deserialize_u32(bytes)?;
        if len < 16 {
            return Err(Error::ErrDeserialize(Malformed::MessageLength(len)));
        }
        let typ = deserialize_u16(vstd::slice::slice_subrange(bytes, 4, 6))?;
        let flags = deserialize_u16(vstd::slice::slice_subrange(bytes, 6, 8))?;
        let seq = deserialize_u32(vstd::slice::slice_subrange(bytes, 8, 12))?;
        let pid = deserialize_u32(vstd::slice::slice_subrange(bytes, 12, 16))?;
        Ok(NetlinkHeader { len, typ, flags, seq, pid })
    }
}

/// The header's wire form has 16 bytes, and reading it back gives the header
/// again, for every header whose length covers the header itself.
pub proof fn lemma_header_round_trip(header: NetlinkHeader)
    requires
        header.len >= 16,
    ensures
        header.wire().len() == 16,
        NetlinkHeader::decoded(header.wire()) == Ok::<NetlinkHeader, Error>(header),
{
    lemma_u32_round_trip(header.len);
    lemma_u16_round_trip(header.typ);
    lemma_u16_round_trip(header.flags);
    lemma_u32_round_trip(header.seq);
    lemma_u32_round_trip(header.pid);
}

/// A request as its caller describes it: the type, the flags and the payload.
#[derive(Clone, Debug, Default, PartialEq, Eq)]
pub struct NetlinkMessage {
    pub header: NetlinkHeaderDescriptor,
    pub payload: Vec<u8>,
}

impl NetlinkMessage {
    pub fn new(header: NetlinkHeaderDescriptor, payload: Vec<u8>) -> (msg: Self)
        ensures
            msg.header == header,
            msg.payload == payload,
    {
        Self { header, payload }
    }

    /// A builder of a message with type 0, no flags and no payload.
    pub fn builder() -> (b: NetlinkMessageBuilder)
        ensures
            b.typ == 0,
            b.flags == 0,
            b.payload@ == Seq::<u8>::empty(),
            b.context is None,
    {
        NetlinkMessageBuilder::new()
    }
}

/// Builds a [`NetlinkMessage`] whose payload is aligned piece by piece.
#[derive(Clone, Debug, Default, PartialEq, Eq)]
pub struct NetlinkMessageBuilder {
    pub typ: u16,
    pub flags: u16,
    pub payload: Vec<u8>,
    /// The kind of request that the flags set by name belong to.
    pub context: Option<FlagContext>,
}

impl NetlinkMessageBuilder {
    pub fn new() -> (b: Self)
        ensures
            b.typ == 0,
            b.flags == 0,
            b.payload@ == Seq::<u8>::empty(),
            b.context is None,
    {
        Self { typ: 0, flags: 0, payload: Vec::new(), context: None }
    }

    /// Sets the type of the message.
    pub fn typ<I: Into<u16>>(self, typ: I) -> (b: Self)
        ensures
            <I as IntoSpec<u16>>::obeys_into_spec() ==> b.typ == typ.into_spec(),
            b.flags == self.flags,
            b.payload == self.payload,
            b.context == self.context,
    {
        Self { typ: typ.into(), flags: self.flags, payload: self.payload, context: self.context }
    }

    /// Sets the flags of the message to the given bits, whatever they mean.
    pub fn flags(self, flags: u16) -> (b: Self)
        ensures
            b.typ == self.typ,
            b.flags == flags,
            b.payload == self.payload,
            b.context == self.context,
    {
        Self { typ: self.typ, flags, payload: self.payload, context: self.context }
    }

    /// Whether `flag` can be set by name: not if it belongs to one kind of
    /// request and a flag of the other kind was set by name before.
    pub open spec fn admits(self, flag: Flag) -> bool {
        self.context is None || flag.spec_context() is None || self.context
            == flag.spec_context()
    }

    /// Sets the bits of a flag on top of the flags that are set. The bits
    /// from 0x100 on mean one thing in a dump request and another in a
    /// modifying request, so flags of both kinds are refused in one message.
    pub fn flag(self, flag: Flag) -> (r: Result<Self>)
        ensures
            self.admits(flag) ==> r is Ok && r.unwrap().typ == self.typ && r.unwrap().flags
                == self.flags | flag.bits() && r.unwrap().payload == self.payload
                && r.unwrap().context == if flag.spec_context() is Some {
                flag.spec_context()
            } else {
                self.context
            },
            !self.admits(flag) ==> r == Err::<Self, Error>(
                Error::ErrSerialize(Unencodable::MixedFlags),
            ),
    {
        let context = match (self.context, flag.context()) {
            (Some(FlagContext::Dump), Some(FlagContext::Modify)) => {
                return Err(Error::ErrSerialize(Unencodable::MixedFlags));
            },
            (Some(FlagContext::Modify), Some(FlagContext::Dump)) => {
                return Err(Error::ErrSerialize(Unencodable::MixedFlags));
            },
            (_, Some(context)) => Some(context),
            (context, None) => context,
        };
        let bits: u16 = flag.into();
        Ok(Self { typ: self.typ, flags: self.flags | bits, payload: self.payload, context })
    }

    /// Appends the wire form of `payload`, padded to a multiple of four, to
    /// the payload of the message.
    pub fn append<T: Serialize>(self, payload: T) -> (r: Result<Self>)
        ensures
            payload.wire().len() + 3 <= usize::MAX ==> r is Ok && r.unwrap().typ == self.typ
                && r.unwrap().flags == self.flags && r.unwrap().context == self.context
                && r.unwrap().payload@ == self.payload@ + pad4(payload.wire()),
            payload.wire().len() + 3 > usize::MAX ==> r == Err::<Self, Error>(
                Error::ErrValueConversion,
            ),
    {
        let mut bytes = serialize_aligned(payload)?;
        let mut b = self;
        b.payload.append(&mut bytes);
        Ok(b)
    }

    /// Moves the bytes of `slice`, which the caller has aligned, to the end of
    /// the payload of the message.
    pub fn append_slice(self, slice: &mut Vec<u8>) -> (r: Result<Self>)
        ensures
            r is Ok,
            r.unwrap().typ == self.typ,
            r.unwrap().flags == self.flags,
            r.unwrap().context == self.context,
            r.unwrap().payload@ == self.payload@ + old(slice)@,
            final(slice)@ == Seq::<u8>::empty(),
    {
        let mut b = self;
        b.payload.append(slice);
        Ok(b)
    }

    /// The message with the type and the flags as they were set, and with
    /// `payload`, which the caller has aligned, behind what was appended.
    pub fn build_with(self, payload: Vec<u8>) -> (msg: NetlinkMessage)
        ensures
            msg.header == (NetlinkHeaderDescriptor { typ: self.typ, flags: self.flags }),
            msg.payload@ == self.payload@ + payload@,
    {
        let mut b = self;
        let mut payload = payload;
        b.payload.append(&mut payload);
        b.build()
    }

    /// The message with the type, the flags and the payload as they were set.
    pub fn build(self) -> (msg: NetlinkMessage)
        ensures
            msg.header == (NetlinkHeaderDescriptor { typ: self.typ, flags: self.flags }),
            msg.payload == self.payload,
    {
        NetlinkMessage {
            header: NetlinkHeaderDescriptor { typ: self.typ, flags: self.flags },
            payload: self.payload,
        }
    }
}

/// A message as it was received: the header and the bytes that follow it.
#[derive(Clone, Debug, PartialEq, Eq)]
pub struct Envelope {
    pub header: NetlinkHeader,
    pub payload: Vec<u8>,
}

impl Envelope {
    /// The length that the header declares is the length of the header and
    /// the payload together.
    pub open spec fn wf(&self) -> bool {
        self.header.len == 16 + self.payload@.len()
    }

    /// Puts a header and the payload that was read after it together. The
    /// payload has to be as long as the header says.
    pub fn new(header: NetlinkHeader, payload: Vec<u8>) -> (r: Result<Envelope>)
        ensures
            header.len == 16 + payload@.len() ==> r == Ok::<Envelope, Error>(
                Envelope { header, payload },
            ) && r.unwrap().wf(),
            header.len > 16 + payload@.len() ==> r == Err::<Envelope, Error>(
                Error::ErrUnexpectedEof,
            ),
            header.len < 16 + payload@.len() ==> r == Err::<Envelope, Error>(
                Error::ErrDeserialize(Malformed::MessageLength(header.len)),
            ),
    {
        if header.len < 16 {
            return Err(Error::ErrDeserialize(Malformed::MessageLength(header.len)));
        }
        let expected: u32 = header.len - 16;
        if payload.len() < expected as usize {
            Err(Error::ErrUnexpectedEof)
        } else if payload.len() > expected as usize {
            Err(Error::ErrDeserialize(Malformed::MessageLength(header.len)))
        } else {
            Ok(Envelope { header, payload })
        }
    }

    /// The error number that an error report carries in front of the header
    /// it complains of: zero for an acknowledgement, negative for a failure.
    pub open spec fn spec_error_code(&self) -> Option<i32> {
        if self.header.typ == MessageType::Error.number() && self.payload@.len() >= 4 {
            Some(le_i32(self.payload@) as i32)
        } else {
            None
        }
    }

    /// The error number of an error report, and nothing for any other message.
    pub fn error_code(&self) -> (code: Option<i32>)
        ensures
            code == self.spec_error_code(),
    {
        if self.header.has_type(MessageType::Error) {
            match deserialize_i32(self.payload.as_slice()) {
                Ok(code) => Some(code),
                Err(_) => None,
            }
        } else {
            None
        }
    }
}

/// The model of an [`Envelope`].
pub struct EnvelopeModel {
    pub header: NetlinkHeader,
    pub payload: Seq<u8>,
}

impl View for Envelope {
    type V = EnvelopeModel;

    open spec fn view(&self) -> EnvelopeModel {
        EnvelopeModel { header: self.header, payload: self.payload@ }
    }
}

/// What follows the first 16 bytes has no part in what the header is.
pub proof fn lemma_header_of_prefix(bytes: Seq<u8>)
    requires
        bytes.len() >= 16,
    ensures
        NetlinkHeader::decoded(bytes.take(16)) == NetlinkHeader::decoded(bytes),
{
}

/// The messages of a reply that was received in full: every message up to
/// the one that ends the reply, which is not among them. Each message takes
/// as many bytes as its header declares. Bytes that end before that message
/// was met, or in the middle of a message, are a failure.
pub open spec fn decode_envelopes(bytes: Seq<u8>) -> core::result::Result<
    Seq<EnvelopeModel>,
    Error,
>
    decreases bytes.len(),
{
    match NetlinkHeader::decoded(bytes) {
        Err(e) => Err(e),
        Ok(header) => if header.typ == MessageType::Done.number() {
            Ok(Seq::empty())
        } else if bytes.len() < header.len {
            Err(Error::ErrUnexpectedEof)
        } else {
            match decode_envelopes(bytes.skip(header.len as int)) {
                Err(e) => Err(e),
                Ok(rest) => Ok(
                    seq![EnvelopeModel { header, payload: bytes.subrange(16, header.len as int) }]
                        + rest,
                ),
            }
        },
    }
}

/// The messages read so far, followed by what the rest of the bytes gives.
pub open spec fn followed_by(
    done: Seq<EnvelopeModel>,
    rest: core::result::Result<Seq<EnvelopeModel>, Error>,
) -> core::result::Result<Seq<EnvelopeModel>, Error> {
    match rest {
        Ok(more) => Ok(done + more),
        Err(e) => Err(e),
    }
}

/// Reads the messages of a reply that was received in full, up to the
/// message that ends it.
pub fn read_all_messages(bytes: &[u8]) -> (r: Result<Vec<Envelope>>)
    ensures
        match decode_envelopes(bytes@) {
            Ok(models) => r is Ok && r.unwrap()@.map_values(|e: Envelope| e@) == models
                && forall|i: int| 0 <= i < r.unwrap()@.len() ==> (#[trigger] r.unwrap()@[i]).wf(),
            Err(e) => r == Err::<Vec<Envelope>, Error>(e),
        },
{
    let mut messages: Vec<Envelope> = Vec::new();
    let mut reader = SliceReader::new(bytes);
    let ghost mut done: Seq<EnvelopeModel> = Seq::empty();
    assert(reader.rest() =~= bytes@);
    loop
        invariant_except_break
            decode_envelopes(bytes@) == followed_by(done, decode_envelopes(reader.rest())),
        invariant
            reader.bytes() == bytes@,
            messages@.map_values(|e: Envelope| e@) == done,
            forall|i: int| 0 <= i < messages@.len() ==> (#[trigger] messages@[i]).wf(),
        ensures
            messages@.map_values(|e: Envelope| e@) == done,
            forall|i: int| 0 <= i < messages@.len() ==> (#[trigger] messages@[i]).wf(),
            decode_envelopes(bytes@) == Ok::<Seq<EnvelopeModel>, Error>(done),
        decreases reader.rest().len(),
    {
        let ghost before = reader.rest();
        proof {
            if before.len() >= 16 {
                lemma_header_of_prefix(before);
            }
        }
        let header = reader.read::<NetlinkHeader>()?;
        if header.has_type(MessageType::Done) {
            break ;
        }
        let payload = reader.take((header.len - 16) as usize)?;
        let envelope = Envelope { header, payload: vstd::slice::slice_to_vec(payload) };
        proof {
            assert(payload@ =~= before.subrange(16, header.len as int));
            assert(reader.rest() =~= before.skip(header.len as int));
            let rest = decode_envelopes(reader.rest());
            assert(followed_by(done.push(envelope@), rest) == followed_by(
                done,
                decode_envelopes(before),
            )) by {
                if rest is Ok {
                    assert(done.push(envelope@) + rest->Ok_0 =~= done + (seq![envelope@]
                        + rest->Ok_0));
                }
            }
            assert(messages@.push(envelope).map_values(|e: Envelope| e@) =~= done.push(
                envelope@,
            ));
            done = done.push(envelope@);
        }
        messages.push(envelope);
    }
    Ok(messages)
}

} // verus!
