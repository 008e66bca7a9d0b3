//! The request and reply engine. A dialogue numbers the requests that it
//! sends and follows a reply of many parts to the message that ends it. It
//! does not touch the socket: it says what to write and what to read, and is
//! told what was read.

use vstd::prelude::*;
use crate::error::{Error, Result};
use crate::message::{
    lemma_header_of_prefix, lemma_header_round_trip, MessageType, NetlinkHeader, NetlinkMessage,
};
use crate::serialize::{Deserialize, Serialize};

verus! {

/// The model of a dialogue: what it remembers between two calls.
pub struct DialogueState {
    /// The number that the next request carries.
    pub sequence: u32,
    /// The sender that every request names.
    pub process_id: u32,
    /// Whether a reply, or a further part of one, is still to be read.
    pub has_remaining_reads: bool,
}

impl DialogueState {
    /// The state of a dialogue that has sent nothing.
    pub open spec fn fresh(process_id: u32) -> DialogueState {
        DialogueState { sequence: 0, process_id, has_remaining_reads: true }
    }

    /// The header that leads a request with the given type, flags and payload.
    pub open spec fn header_of(
        self,
        typ: u16,
        flags: u16,
        payload: Seq<u8>,
    ) -> NetlinkHeader {
        NetlinkHeader {
            len: (16 + payload.len()) as u32,
            typ,
            flags,
            seq: self.sequence,
            pid: self.process_id,
        }
    }

    /// The bytes of a request on the wire: its header and its payload.
    pub open spec fn request(self, typ: u16, flags: u16, payload: Seq<u8>) -> Seq<u8> {
        self.header_of(typ, flags, payload).wire() + payload
    }

    /// The state after a request was written in full.
    pub open spec fn sent(self) -> DialogueState {
        DialogueState {
            sequence: (self.sequence + 1) as u32,
            process_id: self.process_id,
            has_remaining_reads: true,
        }
    }

    /// The state after the header of a reply was read. While no reply is
    /// awaited a header changes nothing.
    pub open spec fn received(self, header: NetlinkHeader) -> DialogueState {
        DialogueState {
            sequence: self.sequence,
            process_id: self.process_id,
            has_remaining_reads: self.has_remaining_reads && header.typ
                != MessageType::Done.number(),
        }
    }

    /// What is to be read after the header of a reply was read.
    pub open spec fn step_after(self, header: NetlinkHeader) -> Step {
        if !self.has_remaining_reads || header.typ == MessageType::Done.number() {
            Step::Finished
        } else {
            Step::ReadPayload { header, len: (header.len - 16) as u32 }
        }
    }

    /// The state after `count` requests were written, one after the other.
    pub open spec fn after_sends(self, count: nat) -> DialogueState
        decreases count,
    {
        if count == 0 {
            self
        } else {
            self.after_sends((count - 1) as nat).sent()
        }
    }
}

/// What a dialogue asks of the one who holds the socket.
#[derive(Clone, Copy, Debug, PartialEq, Eq, Structural)]
pub enum Step {
    /// Nothing is to be read: the reply is over, or no request is under way.
    Finished,
    /// Read exactly the 16 bytes of a header, and hand them to
    /// [`Dialogue::header_read`].
    ReadHeader,
    /// Read exactly `len` bytes of payload, and hand them with the header to
    /// [`Envelope::new`].
    ReadPayload { header: NetlinkHeader, len: u32 },
}

/// The state of one exchange of requests and replies with the kernel.
#[derive(Debug)]
pub struct Dialogue {
    seq: u32,
    pid: u32,
    has_remaining_reads: bool,
}

impl View for Dialogue {
    type V = DialogueState;

    closed spec fn view(&self) -> DialogueState {
        DialogueState {
            sequence: self.seq,
            process_id: self.pid,
            has_remaining_reads: self.has_remaining_reads,
        }
    }
}

impl Dialogue {
    /// A dialogue that has sent nothing, for the sender `process_id`.
    pub fn new(process_id: u32) -> (dialogue: Dialogue)
        ensures
            dialogue@ == DialogueState::fresh(process_id),
    {
        Dialogue { seq: 0, pid: process_id, has_remaining_reads: true }
    }

    /// The number that the next request carries.
    pub fn sequence(&self) -> (seq: u32)
        ensures
            seq == self@.sequence,
    {
        self.seq
    }

    /// The sender that every request names.
    pub fn process_id(&self) -> (pid: u32)
        ensures
            pid == self@.process_id,
    {
        self.pid
    }

    /// Whether a reply, or a further part of one, is still to be read.
    pub fn has_remaining_reads(&self) -> (b: bool)
        ensures
            b == self@.has_remaining_reads,
    {
        self.has_remaining_reads
    }

    /// The bytes to write for the request `msg`: the header, with the length,
    /// the sequence number and the sender filled in, and the payload as it is.
    /// A payload too long for the 32 bits of the length cannot be sent.
    pub fn send(&self, msg: &NetlinkMessage) -> (r: Result<Vec<u8>>)
        ensures
            16 + msg.payload@.len() <= u32::MAX ==> r is Ok && r.unwrap()@ == self@.request(
                msg.header.typ,
                msg.header.flags,
                msg.payload@,
            ),
            16 + msg.payload@.len() > u32::MAX ==> r == Err::<Vec<u8>, Error>(
                Error::ErrValueConversion,
            ),
    {
        if msg.payload.len() > (u32::MAX - 16) as usize {
            return Err(Error::ErrValueConversion);
        }
        let header = NetlinkHeader {
            len: 16 + msg.payload.len() as u32,
            typ: msg.header.typ,
            flags: msg.header.flags,
            seq: self.seq,
            pid: self.pid,
        };
        let mut bytes = header.serialize();
        bytes.extend_from_slice(msg.payload.as_slice());
        Ok(bytes)
    }

    /// Tells the dialogue that the bytes of a request were written in full:
    /// the next request carries the next number, and a reply is awaited.
    pub fn sent(&mut self)
        requires
            old(self)@.sequence < u32::MAX,
        ensures
            final(self)@ == old(self)@.sent(),
            final(self)@.sequence == old(self)@.sequence + 1,
    {
        self.seq = self.seq + 1;
        self.has_remaining_reads = true;
    }

    /// What is to be read next: a header while a reply is awaited, else
    /// nothing.
    pub fn next_step(&self) -> (step: Step)
        ensures
            step == if self@.has_remaining_reads {
                Step::ReadHeader
            } else {
                Step::Finished
            },
    {
        if self.has_remaining_reads {
            Step::ReadHeader
        } else {
            Step::Finished
        }
    }

    /// Takes the bytes of a header that were read. The message that ends a
    /// reply of many parts has no payload and ends the reading; after any
    /// other header its payload is to be read, with or without the flag of a
    /// reply of many parts. While no reply is awaited the bytes are not
    /// looked at.
    pub fn header_read(&mut self, bytes: &[u8]) -> (r: Result<Step>)
        ensures
            !old(self)@.has_remaining_reads ==> final(self)@ == old(self)@ && r == Ok::<
                Step,
                Error,
            >(Step::Finished),
            old(self)@.has_remaining_reads ==> match NetlinkHeader::decoded(bytes@) {
                Ok(header) => final(self)@ == old(self)@.received(header) && r == Ok::<
                    Step,
                    Error,
                >(old(self)@.step_after(header)),
                Err(e) => final(self)@ == old(self)@ && r == Err::<Step, Error>(e),
            },
    {
        if !self.has_remaining_reads {
            return Ok(Step::Finished);
        }
        let header = NetlinkHeader::deserialize(bytes)?;
        if header.has_type(MessageType::Done) {
            self.has_remaining_reads = false;
            return Ok(Step::Finished);
        }
        Ok(Step::ReadPayload { header, len: header.payload_len() })
    }
}

/// The requests of one dialogue are numbered from zero: the one that follows
/// `count` sent requests carries the number `count` in its header, and the
/// sender that the dialogue was made for.
pub proof fn lemma_sequence_numbers(
    process_id: u32,
    count: nat,
    typ: u16,
    flags: u16,
    payload: Seq<u8>,
)
    requires
        count <= u32::MAX,
        16 + payload.len() <= u32::MAX,
    ensures
        DialogueState::fresh(process_id).after_sends(count).sequence == count,
        DialogueState::fresh(process_id).after_sends(count).process_id == process_id,
        NetlinkHeader::decoded(
            DialogueState::fresh(process_id).after_sends(count).request(typ, flags, payload),
        ) == Ok::<NetlinkHeader, Error>(
            NetlinkHeader {
                len: (16 + payload.len()) as u32,
                typ,
                flags,
                seq: count as u32,
                pid: process_id,
            },
        ),
    decreases count,
{
    let fresh = DialogueState::fresh(process_id);
    if count > 0 {
        lemma_sequence_numbers(process_id, (count - 1) as nat, typ, flags, payload);
    }
    let state = fresh.after_sends(count);
    let header = state.header_of(typ, flags, payload);
    lemma_header_round_trip(header);
    let wire = header.wire() + payload;
    lemma_header_of_prefix(wire);
}

/// Once the message that ends a reply was read, nothing more is to be read,
/// whatever header is handed over, until a request is sent; after that a
/// reply is awaited again.
pub proof fn lemma_done_halts(state: DialogueState, done: NetlinkHeader, later: NetlinkHeader)
    requires
        done.typ == MessageType::Done.number(),
    ensures
        !state.received(done).has_remaining_reads,
        state.received(done).step_after(later) == Step::Finished,
        state.received(done).received(later) == state.received(done),
        state.received(done).sent().has_remaining_reads,
        state.received(done).sent().sequence == (state.sequence + 1) as u32,
{
}

} // verus!
