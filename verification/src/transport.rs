//! What the one who holds the socket has to decide between two calls of the
//! kernel: how far a message was written, and when a burst of the kernel was
//! read to its end.

use vstd::prelude::*;
use vstd::slice::slice_subrange;
use crate::error::{Error, Result};

verus! {

/// The size of the buffer that one read of a drain fills.
pub const DRAIN_CHUNK: usize = 2048;

/// A message on its way out: the socket may take it in several writes.
#[derive(Debug)]
pub struct Outgoing {
    bytes: Vec<u8>,
    sent: usize,
}

impl Outgoing {
    #[verifier::type_invariant]
    spec fn inv(self) -> bool {
        self.sent <= self.bytes@.len()
    }

    /// The bytes of the message.
    pub closed spec fn bytes(&self) -> Seq<u8> {
        self.bytes@
    }

    /// The number of bytes that were written.
    pub closed spec fn sent(&self) -> nat {
        self.sent as nat
    }

    /// A message of which nothing was written yet.
    pub fn new(bytes: Vec<u8>) -> (outgoing: Self)
        ensures
            outgoing.bytes() == bytes@,
            outgoing.sent() == 0,
    {
        Self { bytes, sent: 0 }
    }

    /// The bytes that are still to be written.
    pub fn pending(&self) -> (pending: &[u8])
        ensures
            self.sent() <= self.bytes().len(),
            pending@ == self.bytes().skip(self.sent() as int),
    {
        proof {
            use_type_invariant(self);
        }
        slice_subrange(self.bytes.as_slice(), self.sent, self.bytes.len())
    }

    /// Whether the whole message was written.
    pub fn is_done(&self) -> (done: bool)
        ensures
            self.sent() <= self.bytes().len(),
            done == (self.sent() == self.bytes().len()),
    {
        proof {
            use_type_invariant(self);
        }
        self.sent == self.bytes.len()
    }

    /// Takes note that the socket took `count` of the pending bytes. A count
    /// beyond what was pending is no count of this message.
    pub fn wrote(&mut self, count: usize) -> (r: Result<()>)
        ensures
            final(self).bytes() == old(self).bytes(),
            old(self).sent() <= old(self).bytes().len(),
            old(self).sent() + count <= old(self).bytes().len() ==> r is Ok && final(self).sent()
                == old(self).sent() + count,
            old(self).sent() + count > old(self).bytes().len() ==> r == Err::<(), Error>(
                Error::ErrValueConversion,
            ) && final(self).sent() == old(self).sent(),
    {
        proof {
            use_type_invariant(&*self);
        }
        if count > self.bytes.len() - self.sent {
            return Err(Error::ErrValueConversion);
        }
        self.sent += count;
        Ok(())
    }
}

/// How one read of a non-blocking socket ended.
#[derive(Debug, PartialEq, Eq)]
pub enum ReadEvent {
    /// The bytes that were read.
    Data(Vec<u8>),
    /// Nothing is there to read for now.
    WouldBlock,
    /// The read failed with this error number.
    Failed(i32),
}

/// The bytes of one burst of the kernel, read until the socket would block:
/// that is the one sign that the kernel has delivered what it had.
#[derive(Debug)]
pub struct Drain {
    bytes: Vec<u8>,
}

impl View for Drain {
    type V = Seq<u8>;

    /// The bytes that were read so far.
    closed spec fn view(&self) -> Seq<u8> {
        self.bytes@
    }
}

impl Drain {
    /// A drain that has read nothing.
    pub fn new() -> (drain: Self)
        ensures
            drain@ == Seq::<u8>::empty(),
    {
        Self { bytes: Vec::new() }
    }

    /// Takes the end of one read, and says whether to read on: bytes are
    /// kept and the reading goes on, a socket that would block ends the
    /// burst, and any other failure is handed up.
    pub fn read(&mut self, event: ReadEvent) -> (r: Result<bool>)
        ensures
            match event {
                ReadEvent::Data(chunk) => final(self)@ == old(self)@ + chunk@ && r == Ok::<
                    bool,
                    Error,
                >(true),
                ReadEvent::WouldBlock => final(self)@ == old(self)@ && r == Ok::<bool, Error>(
                    false,
                ),
                ReadEvent::Failed(errno) => final(self)@ == old(self)@ && r == Err::<
                    bool,
                    Error,
                >(Error::ErrRecvSocket(errno)),
            },
    {
        match event {
            ReadEvent::Data(chunk) => {
                let mut chunk = chunk;
                self.bytes.append(&mut chunk);
                Ok(true)
            },
            ReadEvent::WouldBlock => Ok(false),
            ReadEvent::Failed(errno) => Err(Error::ErrRecvSocket(errno)),
        }
    }

    /// The bytes of the burst.
    pub fn finish(self) -> (bytes: Vec<u8>)
        ensures
            bytes@ == self@,
    {
        self.bytes
    }
}

} // verus!
