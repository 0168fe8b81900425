//! The server side of one connection: a session that accepts a request
//! header, lends out its payload, and builds the reply frame, in that order.
//!
//! The session decides; the caller owns the socket. It hands the session the
//! header bytes it read, asks it before each payload read, and sends the frame
//! that `finish` returns.
use vstd::prelude::*;
use crate::frame::{BoundedReader, Writer, frame_bytes, read_step};
use crate::net::{CerberusHeader, IoError, NetError, MAX_PAYLOAD_LEN, header_from_wire, parse_header};

verus! {

/// Where a session stands in its request/response exchange.
#[derive(Clone, Copy, PartialEq, Eq, Debug, Structural)]
pub enum Phase {
    /// No connection: waiting for the next `receive`.
    Idle,
    /// A request header was read.
    RequestHeaderRead,
    /// The request payload was opened for reading.
    RequestPayloadReadable,
    /// A reply was begun and is being written.
    ResponsePending,
}

/// The operations of a session that the exchange orders.
#[derive(Clone, Copy, PartialEq, Eq, Debug, Structural)]
pub enum Operation {
    /// Reading the request header.
    Header,
    /// Opening the request payload.
    Payload,
    /// Beginning the reply.
    Reply,
    /// Writing into the reply.
    Sink,
    /// Ending the exchange.
    Finish,
}

/// Whether `op` may run in `phase`: with no connection every operation fails
/// `Disconnected`; request operations after a reply was begun, and reply
/// operations before one was, fail `OutOfOrder`.
pub open spec fn admits(phase: Phase, op: Operation) -> Result<(), NetError> {
    match phase {
        Phase::Idle => Err(NetError::Disconnected),
        Phase::ResponsePending => match op {
            Operation::Sink | Operation::Finish => Ok(()),
            _ => Err(NetError::OutOfOrder),
        },
        _ => match op {
            Operation::Sink | Operation::Finish => Err(NetError::OutOfOrder),
            _ => Ok(()),
        },
    }
}

/// Reply operations before `reply`, and request operations after it, fail
/// `OutOfOrder`; every operation fails `Disconnected` when no connection was
/// accepted.
pub proof fn lemma_session_order(op: Operation)
    ensures
        admits(Phase::RequestHeaderRead, Operation::Sink) == Err::<(), NetError>(
            NetError::OutOfOrder,
        ),
        admits(Phase::RequestHeaderRead, Operation::Finish) == Err::<(), NetError>(
            NetError::OutOfOrder,
        ),
        admits(Phase::RequestPayloadReadable, Operation::Sink) == Err::<(), NetError>(
            NetError::OutOfOrder,
        ),
        admits(Phase::RequestPayloadReadable, Operation::Finish) == Err::<(), NetError>(
            NetError::OutOfOrder,
        ),
        admits(Phase::ResponsePending, Operation::Header) == Err::<(), NetError>(
            NetError::OutOfOrder,
        ),
        admits(Phase::ResponsePending, Operation::Payload) == Err::<(), NetError>(
            NetError::OutOfOrder,
        ),
        admits(Phase::Idle, op) == Err::<(), NetError>(NetError::Disconnected),
{
}

/// The state of one request/response exchange.
pub struct HostSession {
    request: Option<(CerberusHeader, BoundedReader)>,
    payload_open: bool,
    response: Option<Writer>,
}

impl HostSession {
    /// The phase of this session.
    pub closed spec fn phase(&self) -> Phase {
        match self.request {
            None => Phase::Idle,
            Some(_) => if self.response is Some {
                Phase::ResponsePending
            } else if self.payload_open {
                Phase::RequestPayloadReadable
            } else {
                Phase::RequestHeaderRead
            },
        }
    }

    /// The header of the request being served.
    pub closed spec fn request_header(&self) -> CerberusHeader {
        self.request.unwrap().0
    }

    /// The payload bytes of the request that are left to read.
    pub closed spec fn budget(&self) -> nat {
        self.request.unwrap().1.remaining as nat
    }

    /// The header of the reply being built.
    pub closed spec fn reply_header(&self) -> CerberusHeader {
        self.response.unwrap().header
    }

    /// The payload of the reply written so far.
    pub closed spec fn reply_payload(&self) -> Seq<u8> {
        self.response.unwrap().buf@
    }

    /// Creates a session with no connection.
    pub fn new() -> (r: Self)
        ensures
            r.phase() == Phase::Idle,
    {
        HostSession { request: None, payload_open: false, response: None }
    }

    /// Starts serving a new connection, dropping whatever the previous one
    /// left, from the request header read off it (`None` when accepting or
    /// reading failed).
    pub fn receive(&mut self, header: Option<[u8; 3]>) -> (r: Result<CerberusHeader, NetError>)
        ensures
            header is None ==> r == Err::<CerberusHeader, NetError>(NetError::Io(IoError::Internal))
                && final(self).phase() == Phase::Idle,
            header matches Some(b) ==> match parse_header(b@) {
                Ok((h, len)) => r == Ok::<CerberusHeader, NetError>(h) && final(self).phase()
                    == Phase::RequestHeaderRead && final(self).request_header() == h && final(self).budget() == len,
                Err(e) => r == Err::<CerberusHeader, NetError>(e) && final(self).phase()
                    == Phase::Idle,
            },
    {
        self.request = None;
        self.payload_open = false;
        self.response = None;
        match header {
            None => Err(NetError::Io(IoError::Internal)),
            Some(bytes) => {
                let (h, len) = header_from_wire(bytes)?;
                self.request = Some((h, BoundedReader::new(len)));
                Ok(h)
            },
        }
    }

    /// Returns the request header.
    pub fn header(&self) -> (r: Result<CerberusHeader, NetError>)
        ensures
            admits(self.phase(), Operation::Header) matches Err(e) ==> r == Err::<
                CerberusHeader,
                NetError,
            >(e),
            admits(self.phase(), Operation::Header) is Ok ==> r == Ok::<CerberusHeader, NetError>(
                self.request_header(),
            ),
    {
        match &self.request {
            None => Err(NetError::Disconnected),
            Some((h, _)) => if self.response.is_some() {
                Err(NetError::OutOfOrder)
            } else {
                Ok(*h)
            },
        }
    }

    /// Opens the request payload for reading.
    pub fn payload(&mut self) -> (r: Result<(), NetError>)
        ensures
            admits(old(self).phase(), Operation::Payload) matches Err(e) ==> r == Err::<
                (),
                NetError,
            >(e) && *final(self) == *old(self),
            admits(old(self).phase(), Operation::Payload) is Ok ==> r is Ok && final(self).phase()
                == Phase::RequestPayloadReadable && final(self).request_header() == old(self).request_header() && final(self).budget() == old(self).budget(),
    {
        if self.request.is_none() {
            return Err(NetError::Disconnected);
        }
        if self.response.is_some() {
            return Err(NetError::OutOfOrder);
        }
        self.payload_open = true;
        Ok(())
    }

    /// Begins a reply with the given header.
    pub fn reply(&mut self, header: CerberusHeader) -> (r: Result<(), NetError>)
        ensures
            admits(old(self).phase(), Operation::Reply) matches Err(e) ==> r == Err::<
                (),
                NetError,
            >(e) && *final(self) == *old(self),
            admits(old(self).phase(), Operation::Reply) is Ok ==> r is Ok && final(self).phase()
                == Phase::ResponsePending && final(self).reply_header() == header && final(self).reply_payload() == Seq::<u8>::empty(),
    {
        if self.request.is_none() {
            return Err(NetError::Disconnected);
        }
        if self.response.is_some() {
            return Err(NetError::OutOfOrder);
        }
        self.response = Some(Writer::new(header));
        Ok(())
    }

    /// Writes `bytes` into the reply's payload.
    pub fn sink(&mut self, bytes: &[u8]) -> (r: Result<(), NetError>)
        ensures
            admits(old(self).phase(), Operation::Sink) matches Err(e) ==> r == Err::<
                (),
                NetError,
            >(e) && *final(self) == *old(self),
            admits(old(self).phase(), Operation::Sink) is Ok ==> r is Ok && final(self).phase()
                == Phase::ResponsePending && final(self).reply_header() == old(self).reply_header()
                && final(self).reply_payload() == old(self).reply_payload() + bytes@,
    {
        if self.request.is_none() {
            return Err(NetError::Disconnected);
        }
        match &mut self.response {
            None => Err(NetError::OutOfOrder),
            Some(w) => {
                let _ = w.write_bytes(bytes);
                Ok(())
            },
        }
    }

    /// Ends the exchange: returns the reply frame to send and leaves the
    /// session idle, ready for the next `receive`.
    pub fn finish(&mut self) -> (r: Result<Vec<u8>, NetError>)
        ensures
            admits(old(self).phase(), Operation::Finish) matches Err(e) ==> r == Err::<
                Vec<u8>,
                NetError,
            >(e) && *final(self) == *old(self),
            admits(old(self).phase(), Operation::Finish) is Ok ==> final(self).phase()
                == Phase::Idle && (if old(self).reply_payload().len() <= MAX_PAYLOAD_LEN {
                r matches Ok(f) && f@ == frame_bytes(
                    old(self).reply_header(),
                    old(self).reply_payload(),
                )
            } else {
                r == Err::<Vec<u8>, NetError>(NetError::Io(IoError::BufferExhausted))
            }),
    {
        if self.request.is_none() {
            return Err(NetError::Disconnected);
        }
        if self.response.is_none() {
            return Err(NetError::OutOfOrder);
        }
        let w = self.response.take().unwrap();
        self.request = None;
        self.payload_open = false;
        w.finish()
    }

    /// Returns the number of payload bytes left to read, or 0 with no
    /// connection.
    pub fn remaining_data(&self) -> (r: usize)
        ensures
            self.phase() == Phase::Idle ==> r == 0,
            self.phase() != Phase::Idle ==> r == self.budget(),
    {
        match &self.request {
            None => 0,
            Some((_, reader)) => reader.remaining_data(),
        }
    }

    /// Decides whether a read of `n` payload bytes may go to the stream:
    /// only while the payload is open, and only within its budget.
    pub fn begin_read(&self, n: usize) -> (r: Result<(), IoError>)
        ensures
            self.phase() != Phase::RequestPayloadReadable ==> r == Err::<(), IoError>(
                IoError::Internal,
            ),
            self.phase() == Phase::RequestPayloadReadable ==> match read_step(
                self.budget(),
                n as nat,
            ) {
                Ok(_) => r is Ok,
                Err(e) => r == Err::<(), IoError>(e),
            },
    {
        if self.response.is_some() || !self.payload_open {
            return Err(IoError::Internal);
        }
        match &self.request {
            None => Err(IoError::Internal),
            Some((_, reader)) => reader.check_read(n),
        }
    }

    /// Records the outcome of a read of `n` payload bytes that `begin_read`
    /// allowed.
    pub fn end_read(&mut self, n: usize, read: Result<(), IoError>) -> (r: Result<(), IoError>)
        requires
            old(self).phase() == Phase::RequestPayloadReadable,
            n <= old(self).budget(),
        ensures
            final(self).phase() == Phase::RequestPayloadReadable,
            final(self).request_header() == old(self).request_header(),
            read is Ok ==> r is Ok && read_step(old(self).budget(), n as nat) == Ok::<
                nat,
                IoError,
            >(final(self).budget()),
            read is Err ==> r == Err::<(), IoError>(IoError::Internal) && *final(self) == *old(self),
    {
        match &mut self.request {
            None => Err(IoError::Internal),
            Some((_, reader)) => reader.complete_read(n, read),
        }
    }
}

} // verus!
