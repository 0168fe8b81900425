//! Framing: a writer that buffers a payload until its length is known, and
//! a reader that keeps payload parsing within the declared length.
use vstd::prelude::*;
use crate::net::{
    CerberusHeader, IoError, NetError, HEADER_LEN, MAX_PAYLOAD_LEN, header_bytes, header_to_wire,
    lemma_header_round_trip, parse_header,
};

verus! {

/// The bytes of a whole frame: the header for `header` and `payload`, then
/// `payload` itself.
pub open spec fn frame_bytes(header: CerberusHeader, payload: Seq<u8>) -> Seq<u8> {
    header_bytes(header, payload.len()) + payload
}

/// A frame splits back into its parts: its first three bytes decode to the
/// header and the payload's length, and the payload follows them.
pub proof fn lemma_frame_round_trip(header: CerberusHeader, payload: Seq<u8>)
    requires
        payload.len() <= MAX_PAYLOAD_LEN,
    ensures
        parse_header(frame_bytes(header, payload).take(HEADER_LEN as int)) == Ok::<
            (CerberusHeader, nat),
            NetError,
        >((header, payload.len())),
        frame_bytes(header, payload).skip(HEADER_LEN as int) == payload,
{
    let f = frame_bytes(header, payload);
    assert(f.take(HEADER_LEN as int) =~= header_bytes(header, payload.len()));
    assert(f.skip(HEADER_LEN as int) =~= payload);
    lemma_header_round_trip(header, payload.len());
}

/// A builder of one frame.
///
/// The header carries the payload's length, so the payload is buffered
/// whole before the header can be written.
pub struct Writer {
    pub header: CerberusHeader,
    pub buf: Vec<u8>,
}

impl Writer {
    /// Creates a new `Writer` for a frame with the given header.
    pub fn new(header: CerberusHeader) -> (r: Self)
        ensures
            r.header == header,
            r.buf@ == Seq::<u8>::empty(),
    {
        Writer { header, buf: Vec::new() }
    }

    /// Appends `bytes` to the payload.
    pub fn write_bytes(&mut self, bytes: &[u8]) -> (r: Result<(), IoError>)
        ensures
            r is Ok,
            final(self).header == old(self).header,
            final(self).buf@ == old(self).buf@ + bytes@,
    {
        let mut i: usize = 0;
        while i < bytes.len()
            invariant
                i <= bytes@.len(),
                self.header == old(self).header,
                self.buf@ == old(self).buf@ + bytes@.subrange(0, i as int),
            decreases bytes@.len() - i,
        {
            self.buf.push(bytes[i]);
            i = i + 1;
            assert(bytes@.subrange(0, i as int) =~= bytes@.subrange(0, i - 1 as int).push(
                bytes@[i - 1],
            ));
        }
        assert(bytes@.subrange(0, i as int) =~= bytes@);
        Ok(())
    }

    /// Consumes the writer and returns the whole frame to send.
    ///
    /// Fails with `BufferExhausted` when the payload is longer than the
    /// header's length field can say.
    pub fn finish(self) -> (r: Result<Vec<u8>, NetError>)
        ensures
            self.buf@.len() <= MAX_PAYLOAD_LEN ==> (r matches Ok(f) && f@ == frame_bytes(
                self.header,
                self.buf@,
            )),
            self.buf@.len() > MAX_PAYLOAD_LEN ==> r == Err::<Vec<u8>, NetError>(
                NetError::Io(IoError::BufferExhausted),
            ),
    {
        let n = self.buf.len();
        if n > MAX_PAYLOAD_LEN {
            return Err(NetError::Io(IoError::BufferExhausted));
        }
        let head = header_to_wire(self.header, n as u16);
        let mut out: Vec<u8> = Vec::new();
        out.push(head[0]);
        out.push(head[1]);
        out.push(head[2]);
        assert(out@ =~= head@);
        let mut i: usize = 0;
        while i < n
            invariant
                n == self.buf@.len(),
                i <= n,
                out@ == head@ + self.buf@.subrange(0, i as int),
            decreases n - i,
        {
            out.push(self.buf[i]);
            i = i + 1;
            assert(self.buf@.subrange(0, i as int) =~= self.buf@.subrange(0, i - 1 as int).push(
                self.buf@[i - 1],
            ));
        }
        assert(self.buf@.subrange(0, n as int) =~= self.buf@);
        Ok(out)
    }
}

/// What a read of `n` bytes does to a budget of `remaining` bytes: the new
/// budget, or `BufferExhausted` when `n` is over the budget.
pub open spec fn read_step(remaining: nat, n: nat) -> Result<nat, IoError> {
    if n > remaining {
        Err(IoError::BufferExhausted)
    } else {
        Ok((remaining - n) as nat)
    }
}

/// A forward-only, byte-budgeted view of a payload.
///
/// A read goes in two steps: `check_read` decides, before the stream is
/// touched, whether the read fits the budget; `complete_read` records what
/// the stream did.
#[derive(Clone, Copy, PartialEq, Eq, Debug, Structural)]
pub struct BoundedReader {
    pub remaining: usize,
}

/// A read within the budget succeeds and lowers it by exactly the bytes
/// read; a read over it fails with `BufferExhausted` and leaves the budget
/// as it was.
pub proof fn lemma_bounded_read(budget: nat, n: nat)
    ensures
        n > budget ==> read_step(budget, n) == Err::<nat, IoError>(IoError::BufferExhausted),
        n <= budget ==> read_step(budget, n) == Ok::<nat, IoError>((budget - n) as nat),
{
}

impl BoundedReader {
    /// Creates a reader over a payload of `len` bytes.
    pub fn new(len: usize) -> (r: Self)
        ensures
            r.remaining == len,
    {
        BoundedReader { remaining: len }
    }

    /// Returns the number of bytes left to read.
    pub fn remaining_data(&self) -> (r: usize)
        ensures
            r == self.remaining,
    {
        self.remaining
    }

    /// Decides whether a read of `n` bytes may go to the stream.
    pub fn check_read(&self, n: usize) -> (r: Result<(), IoError>)
        ensures
            r is Ok <==> read_step(self.remaining as nat, n as nat) is Ok,
            r is Err ==> r == Err::<(), IoError>(IoError::BufferExhausted),
    {
        if self.remaining < n {
            Err(IoError::BufferExhausted)
        } else {
            Ok(())
        }
    }

    /// Records the outcome of a read of `n` bytes that `check_read` allowed:
    /// on success the budget drops by `n`; a failed read leaves it as it
    /// was and is reported as `Internal`.
    pub fn complete_read(&mut self, n: usize, read: Result<(), IoError>) -> (r: Result<(), IoError>)
        requires
            n <= old(self).remaining,
        ensures
            read is Ok ==> r is Ok && read_step(old(self).remaining as nat, n as nat)
                == Ok::<nat, IoError>(final(self).remaining as nat),
            read is Err ==> r == Err::<(), IoError>(IoError::Internal) && *final(self) == *old(
                self,
            ),
    {
        match read {
            Ok(()) => {
                self.remaining = self.remaining - n;
                Ok(())
            },
            Err(_) => Err(IoError::Internal),
        }
    }
}

} // verus!
