//! The client side of one exchange: frame a request, then tell from the
//! reply's header how its payload is to be read.
use vstd::prelude::*;
use crate::frame::{Writer, frame_bytes};
use crate::net::{CerberusHeader, CommandType, IoError, NetError, MAX_PAYLOAD_LEN, header_from_wire, parse_header};

verus! {

/// How the payload of a reply is to be decoded.
#[derive(Clone, Copy, PartialEq, Eq, Debug, Structural)]
pub enum ResponseKind {
    /// The payload is the expected response.
    Success,
    /// The payload describes a protocol-level error.
    ProtocolError,
}

/// How a reply with command type `got` is read by a client that expects
/// `expected`: as the response, as a protocol error, or not at all.
pub open spec fn response_kind(got: CommandType, expected: CommandType) -> Result<
    ResponseKind,
    NetError,
> {
    if got == expected {
        Ok(ResponseKind::Success)
    } else if got == CommandType::Error {
        Ok(ResponseKind::ProtocolError)
    } else {
        Err(NetError::BadHeader)
    }
}

/// Returns the frame that carries a request of the given command type with
/// the given payload.
pub fn request_frame(command: CommandType, payload: &[u8]) -> (r: Result<Vec<u8>, NetError>)
    ensures
        payload@.len() <= MAX_PAYLOAD_LEN ==> (r matches Ok(f) && f@ == frame_bytes(
            CerberusHeader { command },
            payload@,
        )),
        payload@.len() > MAX_PAYLOAD_LEN ==> r == Err::<Vec<u8>, NetError>(
            NetError::Io(IoError::BufferExhausted),
        ),
{
    let mut w = Writer::new(CerberusHeader { command });
    let _ = w.write_bytes(payload);
    w.finish()
}

/// Decodes the header of a reply for a client that expects a response of
/// command type `expected`: returns how to read the payload, and its length.
pub fn decode_response(bytes: [u8; 3], expected: CommandType) -> (r: Result<
    (ResponseKind, usize),
    NetError,
>)
    ensures
        match parse_header(bytes@) {
            Ok((h, len)) => match response_kind(h.command, expected) {
                Ok(k) => r == Ok::<(ResponseKind, usize), NetError>((k, len as usize)),
                Err(e) => r == Err::<(ResponseKind, usize), NetError>(e),
            },
            Err(e) => r == Err::<(ResponseKind, usize), NetError>(e),
        },
{
    let (header, len) = header_from_wire(bytes)?;
    if header.command == expected {
        Ok((ResponseKind::Success, len))
    } else if header.command == CommandType::Error {
        Ok((ResponseKind::ProtocolError, len))
    } else {
        Err(NetError::BadHeader)
    }
}

} // verus!
