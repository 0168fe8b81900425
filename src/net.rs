//! The wire header of Cerberus over TCP and its codec.
//!
//! On the wire a header is three bytes: the command type, then the payload
//! length as a little-endian `u16`. The payload follows.
use vstd::prelude::*;

verus! {

/// The length, in bytes, of an encoded header.
pub const HEADER_LEN: usize = 3;

/// The largest payload length that the header can carry.
pub const MAX_PAYLOAD_LEN: usize = 65535;

/// An error of the byte stream under a connection.
#[derive(Clone, Copy, PartialEq, Eq, Debug, Structural)]
pub enum IoError {
    /// A read asked for more bytes than the payload has left, or a write
    /// could not be completed.
    BufferExhausted,
    /// The underlying transport failed.
    Internal,
}

/// An error of the transport binding.
#[derive(Clone, Copy, PartialEq, Eq, Debug, Structural)]
pub enum NetError {
    /// The byte stream failed.
    Io(IoError),
    /// A header named no known command type.
    BadHeader,
    /// An operation was called out of the request/response order.
    OutOfOrder,
    /// An operation needed a connection and there was none.
    Disconnected,
}

/// The command types of the protocol, each sent as one byte.
#[derive(Clone, Copy, PartialEq, Eq, Hash, Debug, Structural)]
pub enum CommandType {
    /// The payload describes a protocol-level error.
    Error,
    /// Firmware version query.
    FirmwareVersion,
    /// Device capabilities exchange.
    DeviceCapabilities,
    /// Device identifier query.
    DeviceId,
    /// Device information query.
    DeviceInfo,
    /// Certificate signing request export.
    ExportCsr,
    /// Certificate import.
    ImportCert,
    /// Certificate provisioning state query.
    GetCertState,
    /// Host reset state query.
    GetHostState,
    /// Certificate chain digests query.
    GetDigests,
    /// Certificate query.
    GetCert,
    /// Attestation challenge.
    Challenge,
    /// Session key exchange.
    KeyExchange,
    /// Reset counter query.
    ResetCounter,
    /// Device uptime query.
    DeviceUptime,
    /// Request counter query.
    RequestCounter,
}

/// The command type that `b` stands for on the wire, if any.
pub open spec fn command_of(b: u8) -> Option<CommandType> {
    if b == 0x7f {
        Some(CommandType::Error)
    } else if b == 0x01 {
        Some(CommandType::FirmwareVersion)
    } else if b == 0x02 {
        Some(CommandType::DeviceCapabilities)
    } else if b == 0x03 {
        Some(CommandType::DeviceId)
    } else if b == 0x04 {
        Some(CommandType::DeviceInfo)
    } else if b == 0x20 {
        Some(CommandType::ExportCsr)
    } else if b == 0x21 {
        Some(CommandType::ImportCert)
    } else if b == 0x22 {
        Some(CommandType::GetCertState)
    } else if b == 0x40 {
        Some(CommandType::GetHostState)
    } else if b == 0x81 {
        Some(CommandType::GetDigests)
    } else if b == 0x82 {
        Some(CommandType::GetCert)
    } else if b == 0x83 {
        Some(CommandType::Challenge)
    } else if b == 0x84 {
        Some(CommandType::KeyExchange)
    } else if b == 0x87 {
        Some(CommandType::ResetCounter)
    } else if b == 0xa0 {
        Some(CommandType::DeviceUptime)
    } else if b == 0xa1 {
        Some(CommandType::RequestCounter)
    } else {
        None
    }
}

impl CommandType {
    /// The byte that stands for this command type on the wire.
    pub open spec fn wire_byte(self) -> u8 {
        match self {
            CommandType::Error => 0x7f,
            CommandType::FirmwareVersion => 0x01,
            CommandType::DeviceCapabilities => 0x02,
            CommandType::DeviceId => 0x03,
            CommandType::DeviceInfo => 0x04,
            CommandType::ExportCsr => 0x20,
            CommandType::ImportCert => 0x21,
            CommandType::GetCertState => 0x22,
            CommandType::GetHostState => 0x40,
            CommandType::GetDigests => 0x81,
            CommandType::GetCert => 0x82,
            CommandType::Challenge => 0x83,
            CommandType::KeyExchange => 0x84,
            CommandType::ResetCounter => 0x87,
            CommandType::DeviceUptime => 0xa0,
            CommandType::RequestCounter => 0xa1,
        }
    }

    /// Returns the byte that stands for this command type on the wire.
    pub fn to_wire_value(self) -> (r: u8)
        ensures
            r == self.wire_byte(),
    {
        match self {
            CommandType::Error => 0x7f,
            CommandType::FirmwareVersion => 0x01,
            CommandType::DeviceCapabilities => 0x02,
            CommandType::DeviceId => 0x03,
            CommandType::DeviceInfo => 0x04,
            CommandType::ExportCsr => 0x20,
            CommandType::ImportCert => 0x21,
            CommandType::GetCertState => 0x22,
            CommandType::GetHostState => 0x40,
            CommandType::GetDigests => 0x81,
            CommandType::GetCert => 0x82,
            CommandType::Challenge => 0x83,
            CommandType::KeyExchange => 0x84,
            CommandType::ResetCounter => 0x87,
            CommandType::DeviceUptime => 0xa0,
            CommandType::RequestCounter => 0xa1,
        }
    }

    /// Returns the command type that `b` stands for, if any.
    pub fn from_wire_value(b: u8) -> (r: Option<CommandType>)
        ensures
            r == command_of(b),
    {
        match b {
            0x7f => Some(CommandType::Error),
            0x01 => Some(CommandType::FirmwareVersion),
            0x02 => Some(CommandType::DeviceCapabilities),
            0x03 => Some(CommandType::DeviceId),
            0x04 => Some(CommandType::DeviceInfo),
            0x20 => Some(CommandType::ExportCsr),
            0x21 => Some(CommandType::ImportCert),
            0x22 => Some(CommandType::GetCertState),
            0x40 => Some(CommandType::GetHostState),
            0x81 => Some(CommandType::GetDigests),
            0x82 => Some(CommandType::GetCert),
            0x83 => Some(CommandType::Challenge),
            0x84 => Some(CommandType::KeyExchange),
            0x87 => Some(CommandType::ResetCounter),
            0xa0 => Some(CommandType::DeviceUptime),
            0xa1 => Some(CommandType::RequestCounter),
            _ => None,
        }
    }
}

/// The abstract header of a message: what kind of command follows.
#[derive(Clone, Copy, PartialEq, Eq, Debug, Structural)]
pub struct CerberusHeader {
    pub command: CommandType,
}

/// The three header bytes for `header` and a payload of `len` bytes.
pub open spec fn header_bytes(header: CerberusHeader, len: nat) -> Seq<u8> {
    seq![header.command.wire_byte(), (len % 256) as u8, (len / 256) as u8]
}

/// What three header bytes decode to: the header and the payload length, or
/// `BadHeader` when the first byte names no command type.
pub open spec fn parse_header(bytes: Seq<u8>) -> Result<(CerberusHeader, nat), NetError> {
    match command_of(bytes[0]) {
        Some(command) => Ok((CerberusHeader { command }, (bytes[1] + 256 * bytes[2]) as nat)),
        None => Err(NetError::BadHeader),
    }
}

/// Every command type is named by exactly one byte, and that byte decodes
/// back to it.
pub proof fn lemma_command_byte_bijective(c: CommandType, b: u8)
    ensures
        command_of(c.wire_byte()) == Some(c),
        command_of(b) == Some(c) <==> b == c.wire_byte(),
{
}

/// Decoding the encoding of a header and a payload length gives back both.
pub proof fn lemma_header_round_trip(header: CerberusHeader, len: nat)
    requires
        len <= MAX_PAYLOAD_LEN,
    ensures
        parse_header(header_bytes(header, len)) == Ok::<(CerberusHeader, nat), NetError>(
            (header, len),
        ),
{
    lemma_command_byte_bijective(header.command, header.command.wire_byte());
    let b = header_bytes(header, len);
    assert(b[1] + 256 * b[2] == len);
}

/// A first byte that names no command type fails with `BadHeader`, whatever
/// the length bytes hold.
pub proof fn lemma_unknown_command_rejected(bytes: Seq<u8>)
    requires
        bytes.len() == HEADER_LEN,
        command_of(bytes[0]) is None,
    ensures
        parse_header(bytes) == Err::<(CerberusHeader, nat), NetError>(NetError::BadHeader),
{
}

/// Parses a header: a command type byte, then a little-endian payload
/// length.
pub fn header_from_wire(bytes: [u8; 3]) -> (r: Result<(CerberusHeader, usize), NetError>)
    ensures
        match parse_header(bytes@) {
            Ok((h, len)) => r == Ok::<(CerberusHeader, usize), NetError>((h, len as usize)),
            Err(e) => r == Err::<(CerberusHeader, usize), NetError>(e),
        },
{
    let cmd_byte = bytes[0];
    let len_lo = bytes[1];
    let len_hi = bytes[2];
    match CommandType::from_wire_value(cmd_byte) {
        Some(command) => {
            let len: usize = len_lo as usize + 256 * len_hi as usize;
            Ok((CerberusHeader { command }, len))
        },
        None => Err(NetError::BadHeader),
    }
}

/// Encodes a header for a payload of `len` bytes.
pub fn header_to_wire(header: CerberusHeader, len: u16) -> (r: [u8; 3])
    ensures
        r@ == header_bytes(header, len as nat),
{
    let b: [u8; 3] = [header.command.to_wire_value(), (len % 256) as u8, (len / 256) as u8];
    assert(b@ =~= header_bytes(header, len as nat));
    b
}

} // verus!
