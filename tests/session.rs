use cerberus_tcp::client::{decode_response, request_frame, ResponseKind};
use cerberus_tcp::host::HostSession;
use cerberus_tcp::net::{CerberusHeader, CommandType, IoError, NetError};

fn header_of(frame: &[u8]) -> [u8; 3] {
    [frame[0], frame[1], frame[2]]
}

#[test]
fn idle_session_is_disconnected() {
    let mut s = HostSession::new();
    let h = CerberusHeader { command: CommandType::DeviceId };
    assert_eq!(s.header(), Err(NetError::Disconnected));
    assert_eq!(s.payload(), Err(NetError::Disconnected));
    assert_eq!(s.reply(h), Err(NetError::Disconnected));
    assert_eq!(s.sink(&[1]), Err(NetError::Disconnected));
    assert_eq!(s.finish(), Err(NetError::Disconnected));
    assert_eq!(s.remaining_data(), 0);
    assert_eq!(s.begin_read(0), Err(IoError::Internal));
}

#[test]
fn sink_and_finish_before_reply_are_out_of_order() {
    let mut s = HostSession::new();
    assert!(s.receive(Some([0x01, 0x00, 0x00])).is_ok());
    assert_eq!(s.sink(&[1]), Err(NetError::OutOfOrder));
    assert_eq!(s.finish(), Err(NetError::OutOfOrder));
    assert_eq!(s.payload(), Ok(()));
    assert_eq!(s.sink(&[1]), Err(NetError::OutOfOrder));
    assert_eq!(s.finish(), Err(NetError::OutOfOrder));
}

#[test]
fn request_operations_after_reply_are_out_of_order() {
    let mut s = HostSession::new();
    assert!(s.receive(Some([0x01, 0x02, 0x00])).is_ok());
    let h = CerberusHeader { command: CommandType::DeviceCapabilities };
    assert_eq!(s.reply(h), Ok(()));
    assert_eq!(s.header(), Err(NetError::OutOfOrder));
    assert_eq!(s.payload(), Err(NetError::OutOfOrder));
    assert_eq!(s.reply(h), Err(NetError::OutOfOrder));
    assert_eq!(s.begin_read(1), Err(IoError::Internal));
}

#[test]
fn receive_rejects_bad_header_and_failed_accept() {
    let mut s = HostSession::new();
    assert_eq!(s.receive(Some([0x00, 0x00, 0x00])), Err(NetError::BadHeader));
    assert_eq!(s.header(), Err(NetError::Disconnected));
    assert_eq!(s.receive(None), Err(NetError::Io(IoError::Internal)));
    assert_eq!(s.header(), Err(NetError::Disconnected));
}

#[test]
fn receive_drops_previous_exchange() {
    let mut s = HostSession::new();
    assert!(s.receive(Some([0x01, 0x00, 0x00])).is_ok());
    assert_eq!(s.reply(CerberusHeader { command: CommandType::Error }), Ok(()));
    let h = s.receive(Some([0x03, 0x01, 0x00])).unwrap();
    assert_eq!(h, CerberusHeader { command: CommandType::DeviceId });
    assert_eq!(s.header(), Ok(h));
    assert_eq!(s.remaining_data(), 1);
}

#[test]
fn payload_reads_stay_within_declared_length() {
    let mut s = HostSession::new();
    assert!(s.receive(Some([0x04, 0x03, 0x00])).is_ok());
    assert_eq!(s.begin_read(1), Err(IoError::Internal));
    assert_eq!(s.payload(), Ok(()));
    assert_eq!(s.payload(), Ok(()));
    assert_eq!(s.begin_read(4), Err(IoError::BufferExhausted));
    assert_eq!(s.remaining_data(), 3);
    assert_eq!(s.begin_read(2), Ok(()));
    assert_eq!(s.end_read(2, Ok(())), Ok(()));
    assert_eq!(s.remaining_data(), 1);
    assert_eq!(s.begin_read(2), Err(IoError::BufferExhausted));
    assert_eq!(s.end_read(1, Err(IoError::Internal)), Err(IoError::Internal));
    assert_eq!(s.remaining_data(), 1);
}

#[test]
fn end_to_end_success_reply() {
    let request = request_frame(CommandType::FirmwareVersion, &[]).unwrap();
    assert_eq!(request, vec![0x01, 0x00, 0x00]);

    let mut s = HostSession::new();
    let h = s.receive(Some(header_of(&request))).unwrap();
    assert_eq!(h, CerberusHeader { command: CommandType::FirmwareVersion });
    assert_eq!(s.header(), Ok(h));
    assert_eq!(s.payload(), Ok(()));
    assert_eq!(s.remaining_data(), 0);
    assert_eq!(s.reply(CerberusHeader { command: CommandType::DeviceCapabilities }), Ok(()));
    assert_eq!(s.sink(&[0xAA]), Ok(()));
    assert_eq!(s.sink(&[0xBB]), Ok(()));
    let reply = s.finish().unwrap();
    assert_eq!(reply, vec![0x02, 0x02, 0x00, 0xAA, 0xBB]);
    assert_eq!(s.header(), Err(NetError::Disconnected));

    let (kind, len) = decode_response(header_of(&reply), CommandType::DeviceCapabilities).unwrap();
    assert_eq!(kind, ResponseKind::Success);
    assert_eq!(len, 2);
    assert_eq!(&reply[3..3 + len], &[0xAA, 0xBB]);
}

#[test]
fn end_to_end_protocol_error_reply() {
    let request = request_frame(CommandType::FirmwareVersion, &[]).unwrap();
    let mut s = HostSession::new();
    assert!(s.receive(Some(header_of(&request))).is_ok());
    assert_eq!(s.reply(CerberusHeader { command: CommandType::Error }), Ok(()));
    assert_eq!(s.sink(&[0x05]), Ok(()));
    let reply = s.finish().unwrap();
    assert_eq!(reply, vec![0x7f, 0x01, 0x00, 0x05]);

    let (kind, len) = decode_response(header_of(&reply), CommandType::FirmwareVersion).unwrap();
    assert_eq!(kind, ResponseKind::ProtocolError);
    assert_eq!(len, 1);
    assert_eq!(&reply[3..3 + len], &[0x05]);
}

#[test]
fn unexpected_reply_command_is_bad_header() {
    assert_eq!(
        decode_response([0x03, 0x00, 0x00], CommandType::FirmwareVersion),
        Err(NetError::BadHeader)
    );
    assert_eq!(
        decode_response([0x00, 0x00, 0x00], CommandType::FirmwareVersion),
        Err(NetError::BadHeader)
    );
}

#[test]
fn request_frame_carries_payload() {
    assert_eq!(
        request_frame(CommandType::Challenge, &[9, 8, 7]),
        Ok(vec![0x83, 0x03, 0x00, 9, 8, 7])
    );
    assert_eq!(
        request_frame(CommandType::Challenge, &vec![0; 65536]),
        Err(NetError::Io(IoError::BufferExhausted))
    );
}
