use cerberus_tcp::frame::{BoundedReader, Writer};
use cerberus_tcp::net::{CerberusHeader, CommandType, IoError, NetError};

#[test]
fn writer_buffers_then_frames() {
    let mut w = Writer::new(CerberusHeader { command: CommandType::DeviceId });
    assert_eq!(w.write_bytes(&[1, 2]), Ok(()));
    assert_eq!(w.write_bytes(&[]), Ok(()));
    assert_eq!(w.write_bytes(&[3]), Ok(()));
    assert_eq!(w.finish(), Ok(vec![0x03, 3, 0, 1, 2, 3]));
}

#[test]
fn writer_empty_payload() {
    let w = Writer::new(CerberusHeader { command: CommandType::Error });
    assert_eq!(w.finish(), Ok(vec![0x7f, 0, 0]));
}

#[test]
fn writer_largest_payload() {
    let mut w = Writer::new(CerberusHeader { command: CommandType::GetCert });
    let payload = vec![0x5a; 65535];
    assert_eq!(w.write_bytes(&payload), Ok(()));
    let frame = w.finish().unwrap();
    assert_eq!(frame.len(), 65538);
    assert_eq!(&frame[..3], &[0x82, 0xff, 0xff]);
    assert!(frame[3..].iter().all(|&b| b == 0x5a));
}

#[test]
fn writer_payload_too_long() {
    let mut w = Writer::new(CerberusHeader { command: CommandType::GetCert });
    let payload = vec![0; 65536];
    assert_eq!(w.write_bytes(&payload), Ok(()));
    assert_eq!(w.finish(), Err(NetError::Io(IoError::BufferExhausted)));
}

#[test]
fn bounded_reader_over_budget_leaves_budget() {
    let r = BoundedReader::new(4);
    assert_eq!(r.check_read(5), Err(IoError::BufferExhausted));
    assert_eq!(r.remaining_data(), 4);
}

#[test]
fn bounded_reader_within_budget_consumes_exactly() {
    let mut r = BoundedReader::new(4);
    assert_eq!(r.check_read(3), Ok(()));
    assert_eq!(r.complete_read(3, Ok(())), Ok(()));
    assert_eq!(r.remaining_data(), 1);
    assert_eq!(r.check_read(2), Err(IoError::BufferExhausted));
    assert_eq!(r.check_read(1), Ok(()));
    assert_eq!(r.complete_read(1, Ok(())), Ok(()));
    assert_eq!(r.remaining_data(), 0);
    assert_eq!(r.check_read(0), Ok(()));
    assert_eq!(r.check_read(1), Err(IoError::BufferExhausted));
}

#[test]
fn bounded_reader_failed_read_is_internal() {
    let mut r = BoundedReader::new(4);
    assert_eq!(r.complete_read(2, Err(IoError::BufferExhausted)), Err(IoError::Internal));
    assert_eq!(r.remaining_data(), 4);
}
