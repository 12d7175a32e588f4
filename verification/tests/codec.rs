use udp_tunnel::BytePacketBuffer;
use udp_tunnel::Header;
use udp_tunnel::Message;
use udp_tunnel::TunnelError;

#[test]
fn header_to_bytes_exact_layout() {
    let h = Header::new(7, 3, 2, 1, 0x1234, 0x0205);
    let b = h.to_bytes().unwrap();
    assert_eq!(b, vec![7, 3, 2, 1, 0x12, 0x34, 0x02, 0x05]);
}

#[test]
fn header_round_trip_through_buffer() {
    let h = Header::new(9, 5, 1, 0, 65535, 504);
    let bytes = h.to_bytes().unwrap();
    let mut buf = BytePacketBuffer::new();
    buf.write_and_fill(&bytes).unwrap();
    let d = buf.read_header().unwrap();
    assert_eq!(d.packet_num, 9);
    assert_eq!(d.msg_type, 5);
    assert_eq!(d.auth_type, 1);
    assert_eq!(d.fragment, 0);
    assert_eq!(d.conn_id, 65535);
    assert_eq!(d.data_len, 504);
}

#[test]
fn header_round_trip_zero_values() {
    let h = Header::new(0, 0, 0, 0, 0, 0);
    let bytes = h.to_bytes().unwrap();
    let mut buf = BytePacketBuffer::new();
    buf.write_and_fill(&bytes).unwrap();
    let d = buf.read_header().unwrap();
    assert_eq!(d.conn_id, 0);
    assert_eq!(d.data_len, 0);
}

#[test]
fn read_header_fails_when_cursor_moved() {
    let mut buf = BytePacketBuffer::new();
    let first = buf.read_header();
    assert!(first.is_ok());
    let second = buf.read_header();
    assert!(matches!(second, Err(TunnelError::FormatError)));
}

#[test]
fn read_data_requires_header_first() {
    let mut buf = BytePacketBuffer::new();
    let r = buf.read_data(4);
    assert!(matches!(r, Err(TunnelError::FormatError)));
}

#[test]
fn read_data_after_header_returns_payload() {
    let mut msg = vec![0u8, 3, 0, 0, 0x20, 0x00, 0, 4];
    msg.extend_from_slice(b"ping");
    let mut buf = BytePacketBuffer::new();
    buf.write_and_fill(&msg).unwrap();
    let h = buf.read_header().unwrap();
    assert_eq!(h.data_len, 4);
    let data = buf.read_data(4).unwrap();
    assert_eq!(data, b"ping".to_vec());
    let again = buf.read_data(4);
    assert!(matches!(again, Err(TunnelError::FormatError)));
}

#[test]
fn read_data_too_long_fails() {
    let mut buf = BytePacketBuffer::new();
    buf.read_header().unwrap();
    let r = buf.read_data(505);
    assert!(matches!(r, Err(TunnelError::FormatError)));
}

#[test]
fn write_and_fill_pads_with_zeros() {
    let mut buf = BytePacketBuffer::new();
    buf.write_and_fill(&[9u8, 8, 7]).unwrap();
    assert_eq!(buf.buf.len(), 512);
    assert_eq!(&buf.buf[0..3], &[9, 8, 7]);
    assert!(buf.buf[3..].iter().all(|&b| b == 0));
}

#[test]
fn write_and_fill_oversize_fails() {
    let mut buf = BytePacketBuffer::new();
    let data = vec![1u8; 513];
    let r = buf.write_and_fill(&data);
    assert!(matches!(r, Err(TunnelError::OversizeError)));
}

#[test]
fn message_from_num_total_mapping() {
    assert_eq!(Message::from_num(1), Message::SERVERHELLO);
    assert_eq!(Message::from_num(2), Message::CLIENTHELLO);
    assert_eq!(Message::from_num(3), Message::DATA);
    assert_eq!(Message::from_num(4), Message::ERRCODE);
    assert_eq!(Message::from_num(5), Message::HEARTBEAT);
    assert_eq!(Message::from_num(0), Message::ERRCODE);
    assert_eq!(Message::from_num(77), Message::ERRCODE);
    assert_eq!(Message::from_num(255), Message::ERRCODE);
}
