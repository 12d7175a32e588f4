use udp_tunnel::BytePacketBuffer;
use udp_tunnel::Conn;
use udp_tunnel::EncryptMethod;
use udp_tunnel::PeerAddr;
use udp_tunnel::Server;
use udp_tunnel::TunnelError;

fn addr(ip: [u8; 4], port: u16) -> PeerAddr {
    PeerAddr { ip: ip.to_vec(), port }
}

#[test]
fn empty_port_range_is_rejected() {
    let r = Server::new(5000, 4999);
    assert!(matches!(r, Err(TunnelError::ValidationError)));
}

#[test]
fn assign_port_stays_in_range() {
    let s = Server::new(40100, 40110).unwrap();
    for _ in 0..50 {
        let p = s.assign_port().unwrap();
        assert!((40100..=40110).contains(&p));
    }
}

#[test]
fn allocated_ports_are_distinct_until_exhaustion() {
    let mut s = Server::new(41000, 41004).unwrap();
    let key = [0u8; 32];
    let mut ports = Vec::new();
    for _ in 0..5 {
        let p = s
            .allocate(addr([1, 2, 3, 4], 999), EncryptMethod::AES, &key, 1)
            .unwrap();
        assert!((41000..=41004).contains(&p));
        assert!(!ports.contains(&p));
        ports.push(p);
    }
    let exhausted = s.allocate(addr([1, 2, 3, 4], 999), EncryptMethod::AES, &key, 1);
    assert!(matches!(exhausted, Err(TunnelError::ResourceExhausted)));
}

#[test]
fn allocate_registers_connection_and_authenticator() {
    let mut s = Server::new(42000, 42100).unwrap();
    let key = [7u8; 32];
    let p = s
        .allocate(addr([10, 0, 0, 1], 5555), EncryptMethod::CHACHA, &key, 77)
        .unwrap();
    assert!(s.conns.contains_key(&p));
    assert!(s.auth.contains_key(&p));
}

#[test]
fn allocate_unsafe_needs_no_authenticator() {
    let mut s = Server::new(42200, 42300).unwrap();
    let p = s
        .allocate(addr([10, 0, 0, 2], 6666), EncryptMethod::UNSAFE, &[], 78)
        .unwrap();
    assert!(s.conns.contains_key(&p));
    assert!(!s.auth.contains_key(&p));
}

#[test]
fn allocate_with_short_key_fails_validation() {
    let mut s = Server::new(42400, 42500).unwrap();
    let r = s.allocate(addr([10, 0, 0, 3], 7777), EncryptMethod::CHACHA, &[1u8; 16], 79);
    assert!(matches!(r, Err(TunnelError::ValidationError)));
    assert!(s.conns.is_empty());
}

#[test]
fn successive_allocations_are_distinct() {
    let mut s = Server::new(47000, 47100).unwrap();
    let key = [1u8; 32];
    let pair = udp_tunnel::server::allocate_pair_distinct(
        &mut s,
        addr([1, 1, 1, 1], 1),
        addr([2, 2, 2, 2], 2),
        &key,
        1,
        2,
    )
    .unwrap();
    assert_ne!(pair.0, pair.1);
}

#[test]
fn connection_liveness_window() {
    let c = Conn::new_at(43000, EncryptMethod::AES, addr([1, 1, 1, 1], 1), 5, 1000);
    assert_eq!(c.ttl, 65);
    assert!(c.is_alive_at(1000));
    assert!(c.is_alive_at(1064));
    assert!(!c.is_alive_at(1065));
    assert!(!c.is_alive_at(2000));
}

#[test]
fn reset_lifetime_extends_liveness() {
    let mut c = Conn::new_at(43001, EncryptMethod::AES, addr([1, 1, 1, 1], 1), 5, 1000);
    c.reset_lifetime_at(1060);
    assert!(c.is_alive_at(1065));
    assert!(c.is_alive_at(1124));
    assert!(!c.is_alive_at(1125));
}

#[test]
fn fresh_connection_is_alive() {
    let c = Conn::new(43002, EncryptMethod::AES, addr([1, 1, 1, 1], 1), 5);
    assert!(c.is_alive());
}

#[test]
fn check_alive_removes_dead_connection_entries() {
    let mut s = Server::new(44000, 44100).unwrap();
    let key = [9u8; 32];
    let p = s
        .allocate(addr([9, 9, 9, 9], 1234), EncryptMethod::AES, &key, 11)
        .unwrap();
    // Far in the future every connection has outlived its TTL.
    s.check_alive_at(p, u64::MAX - 1).unwrap();
    assert!(!s.conns.contains_key(&p));
    assert!(!s.auth.contains_key(&p));
    let gone = s.check_alive_at(p, u64::MAX - 1);
    assert!(matches!(gone, Err(TunnelError::PreconditionError)));
}

#[test]
fn check_alive_keeps_live_connection() {
    let mut s = Server::new(44200, 44300).unwrap();
    let key = [9u8; 32];
    let p = s
        .allocate(addr([9, 9, 9, 9], 1234), EncryptMethod::AES, &key, 11)
        .unwrap();
    // At clock reading zero no connection has expired yet.
    s.check_alive_at(p, 0).unwrap();
    assert!(s.conns.contains_key(&p));
    assert!(s.auth.contains_key(&p));
    s.check_alive(p).unwrap();
    assert!(s.conns.contains_key(&p));
}

#[test]
fn check_alive_missing_id_is_precondition_error() {
    let mut s = Server::new(44400, 44500).unwrap();
    let r = s.check_alive(44400);
    assert!(matches!(r, Err(TunnelError::PreconditionError)));
}

#[test]
fn send_to_pads_short_datagram() {
    let mut s = Server::new(45000, 45100).unwrap();
    let p = s
        .allocate(addr([1, 2, 3, 4], 9000), EncryptMethod::UNSAFE, &[], 1)
        .unwrap();
    let payload = vec![0xABu8; 503];
    let (datagram, dest) = s.send_to(p, &payload).unwrap();
    assert_eq!(datagram.len(), 512);
    assert_eq!(&datagram[8..511], &payload[..]);
    assert_eq!(datagram[511], 0);
    assert_eq!(dest, addr([1, 2, 3, 4], 9000));
}

#[test]
fn send_to_exact_512_is_unpadded() {
    let mut s = Server::new(45200, 45300).unwrap();
    let p = s
        .allocate(addr([1, 2, 3, 4], 9000), EncryptMethod::UNSAFE, &[], 1)
        .unwrap();
    let payload = vec![0xCDu8; 504];
    let (datagram, _dest) = s.send_to(p, &payload).unwrap();
    assert_eq!(datagram.len(), 512);
    assert_eq!(&datagram[8..512], &payload[..]);
}

#[test]
fn send_to_oversize_fails() {
    let mut s = Server::new(45400, 45500).unwrap();
    let p = s
        .allocate(addr([1, 2, 3, 4], 9000), EncryptMethod::UNSAFE, &[], 1)
        .unwrap();
    let payload = vec![0xEFu8; 505];
    let r = s.send_to(p, &payload);
    assert!(matches!(r, Err(TunnelError::OversizeError)));
}

#[test]
fn send_to_missing_id_is_precondition_error() {
    let s = Server::new(45600, 45700).unwrap();
    let r = s.send_to(45600, b"hi");
    assert!(matches!(r, Err(TunnelError::PreconditionError)));
}

#[test]
fn end_to_end_ping_datagram() {
    let mut s = Server::new(46000, 46100).unwrap();
    let mut key = [0u8; 32];
    key[..16].copy_from_slice(&[0x42u8; 16]);
    let p = s
        .allocate(addr([1, 2, 3, 4], 9000), EncryptMethod::AES, &key, 100)
        .unwrap();
    let (datagram, dest) = s.send_to(p, b"ping").unwrap();
    assert_eq!(datagram.len(), 512);
    assert_eq!(dest, addr([1, 2, 3, 4], 9000));

    let mut buf = BytePacketBuffer::new();
    buf.write_and_fill(&datagram).unwrap();
    let h = buf.read_header().unwrap();
    assert_eq!(h.msg_type, 1);
    assert_eq!(h.auth_type, EncryptMethod::AES.to_num());
    assert_eq!(h.conn_id, p);
    assert_eq!(h.data_len, 4);
    let data = buf.read_data(4).unwrap();
    assert_eq!(data, b"ping".to_vec());
    assert!(datagram[12..].iter().all(|&b| b == 0));
    assert_eq!(datagram[12..].len(), 500);
}
