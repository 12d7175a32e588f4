use udp_tunnel::Authenticator;
use udp_tunnel::EncryptMethod;
use udp_tunnel::TunnelError;

#[test]
fn method_codes_round_trip() {
    assert_eq!(EncryptMethod::from_num(0), EncryptMethod::UNSAFE);
    assert_eq!(EncryptMethod::from_num(1), EncryptMethod::AES);
    assert_eq!(EncryptMethod::from_num(2), EncryptMethod::CHACHA);
    assert_eq!(EncryptMethod::from_num(3), EncryptMethod::UNSAFE);
    assert_eq!(EncryptMethod::from_num(255), EncryptMethod::UNSAFE);
    assert_eq!(EncryptMethod::UNSAFE.to_num(), 0);
    assert_eq!(EncryptMethod::AES.to_num(), 1);
    assert_eq!(EncryptMethod::CHACHA.to_num(), 2);
}

#[test]
fn aes_encrypt_decrypt_round_trip() {
    let key = [0x11u8; 32];
    let a = Authenticator::new(42, &key, EncryptMethod::AES).unwrap();
    let plaintext = b"attack at dawn";
    let ct = a.encrypt(plaintext).unwrap();
    assert_eq!(ct.len(), plaintext.len() + 16);
    assert_ne!(&ct[..plaintext.len()], &plaintext[..]);
    let pt = a.decrypt(&ct).unwrap();
    assert_eq!(pt, plaintext.to_vec());
}

#[test]
fn chacha_encrypt_decrypt_round_trip() {
    let mut key = [0u8; 32];
    for (i, b) in key.iter_mut().enumerate() {
        *b = i as u8;
    }
    let a = Authenticator::new(7, &key, EncryptMethod::CHACHA).unwrap();
    let plaintext = b"hold the line";
    let ct = a.encrypt(plaintext).unwrap();
    assert_eq!(ct.len(), plaintext.len() + 16);
    let pt = a.decrypt(&ct).unwrap();
    assert_eq!(pt, plaintext.to_vec());
}

#[test]
fn empty_plaintext_round_trip() {
    let key = [0x42u8; 32];
    let a = Authenticator::new(1, &key, EncryptMethod::AES).unwrap();
    let ct = a.encrypt(b"").unwrap();
    assert_eq!(ct.len(), 16);
    let pt = a.decrypt(&ct).unwrap();
    assert!(pt.is_empty());
}

#[test]
fn tampered_ciphertext_fails_decryption() {
    let key = [0x33u8; 32];
    let a = Authenticator::new(9, &key, EncryptMethod::CHACHA).unwrap();
    let mut ct = a.encrypt(b"integrity matters").unwrap();
    ct[0] ^= 0x80;
    let r = a.decrypt(&ct);
    assert!(matches!(r, Err(TunnelError::CryptoError)));
}

#[test]
fn truncated_ciphertext_fails_decryption() {
    let key = [0x33u8; 32];
    let a = Authenticator::new(9, &key, EncryptMethod::AES).unwrap();
    let r = a.decrypt(b"short");
    assert!(matches!(r, Err(TunnelError::CryptoError)));
}

#[test]
fn unsafe_authenticator_always_fails() {
    let key = [0u8; 32];
    let r = Authenticator::new(5, &key, EncryptMethod::UNSAFE);
    assert!(matches!(r, Err(TunnelError::ValidationError)));
}

#[test]
fn chacha_short_key_fails() {
    let key = [0xAAu8; 16];
    let r = Authenticator::new(5, &key, EncryptMethod::CHACHA);
    assert!(matches!(r, Err(TunnelError::ValidationError)));
}

#[test]
fn aes_short_key_fails() {
    let key = [0xAAu8; 16];
    let r = Authenticator::new(5, &key, EncryptMethod::AES);
    assert!(matches!(r, Err(TunnelError::ValidationError)));
}

#[test]
fn nonce_is_twelve_bytes_and_fixed() {
    let key = [0x05u8; 32];
    let a = Authenticator::new(3, &key, EncryptMethod::AES).unwrap();
    let n1 = a.get_nonce();
    let n2 = a.get_nonce();
    assert_eq!(n1.len(), 12);
    assert_eq!(n1, n2);
}

#[test]
fn distinct_authenticators_do_not_decrypt_each_other() {
    let key = [0x66u8; 32];
    let a = Authenticator::new(1, &key, EncryptMethod::AES).unwrap();
    let b = Authenticator::new(2, &key, EncryptMethod::AES).unwrap();
    let ct = a.encrypt(b"secret").unwrap();
    // Same key, but b drew its own random nonce; the tag cannot match.
    let r = b.decrypt(&ct);
    assert!(r.is_err() || a.get_nonce() == b.get_nonce());
}
