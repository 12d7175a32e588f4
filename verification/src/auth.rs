//! Per-connection authenticated encryption: AES-128-GCM or
//! ChaCha20-Poly1305 keyed by a 32-byte provisioned key and a fixed
//! 12-byte nonce drawn once at construction.

use vstd::prelude::*;

use crate::shared::TunnelError;
use aead::{Aead, KeyInit};
use rand::Rng;

verus! {

/// Encryption method tag carried in `Header::auth_type`.
#[derive(Clone, Copy, PartialEq, Eq, Structural, Debug)]
pub enum EncryptMethod {
    UNSAFE,
    AES,
    CHACHA,
}

/// Numeric wire code to method; any value outside the defined codes falls
/// back to `UNSAFE`.
pub open spec fn spec_method_from_num(num: u8) -> EncryptMethod {
    if num == 1 {
        EncryptMethod::AES
    } else if num == 2 {
        EncryptMethod::CHACHA
    } else {
        EncryptMethod::UNSAFE
    }
}

impl EncryptMethod {
    /// Numeric wire code of this method.
    pub open spec fn spec_num(self) -> u8 {
        match self {
            EncryptMethod::UNSAFE => 0,
            EncryptMethod::AES => 1,
            EncryptMethod::CHACHA => 2,
        }
    }

    pub fn from_num(num: u8) -> (r: EncryptMethod)
        ensures
            r == spec_method_from_num(num),
    {
        match num {
            1 => EncryptMethod::AES,
            2 => EncryptMethod::CHACHA,
            _ => EncryptMethod::UNSAFE,
        }
    }

    pub fn to_num(&self) -> (r: u8)
        ensures
            r == self.spec_num(),
    {
        match self {
            EncryptMethod::UNSAFE => 0,
            EncryptMethod::AES => 1,
            EncryptMethod::CHACHA => 2,
        }
    }
}

/// The ciphertext that AES-128-GCM with a postfix tag produces from a
/// 16-byte key, a 12-byte nonce and a plaintext; a function of its
/// arguments alone.
pub uninterp spec fn spec_aes_gcm_cipher(key: Seq<u8>, nonce: Seq<u8>, pt: Seq<u8>) -> Seq<u8>;

/// The ciphertext that ChaCha20-Poly1305 with a postfix tag produces from a
/// 32-byte key, a 12-byte nonce and a plaintext; a function of its
/// arguments alone.
pub uninterp spec fn spec_chacha_cipher(key: Seq<u8>, nonce: Seq<u8>, pt: Seq<u8>) -> Seq<u8>;

/// Relies on rand::Rng::gen over rand::thread_rng to draw 12 random bytes;
/// nothing is promised of the value.
#[verifier::external_body]
fn random_nonce() -> (r: [u8; 12]) {
    let mut rng = rand::thread_rng();
    rng.gen()
}

/// Relies on aes_gcm::Aes128Gcm through aead::Aead::encrypt: deterministic
/// in (key, nonce, plaintext), the ciphertext is the encrypted message
/// followed by the 16-byte tag, and encryption succeeds for any plaintext
/// within the cipher's size limit (2^36 bytes).
#[verifier::external_body]
fn aes_encrypt_raw(key: &Vec<u8>, nonce: &[u8; 12], pt: &[u8]) -> (r: Option<Vec<u8>>)
    requires
        key@.len() == 32,
    ensures
        r matches Some(ct) ==> (ct@ == spec_aes_gcm_cipher(key@.take(16), nonce@, pt@)
            && ct@.len() == pt@.len() + 16),
        pt@.len() <= 0x100000000 ==> r is Some,
{
    let k = aes_gcm::Key::<aes_gcm::Aes128Gcm>::from_slice(&key[0..16]);
    let cipher = aes_gcm::Aes128Gcm::new(k);
    let n = aes_gcm::Nonce::from_slice(&nonce[..]);
    cipher.encrypt(n, pt).ok()
}

/// Relies on aes_gcm::Aes128Gcm through aead::Aead::decrypt: it returns
/// exactly the plaintext whose encryption under the same key and nonce is
/// the given ciphertext, and fails when the authentication tag does not
/// match.
#[verifier::external_body]
fn aes_decrypt_raw(key: &Vec<u8>, nonce: &[u8; 12], ct: &[u8]) -> (r: Option<Vec<u8>>)
    requires
        key@.len() == 32,
    ensures
        r matches Some(pt) ==> ct@ == spec_aes_gcm_cipher(key@.take(16), nonce@, pt@),
        r matches Some(pt) ==> (forall|p: Seq<u8>|
            p.len() + 16 == ct@.len() && p.len() <= 0x100000000
                && ct@ == spec_aes_gcm_cipher(key@.take(16), nonce@, p) ==> pt@ == p),
        r is None ==> (forall|p: Seq<u8>|
            p.len() + 16 == ct@.len() && p.len() <= 0x100000000
                ==> ct@ != spec_aes_gcm_cipher(key@.take(16), nonce@, p)),
{
    let k = aes_gcm::Key::<aes_gcm::Aes128Gcm>::from_slice(&key[0..16]);
    let cipher = aes_gcm::Aes128Gcm::new(k);
    let n = aes_gcm::Nonce::from_slice(&nonce[..]);
    cipher.decrypt(n, ct).ok()
}

/// Relies on chacha20poly1305::ChaCha20Poly1305 through aead::Aead::encrypt:
/// deterministic in (key, nonce, plaintext), the ciphertext is the encrypted
/// message followed by the 16-byte tag, and encryption succeeds for any
/// plaintext within the cipher's size limit (about 2^38 bytes).
#[verifier::external_body]
fn chacha_encrypt_raw(key: &Vec<u8>, nonce: &[u8; 12], pt: &[u8]) -> (r: Option<Vec<u8>>)
    requires
        key@.len() == 32,
    ensures
        r matches Some(ct) ==> (ct@ == spec_chacha_cipher(key@, nonce@, pt@)
            && ct@.len() == pt@.len() + 16),
        pt@.len() <= 0x100000000 ==> r is Some,
{
    let k = chacha20poly1305::Key::from_slice(&key[..]);
    let cipher = chacha20poly1305::ChaCha20Poly1305::new(k);
    let n = chacha20poly1305::Nonce::from_slice(&nonce[..]);
    cipher.encrypt(n, pt).ok()
}

/// Relies on chacha20poly1305::ChaCha20Poly1305 through aead::Aead::decrypt:
/// it returns exactly the plaintext whose encryption under the same key and
/// nonce is the given ciphertext, and fails when the authentication tag does
/// not match.
#[verifier::external_body]
fn chacha_decrypt_raw(key: &Vec<u8>, nonce: &[u8; 12], ct: &[u8]) -> (r: Option<Vec<u8>>)
    requires
        key@.len() == 32,
    ensures
        r matches Some(pt) ==> ct@ == spec_chacha_cipher(key@, nonce@, pt@),
        r matches Some(pt) ==> (forall|p: Seq<u8>|
            p.len() + 16 == ct@.len() && p.len() <= 0x100000000
                && ct@ == spec_chacha_cipher(key@, nonce@, p) ==> pt@ == p),
        r is None ==> (forall|p: Seq<u8>|
            p.len() + 16 == ct@.len() && p.len() <= 0x100000000
                ==> ct@ != spec_chacha_cipher(key@, nonce@, p)),
{
    let k = chacha20poly1305::Key::from_slice(&key[..]);
    let cipher = chacha20poly1305::ChaCha20Poly1305::new(k);
    let n = chacha20poly1305::Nonce::from_slice(&nonce[..]);
    cipher.decrypt(n, ct).ok()
}

/// Per-connection AEAD state: the user identity, the provisioned 32-byte
/// key, the nonce drawn once at construction, and the chosen method.
/// The key and nonce are immutable after construction.
pub struct Authenticator {
    client_id: u128,
    key: Vec<u8>,
    nonce: [u8; 12],
    method: EncryptMethod,
}

impl Authenticator {
    /// Opaque identifier of the authenticated user.
    pub closed spec fn spec_client_id(self) -> u128 {
        self.client_id
    }

    /// The stored 32-byte key; AES uses only its first 16 bytes.
    pub closed spec fn spec_key(self) -> Seq<u8> {
        self.key@
    }

    /// The fixed 12-byte nonce drawn at construction.
    pub closed spec fn spec_nonce(self) -> Seq<u8> {
        self.nonce@
    }

    /// The negotiated encryption method.
    pub closed spec fn spec_method(self) -> EncryptMethod {
        self.method
    }

    /// Every authenticator the constructor hands out holds a full 32-byte
    /// key and a real cipher: never `UNSAFE`.
    pub closed spec fn wf(self) -> bool {
        self.key@.len() == 32 && !(self.method is UNSAFE)
    }

    /// The ciphertext this authenticator produces for a plaintext, under its
    /// fixed key and nonce; in AES mode only the first 16 key bytes key the
    /// cipher.
    pub open spec fn spec_encrypt(self, pt: Seq<u8>) -> Seq<u8> {
        match self.spec_method() {
            EncryptMethod::AES => spec_aes_gcm_cipher(
                self.spec_key().take(16),
                self.spec_nonce(),
                pt,
            ),
            EncryptMethod::CHACHA => spec_chacha_cipher(self.spec_key(), self.spec_nonce(), pt),
            EncryptMethod::UNSAFE => pt,
        }
    }

    /// Builds an authenticator with a fresh random nonce. Fails with
    /// `ValidationError` for `UNSAFE` (unencrypted traffic takes no
    /// authenticator) and whenever the key is not the full 32 bytes the
    /// key slot holds; AES then uses only the first 16 of them.
    pub fn new(id: u128, key: &[u8], method: EncryptMethod) -> (r: Result<
        Authenticator,
        TunnelError,
    >)
        ensures
            method is UNSAFE ==> (r matches Err(e) && e == TunnelError::ValidationError),
            !(method is UNSAFE) && key@.len() != 32 ==> (r matches Err(e) && e
                == TunnelError::ValidationError),
            !(method is UNSAFE) && key@.len() == 32 ==> (r matches Ok(a) && a.wf()
                && a.spec_method() == method && a.spec_client_id() == id && a.spec_key()
                == key@),
    {
        match method {
            EncryptMethod::UNSAFE => Err(TunnelError::ValidationError),
            _ => {
                if key.len() != 32 {
                    return Err(TunnelError::ValidationError);
                }
                let mut stored: Vec<u8> = Vec::new();
                let mut i: usize = 0;
                while i < 32
                    invariant
                        key@.len() == 32,
                        i <= 32,
                        stored@.len() == i,
                        forall|j: int| 0 <= j < i ==> stored@[j] == key@[j],
                    decreases 32 - i,
                {
                    stored.push(key[i]);
                    i += 1;
                }
                proof {
                    assert(stored@ =~= key@);
                }
                let nonce_bytes = random_nonce();
                Ok(Authenticator { client_id: id, key: stored, nonce: nonce_bytes, method })
            },
        }
    }

    /// Applies the connection's cipher under the stored key and fixed nonce.
    /// Fails only with `CryptoError`, and only when the plaintext exceeds
    /// the cipher's internal size limit.
    pub fn encrypt(&self, plaintext: &[u8]) -> (r: Result<Vec<u8>, TunnelError>)
        requires
            self.wf(),
        ensures
            r matches Ok(ct) ==> (ct@ == self.spec_encrypt(plaintext@) && ct@.len()
                == plaintext@.len() + 16),
            plaintext@.len() <= 0x100000000 ==> r is Ok,
            r matches Err(e) ==> e == TunnelError::CryptoError,
    {
        match self.method {
            EncryptMethod::AES => match aes_encrypt_raw(&self.key, &self.nonce, plaintext) {
                Some(ct) => Ok(ct),
                None => Err(TunnelError::CryptoError),
            },
            EncryptMethod::CHACHA => match chacha_encrypt_raw(&self.key, &self.nonce, plaintext) {
                Some(ct) => Ok(ct),
                None => Err(TunnelError::CryptoError),
            },
            EncryptMethod::UNSAFE => Err(TunnelError::CryptoError),
        }
    }

    /// Inverse of `encrypt` under the same fixed nonce: succeeds exactly on
    /// genuine ciphertexts of this connection, returning their unique
    /// plaintext, and fails with `CryptoError` on a tag mismatch or
    /// malformed ciphertext. This is the sole integrity check in the system.
    pub fn decrypt(&self, ciphertext: &[u8]) -> (r: Result<Vec<u8>, TunnelError>)
        requires
            self.wf(),
        ensures
            r matches Ok(pt) ==> ciphertext@ == self.spec_encrypt(pt@),
            forall|p: Seq<u8>|
                p.len() + 16 == ciphertext@.len() && p.len() <= 0x100000000
                    && ciphertext@ == self.spec_encrypt(p)
                    ==> (r matches Ok(pt) && pt@ == p),
            r matches Err(e) ==> e == TunnelError::CryptoError,
    {
        match self.method {
            EncryptMethod::AES => match aes_decrypt_raw(&self.key, &self.nonce, ciphertext) {
                Some(pt) => Ok(pt),
                None => Err(TunnelError::CryptoError),
            },
            EncryptMethod::CHACHA => match chacha_decrypt_raw(
                &self.key,
                &self.nonce,
                ciphertext,
            ) {
                Some(pt) => Ok(pt),
                None => Err(TunnelError::CryptoError),
            },
            EncryptMethod::UNSAFE => Err(TunnelError::CryptoError),
        }
    }

    /// The nonce this connection reuses for every message.
    pub fn get_nonce(&self) -> (r: [u8; 12])
        ensures
            r@ == self.spec_nonce(),
    {
        self.nonce
    }

    /// Law: decrypting what `encrypt` produced returns the original
    /// plaintext, for every well-formed authenticator and every plaintext
    /// within the cipher's size limit.
    pub fn encrypt_decrypt_roundtrip(&self, plaintext: &[u8]) -> (r: Option<Vec<u8>>)
        requires
            self.wf(),
            plaintext@.len() <= 0x100000000,
        ensures
            r matches Some(q) && q@ == plaintext@,
    {
        match self.encrypt(plaintext) {
            Ok(ct) => match self.decrypt(ct.as_slice()) {
                Ok(p) => Some(p),
                Err(_) => None,
            },
            Err(_) => None,
        }
    }
}

/// Law: AES mode keys the cipher from only the first 16 of the 32 key
/// bytes. Two authenticators in AES mode that agree on the nonce and on
/// those 16 bytes produce the same ciphertext for every plaintext,
/// whatever their remaining key bytes hold; by `decrypt`'s contract either
/// then decrypts what the other encrypted.
pub proof fn lemma_aes_uses_low_key_half(a: Authenticator, b: Authenticator, pt: Seq<u8>)
    requires
        a.spec_method() is AES,
        b.spec_method() is AES,
        a.spec_nonce() == b.spec_nonce(),
        a.spec_key().take(16) == b.spec_key().take(16),
    ensures
        a.spec_encrypt(pt) == b.spec_encrypt(pt),
{
}

} // verus!
