//! Key material and the cryptographic error type.
use vstd::prelude::*;
use crate::digest::{blake3_digest, blake3_of, ct_eq, sha3_256_digest, sha3_256_of};
use vstd::string::StringSliceAdditionalSpecFns;

verus! {

/// Errors of the cryptographic layer and of the post-boot entropy API.
#[derive(Debug, Clone, Copy, PartialEq, Eq, Structural)]
pub enum CryptoError {
    /// The hardware is not initialized.
    HardwareNotInitialized,
    /// A hardware wait ran out of polls.
    HardwareTimeout,
    /// More entropy was asked for than the pool holds.
    InsufficientEntropy,
    /// A key has the wrong size.
    InvalidKeySize,
    /// A signature did not verify.
    InvalidSignature,
    /// Encryption failed.
    EncryptionFailed,
    /// Decryption failed.
    DecryptionFailed,
    /// Key derivation failed.
    KeyDerivationFailed,
}

/// Kinds of key material.
#[derive(Debug, Clone, Copy, PartialEq, Eq, Structural)]
pub enum KeyType {
    /// Symmetric encryption key.
    Symmetric,
    /// Ed25519 signing key.
    SigningPrivate,
    /// Ed25519 verification key.
    SigningPublic,
    /// X25519 key-exchange private key.
    KeyExchangePrivate,
    /// X25519 key-exchange public key.
    KeyExchangePublic,
    /// Post-quantum Kyber key.
    PostQuantumKyber,
    /// Post-quantum Dilithium key.
    PostQuantumDilithium,
}

/// A 32-byte key with its kind and a 16-byte identifier.
pub struct SecureKey {
    key_bytes: [u8; 32],
    key_type: KeyType,
    key_id: [u8; 16],
}

/// The identifier of a key: the first 16 bytes of its BLAKE3 digest.
pub open spec fn key_id_of(key: Seq<u8>) -> Seq<u8> {
    blake3_of(key).subrange(0, 16)
}

/// `a` followed by `b`, as one vector.
fn concat(a: &[u8], b: &[u8]) -> (r: Vec<u8>)
    ensures
        r@ == a@ + b@,
{
    let mut r: Vec<u8> = Vec::new();
    for i in 0..a.len()
        invariant
            r@ == a@.subrange(0, i as int),
    {
        r.push(a[i]);
    }
    for i in 0..b.len()
        invariant
            r@ == a@ + b@.subrange(0, i as int),
    {
        r.push(b[i]);
    }
    assert(a@.subrange(0, a@.len() as int) == a@);
    assert(b@.subrange(0, b@.len() as int) == b@);
    r
}

impl SecureKey {
    pub closed spec fn key(&self) -> Seq<u8> {
        self.key_bytes@
    }

    pub closed spec fn kind(&self) -> KeyType {
        self.key_type
    }

    pub closed spec fn id(&self) -> Seq<u8> {
        self.key_id@
    }

    /// Wraps `key_bytes`; the identifier is derived from them.
    pub fn new(key_bytes: [u8; 32], key_type: KeyType) -> (r: Self)
        ensures
            r.key() == key_bytes@,
            r.kind() == key_type,
            r.id() == key_id_of(key_bytes@),
    {
        let digest = blake3_digest(key_bytes.as_slice());
        let mut key_id = [0u8; 16];
        for i in 0..16
            invariant
                digest@ == blake3_of(key_bytes@),
                forall|j: int| 0 <= j < i ==> key_id@[j] == digest@[j],
        {
            key_id[i] = digest[i];
        }
        assert(key_id@ =~= key_id_of(key_bytes@));
        SecureKey { key_bytes, key_type, key_id }
    }

    pub fn bytes(&self) -> (r: &[u8; 32])
        ensures
            r@ == self.key(),
    {
        &self.key_bytes
    }

    pub fn key_type(&self) -> (r: KeyType)
        ensures
            r == self.kind(),
    {
        self.key_type
    }

    pub fn key_id(&self) -> (r: &[u8; 16])
        ensures
            r@ == self.id(),
    {
        &self.key_id
    }

    /// A child key of the same kind: the SHA3-256 digest of this key's bytes
    /// followed by `info`.
    pub fn derive_child(&self, info: &[u8]) -> (r: Result<SecureKey, CryptoError>)
        ensures
            r is Ok,
            r->Ok_0.key() == sha3_256_of(self.key() + info@),
            r->Ok_0.kind() == self.kind(),
            r->Ok_0.id() == key_id_of(r->Ok_0.key()),
    {
        let input = concat(self.key_bytes.as_slice(), info);
        let derived_bytes = sha3_256_digest(input.as_slice());
        Ok(SecureKey::new(derived_bytes, self.key_type))
    }
}

/// A 32-byte key from a password and a salt: the SHA3-256 digest of the
/// password followed by the salt.
pub fn derive_key_from_password(password: &[u8], salt: &[u8]) -> (r: Result<[u8; 32], CryptoError>)
    ensures
        r is Ok,
        r->Ok_0@ == sha3_256_of(password@ + salt@),
{
    let input = concat(password, salt);
    Ok(sha3_256_digest(input.as_slice()))
}

/// A fixed all-zero salt, for callers that hold no entropy source.
pub fn generate_salt() -> (r: [u8; 16])
    ensures
        r@ == Seq::new(16, |i: int| 0u8),
{
    let r = [0u8; 16];
    assert(r@ =~= Seq::new(16, |i: int| 0u8));
    r
}

/// Compares two strings byte for byte in constant time.
pub fn timing_safe_string_eq(a: &str, b: &str) -> (r: bool)
    ensures
        r == (a.spec_bytes() == b.spec_bytes()),
{
    ct_eq(a.as_bytes(), b.as_bytes())
}

} // verus!
