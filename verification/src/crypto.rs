//! Key material, key derivation, and the AEAD primitive behind chunk and
//! header sealing.
use vstd::prelude::*;
use crate::KEY_SIZE;

verus! {

/// Failures of the cryptographic layer.
///
/// `AeadFailed` means authentication failed: corruption, a wrong key, or a
/// wrong device. `InvalidHeader` means a sealed header is structurally
/// malformed (unknown mode byte). `Fatal` covers device and system faults.
#[derive(Clone, Copy, Debug, PartialEq, Eq, Structural)]
pub enum CryptoError {
    Fatal,
    AeadFailed,
    InvalidHeader,
}

/// A 32-byte secret. Exposed only through [`RawKey::expose_secret`]; callers
/// must not log or persist it outside a sealed header.
pub struct RawKey {
    bytes: Vec<u8>,
}

impl View for RawKey {
    type V = Seq<u8>;

    closed spec fn view(&self) -> Seq<u8> {
        self.bytes@
    }
}

impl RawKey {
    pub open spec fn wf(&self) -> bool {
        self@.len() == KEY_SIZE
    }

    pub fn new(bytes: Vec<u8>) -> (r: RawKey)
        requires
            bytes@.len() == KEY_SIZE,
        ensures
            r@ == bytes@,
            r.wf(),
    {
        RawKey { bytes }
    }

    /// Deliberate, explicit access to the secret bytes.
    pub fn expose_secret(&self) -> (r: &Vec<u8>)
        ensures
            r@ == self@,
    {
        &self.bytes
    }
}

impl Clone for RawKey {
    fn clone(&self) -> (r: Self)
        ensures
            r@ == self@,
    {
        let bytes = self.bytes.clone();
        proof {
            assert(bytes@ =~= self.bytes@);
        }
        RawKey { bytes }
    }
}

/// The key driving chunk sealing and opening.
pub struct ChunkKey {
    key: RawKey,
}

/// The key under which the index subsystem seals its objects.
pub struct IndexKey {
    key: RawKey,
}

/// The key under which the storage layer addresses its objects.
pub struct StorageKey {
    key: RawKey,
}

impl View for ChunkKey {
    type V = Seq<u8>;

    closed spec fn view(&self) -> Seq<u8> {
        self.key@
    }
}

impl ChunkKey {
    pub open spec fn wf(&self) -> bool {
        self@.len() == KEY_SIZE
    }

    pub fn new(key: RawKey) -> (r: ChunkKey)
        requires
            key.wf(),
        ensures
            r@ == key@,
            r.wf(),
    {
        ChunkKey { key }
    }

    pub fn expose_secret(&self) -> (r: &Vec<u8>)
        ensures
            r@ == self@,
    {
        self.key.expose_secret()
    }

    /// Runtime check of the key invariant.
    pub fn check_wf(&self) -> (r: bool)
        ensures
            r == self.wf(),
    {
        self.key.expose_secret().len() == KEY_SIZE
    }
}

impl Clone for ChunkKey {
    fn clone(&self) -> (r: Self)
        ensures
            r@ == self@,
    {
        ChunkKey { key: self.key.clone() }
    }
}

impl View for IndexKey {
    type V = Seq<u8>;

    closed spec fn view(&self) -> Seq<u8> {
        self.key@
    }
}

impl IndexKey {
    pub open spec fn wf(&self) -> bool {
        self@.len() == KEY_SIZE
    }

    pub fn new(key: RawKey) -> (r: IndexKey)
        requires
            key.wf(),
        ensures
            r@ == key@,
            r.wf(),
    {
        IndexKey { key }
    }

    pub fn expose_secret(&self) -> (r: &Vec<u8>)
        ensures
            r@ == self@,
    {
        self.key.expose_secret()
    }
}

impl View for StorageKey {
    type V = Seq<u8>;

    closed spec fn view(&self) -> Seq<u8> {
        self.key@
    }
}

impl StorageKey {
    pub open spec fn wf(&self) -> bool {
        self@.len() == KEY_SIZE
    }

    pub fn new(key: RawKey) -> (r: StorageKey)
        requires
            key.wf(),
        ensures
            r@ == key@,
            r.wf(),
    {
        StorageKey { key }
    }

    pub fn expose_secret(&self) -> (r: &Vec<u8>)
        ensures
            r@ == self@,
    {
        self.key.expose_secret()
    }
}

/// The ciphertext that the AEAD produces for a key, nonce and plaintext.
pub uninterp spec fn gcm_ct(key: Seq<u8>, nonce: Seq<u8>, pt: Seq<u8>) -> Seq<u8>;

/// The 16-byte authentication tag that the AEAD produces for a key, nonce
/// and plaintext.
pub uninterp spec fn gcm_tag(key: Seq<u8>, nonce: Seq<u8>, pt: Seq<u8>) -> Seq<u8>;

/// Relies on ring's AES-256-GCM `seal_in_place_separate_tag`: encrypts `buf`
/// in place and returns the 16-byte tag; ciphertext and tag are functions of
/// key, nonce and plaintext alone. The only failure is an input longer than
/// AES-GCM admits, (2^39 - 256) / 8 bytes.
#[verifier::external_body]
pub(crate) fn aead_seal(key: &Vec<u8>, nonce: &Vec<u8>, buf: &mut Vec<u8>) -> (r: Result<
    Vec<u8>,
    CryptoError,
>)
    requires
        key@.len() == KEY_SIZE,
        nonce@.len() == 12,
    ensures
        match r {
            Ok(tag) => final(buf)@ == gcm_ct(key@, nonce@, old(buf)@) && tag@ == gcm_tag(
                key@,
                nonce@,
                old(buf)@,
            ) && final(buf)@.len() == old(buf)@.len() && tag@.len() == 16,
            Err(e) => e == CryptoError::Fatal,
        },
        old(buf)@.len() <= 68719476704 ==> r is Ok,
{
    let ub = ring::aead::UnboundKey::new(&ring::aead::AES_256_GCM, key.as_slice())
        .map_err(|_| CryptoError::Fatal)?;
    let k = ring::aead::LessSafeKey::new(ub);
    let mut n = [0u8; 12];
    n.copy_from_slice(nonce.as_slice());
    let nonce = ring::aead::Nonce::assume_unique_for_key(n);
    let tag = k
        .seal_in_place_separate_tag(nonce, ring::aead::Aad::empty(), buf.as_mut_slice())
        .map_err(|_| CryptoError::Fatal)?;
    Ok(tag.as_ref().to_vec())
}

/// Relies on ring's AES-256-GCM `open_in_place_separate_tag`: returns the
/// plaintext exactly when `(ct, tag)` is the seal of that plaintext under
/// `(key, nonce)`.
#[verifier::external_body]
pub(crate) fn aead_open(key: &Vec<u8>, nonce: &Vec<u8>, ct: &[u8], tag: &[u8]) -> (r: Result<
    Vec<u8>,
    CryptoError,
>)
    requires
        key@.len() == KEY_SIZE,
        nonce@.len() == 12,
        tag@.len() == 16,
    ensures
        match r {
            Ok(pt) => ct@ == gcm_ct(key@, nonce@, pt@) && tag@ == gcm_tag(key@, nonce@, pt@)
                && pt@.len() == ct@.len(),
            Err(e) => e == CryptoError::AeadFailed,
        },
        forall|pt: Seq<u8>|
            ct@ == gcm_ct(key@, nonce@, pt) && tag@ == gcm_tag(key@, nonce@, pt) ==> r is Ok
                && r->Ok_0@ == pt,
{
    let ub = ring::aead::UnboundKey::new(&ring::aead::AES_256_GCM, key.as_slice())
        .map_err(|_| CryptoError::AeadFailed)?;
    let k = ring::aead::LessSafeKey::new(ub);
    let mut n = [0u8; 12];
    n.copy_from_slice(nonce.as_slice());
    let t = ring::aead::Tag::try_from(tag).map_err(|_| CryptoError::AeadFailed)?;
    let mut buf = ct.to_vec();
    k.open_in_place_separate_tag(
        ring::aead::Nonce::assume_unique_for_key(n),
        ring::aead::Aad::empty(),
        t,
        &mut buf,
        0..,
    ).map_err(|_| CryptoError::AeadFailed)?;
    Ok(buf)
}

/// The 32-byte key that BLAKE3 key derivation produces for a context string
/// and key material.
pub uninterp spec fn blake3_kdf(context: Seq<char>, key_material: Seq<u8>) -> Seq<u8>;

/// Relies on `blake3::derive_key`: a 32-byte key that is a function of the
/// context string and the key material alone.
#[verifier::external_body]
pub(crate) fn derive_key(context: &str, key_material: &[u8]) -> (r: Vec<u8>)
    ensures
        r@ == blake3_kdf(context@, key_material@),
        r@.len() == KEY_SIZE,
{
    blake3::derive_key(context, key_material).to_vec()
}

/// The 32-byte key that Argon2id v19 with m=19456 KiB, t=2, p=1 produces
/// for a password and salt.
pub uninterp spec fn argon2_of(password: Seq<u8>, salt: Seq<u8>) -> Seq<u8>;

/// Relies on `argon2::Argon2::hash_password_into`, with the algorithm,
/// version and cost parameters pinned explicitly (Argon2id, v19, m=19456
/// KiB, t=2, p=1) so the on-disk key stays bit-exact across dependency
/// upgrades: a 32-byte key that is a function of password and salt alone.
#[verifier::external_body]
pub(crate) fn argon2_hash(password: &[u8], salt: &[u8]) -> (r: Result<Vec<u8>, CryptoError>)
    requires
        salt@.len() == KEY_SIZE,
    ensures
        match r {
            Ok(v) => v@ == argon2_of(password@, salt@) && v@.len() == KEY_SIZE,
            Err(e) => e == CryptoError::Fatal,
        },
{
    let mut out = [0u8; 32];
    let params = argon2::Params::new(19456, 2, 1, Some(32)).map_err(|_| CryptoError::Fatal)?;
    argon2::Argon2::new(argon2::Algorithm::Argon2id, argon2::Version::V0x13, params)
        .hash_password_into(password, salt, &mut out)
        .map_err(|_| CryptoError::Fatal)?;
    Ok(out.to_vec())
}

/// Relies on ring's `SystemRandom::fill`: `len` bytes from a
/// cryptographically secure source. Nothing is stated of their values.
#[verifier::external_body]
pub(crate) fn fill_random_fallible(len: usize) -> (r: Result<Vec<u8>, CryptoError>)
    ensures
        match r {
            Ok(v) => v@.len() == len,
            Err(e) => e == CryptoError::Fatal,
        },
{
    let mut v = vec![0u8; len];
    ring::rand::SecureRandom::fill(&ring::rand::SystemRandom::new(), &mut v)
        .map_err(|_| CryptoError::Fatal)?;
    Ok(v)
}

} // verus!
