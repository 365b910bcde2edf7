//! The key sources: capability handles recovering the whole key hierarchy
//! from credentials, with a symmetric variant and a hardware
//! challenge-response variant.
use vstd::prelude::*;
use crate::chunks::ChunkPointer;
use crate::crypto::{
    argon2_hash, argon2_of, blake3_kdf, derive_key, fill_random_fallible, ChunkKey, CryptoError,
    IndexKey, RawKey, StorageKey,
};
use crate::header::{
    mode_byte, open_header_with_key, payload_of, seal_header_with_key, Mode, CHALLENGE_SIZE,
    HEADER_PAYLOAD, HEADER_SIZE, NONCE_SIZE, RESPONSE_SIZE,
};
use crate::id::ObjectId;
use crate::KEY_SIZE;

verus! {

/// The master key from credentials: Argon2id of the password, salted with
/// the BLAKE3 derivation of the username under a scheme context.
pub open spec fn master_key_of(salt_ctx: Seq<char>, user: Seq<u8>, pass: Seq<u8>) -> Seq<u8> {
    argon2_of(pass, blake3_kdf(salt_ctx, user))
}

/// The chunk key of a master key.
pub open spec fn chunk_key_of_master(master: Seq<u8>) -> Seq<u8> {
    blake3_kdf("zerostash.com 2022 chunk key"@, master)
}

/// The index key of a master key.
pub open spec fn index_key_of_master(master: Seq<u8>) -> Seq<u8> {
    blake3_kdf("zerostash.com 2022 index key"@, master)
}

/// The storage key of a master key.
pub open spec fn storage_key_of_master(master: Seq<u8>) -> Seq<u8> {
    blake3_kdf("zerostash.com 2022 storage key"@, master)
}

/// The root object identifier of a master key.
pub open spec fn root_id_of_master(master: Seq<u8>) -> Seq<u8> {
    blake3_kdf("zerostash.com 2022 root object id"@, master)
}

/// The header key of the hardware variant: BLAKE3 derivation over the
/// master key concatenated with the device's HMAC response.
pub open spec fn yubikey_header_key_of(master: Seq<u8>, response: Seq<u8>) -> Seq<u8> {
    blake3_kdf("zerostash.com 2022 yubikey challenge-response"@, master + response)
}

/// The key hierarchy is a function of the master secret alone: key sources
/// agreeing on the master agree on every derived key and on the root
/// object identifier.
pub proof fn lemma_key_hierarchy_deterministic(a: Seq<u8>, b: Seq<u8>)
    requires
        a == b,
    ensures
        chunk_key_of_master(a) == chunk_key_of_master(b),
        index_key_of_master(a) == index_key_of_master(b),
        storage_key_of_master(a) == storage_key_of_master(b),
        root_id_of_master(a) == root_id_of_master(b),
{
}

/// Derives the master key for a scheme context from credentials.
fn derive_master(salt_ctx: &str, username: &[u8], password: &[u8]) -> (r: Result<
    RawKey,
    CryptoError,
>)
    ensures
        match r {
            Ok(k) => k@ == master_key_of(salt_ctx@, username@, password@) && k.wf(),
            Err(e) => e == CryptoError::Fatal,
        },
{
    let salt = derive_key(salt_ctx, username);
    match argon2_hash(password, salt.as_slice()) {
        Ok(bytes) => Ok(RawKey::new(bytes)),
        Err(e) => Err(e),
    }
}

#[verifier::external_type_specification]
#[verifier::external_body]
pub struct ExConfig(yubico_manager::config::Config);

/// Relies on `Yubico::find_yubikey`: a configuration addressing a present
/// device, or `Fatal` when none is attached.
#[verifier::external_body]
pub fn find_device() -> (r: Result<yubico_manager::config::Config, CryptoError>)
    ensures
        r matches Err(e) ==> e == CryptoError::Fatal,
{
    let mut yk = yubico_manager::Yubico::new();
    match yk.find_yubikey() {
        Ok(d) => Ok(
            yubico_manager::config::Config::default()
                .set_vendor_id(d.vendor_id)
                .set_product_id(d.product_id),
        ),
        Err(_) => Err(CryptoError::Fatal),
    }
}

/// Relies on `Yubico::challenge_response_hmac`: the device's 20-byte
/// HMAC-SHA1 response. The value depends on the device; device absence,
/// device error, or a missed touch is `Fatal`. The challenge must fit the
/// device's 64-byte frame.
#[verifier::external_body]
fn challenge_response(config: &yubico_manager::config::Config, challenge: &[u8]) -> (r: Result<
    Vec<u8>,
    CryptoError,
>)
    requires
        challenge@.len() == CHALLENGE_SIZE,
    ensures
        match r {
            Ok(v) => v@.len() == RESPONSE_SIZE,
            Err(e) => e == CryptoError::Fatal,
        },
{
    let mut yk = yubico_manager::Yubico::new();
    match yk.challenge_response_hmac(challenge, config.clone()) {
        Ok(resp) => Ok(resp.0.to_vec()),
        Err(_) => Err(CryptoError::Fatal),
    }
}

/// Derives the hardware-variant header key from the master key and a
/// device response.
pub fn yubikey_header_key(master: &RawKey, response: &[u8]) -> (r: Vec<u8>)
    requires
        master.wf(),
    ensures
        r@ == yubikey_header_key_of(master@, response@),
        r@.len() == KEY_SIZE,
{
    let mut material: Vec<u8> = Vec::new();
    material.extend_from_slice(master.expose_secret().as_slice());
    material.extend_from_slice(response);
    proof {
        assert(material@ =~= master@ + response@);
    }
    derive_key("zerostash.com 2022 yubikey challenge-response", material.as_slice())
}

/// The symmetric key source: master key from credentials, per-archive
/// convergence key.
pub struct Symmetric {
    master_key: RawKey,
    convergence_key: RawKey,
}

/// The hardware challenge-response key source: behaves like the symmetric
/// source, but header sealing mixes a device response into the key.
pub struct YubikeyCR {
    inner: Symmetric,
    master_key: RawKey,
    mode: Mode,
    ykconfig: Option<yubico_manager::config::Config>,
}

/// A capability handle over the key hierarchy.
pub enum KeySource {
    Symmetric(Symmetric),
    Yubikey(YubikeyCR),
}

/// The mode byte names the variant `open_root` reconstructs.
pub open spec fn variant_matches(ks: &KeySource, m: Mode) -> bool {
    match m {
        Mode::Symmetric => ks is Symmetric,
        Mode::Yubikey => ks is Yubikey,
    }
}

/// A recovered root: the root pointer and the key source that opens the
/// rest of the archive.
pub struct CleartextHeader {
    pub root_ptr: ChunkPointer,
    pub key: KeySource,
}

impl Symmetric {
    pub closed spec fn spec_master(&self) -> Seq<u8> {
        self.master_key@
    }

    pub closed spec fn spec_convergence(&self) -> Seq<u8> {
        self.convergence_key@
    }

    pub open spec fn wf(&self) -> bool {
        self.spec_master().len() == KEY_SIZE && self.spec_convergence().len() == KEY_SIZE
    }

    /// Builds a symmetric source from parts.
    pub fn assemble(master_key: RawKey, convergence_key: RawKey) -> (r: Symmetric)
        requires
            master_key.wf(),
            convergence_key.wf(),
        ensures
            r.wf(),
            r.spec_master() == master_key@,
            r.spec_convergence() == convergence_key@,
    {
        Symmetric { master_key, convergence_key }
    }

    /// A fresh symmetric source: master key from the credentials, random
    /// convergence key.
    pub fn with_credentials(username: &[u8], password: &[u8]) -> (r: Result<
        KeySource,
        CryptoError,
    >)
        ensures
            match r {
                Ok(ks) => ks is Symmetric && ks.wf() && ks.spec_master() == master_key_of(
                    "zerostash.com symmetric master key"@,
                    username@,
                    password@,
                ),
                Err(e) => e == CryptoError::Fatal,
            },
    {
        let master = match derive_master(
            "zerostash.com symmetric master key",
            username,
            password,
        ) {
            Ok(k) => k,
            Err(e) => {
                return Err(e);
            },
        };
        let ck_bytes = match fill_random_fallible(KEY_SIZE) {
            Ok(v) => v,
            Err(e) => {
                return Err(e);
            },
        };
        Ok(KeySource::Symmetric(Symmetric { master_key: master, convergence_key: RawKey::new(ck_bytes) }))
    }
}

impl Clone for Symmetric {
    fn clone(&self) -> (r: Self)
        ensures
            r.spec_master() == self.spec_master(),
            r.spec_convergence() == self.spec_convergence(),
    {
        Symmetric {
            master_key: self.master_key.clone(),
            convergence_key: self.convergence_key.clone(),
        }
    }
}

impl YubikeyCR {
    pub closed spec fn spec_master(&self) -> Seq<u8> {
        self.master_key@
    }

    pub closed spec fn spec_convergence(&self) -> Seq<u8> {
        self.inner.spec_convergence()
    }

    pub open spec fn wf(&self) -> bool {
        self.spec_master().len() == KEY_SIZE && self.spec_convergence().len() == KEY_SIZE
    }

    /// The mode byte this source writes into headers it seals.
    pub closed spec fn spec_mode(&self) -> Mode {
        self.mode
    }

    /// A fresh hardware-backed source for a configured device: master key
    /// from the credentials, random convergence key, symmetric inner mode.
    pub fn with_credentials(
        username: &[u8],
        password: &[u8],
        ykconfig: yubico_manager::config::Config,
    ) -> (r: Result<KeySource, CryptoError>)
        ensures
            match r {
                Ok(ks) => ks is Yubikey && ks.wf() && ks.spec_master() == master_key_of(
                    "zerostash.com yubikey cr master key"@,
                    username@,
                    password@,
                ) && ks->Yubikey_0.spec_mode() == Mode::Symmetric,
                Err(e) => e == CryptoError::Fatal,
            },
    {
        let master = match derive_master(
            "zerostash.com yubikey cr master key",
            username,
            password,
        ) {
            Ok(k) => k,
            Err(e) => {
                return Err(e);
            },
        };
        let ck_bytes = match fill_random_fallible(KEY_SIZE) {
            Ok(v) => v,
            Err(e) => {
                return Err(e);
            },
        };
        let convergence_key = RawKey::new(ck_bytes);
        Ok(
            KeySource::Yubikey(
                YubikeyCR {
                    inner: Symmetric {
                        master_key: master.clone(),
                        convergence_key: convergence_key.clone(),
                    },
                    master_key: master,
                    mode: Mode::Symmetric,
                    ykconfig: Some(ykconfig),
                },
            ),
        )
    }
}

/// The key source a parsed mode byte reconstructs; the hardware variant
/// starts without a device configuration and finds one on demand.
pub fn keysource_for_mode(mode: Mode, master: RawKey, ck: RawKey) -> (r: KeySource)
    requires
        master.wf(),
        ck.wf(),
    ensures
        variant_matches(&r, mode),
        r.wf(),
        r.spec_master() == master@,
        r.spec_convergence() == ck@,
        mode == Mode::Yubikey ==> r->Yubikey_0.spec_mode() == Mode::Yubikey,
{
    match mode {
        Mode::Symmetric => KeySource::Symmetric(
            Symmetric { master_key: master, convergence_key: ck },
        ),
        Mode::Yubikey => KeySource::Yubikey(
            YubikeyCR {
                inner: Symmetric { master_key: master.clone(), convergence_key: ck },
                master_key: master,
                mode: Mode::Yubikey,
                ykconfig: None,
            },
        ),
    }
}

impl KeySource {
    pub closed spec fn spec_master(&self) -> Seq<u8> {
        match self {
            KeySource::Symmetric(s) => s.spec_master(),
            KeySource::Yubikey(y) => y.spec_master(),
        }
    }

    pub closed spec fn spec_convergence(&self) -> Seq<u8> {
        match self {
            KeySource::Symmetric(s) => s.spec_convergence(),
            KeySource::Yubikey(y) => y.spec_convergence(),
        }
    }

    pub open spec fn wf(&self) -> bool {
        self.spec_master().len() == KEY_SIZE && self.spec_convergence().len() == KEY_SIZE
    }

    /// The identifier of the archive's root object.
    pub fn root_object_id(&self) -> (r: Result<ObjectId, CryptoError>)
        requires
            self.wf(),
        ensures
            r is Ok,
            r->Ok_0@ == root_id_of_master(self.spec_master()),
    {
        let bytes = match self {
            KeySource::Symmetric(s) => derive_key(
                "zerostash.com 2022 root object id",
                s.master_key.expose_secret().as_slice(),
            ),
            KeySource::Yubikey(y) => derive_key(
                "zerostash.com 2022 root object id",
                y.master_key.expose_secret().as_slice(),
            ),
        };
        Ok(ObjectId::from_bytes(bytes))
    }

    /// The chunk key of this hierarchy.
    pub fn chunk_key(&self) -> (r: Result<ChunkKey, CryptoError>)
        requires
            self.wf(),
        ensures
            r is Ok,
            r->Ok_0@ == chunk_key_of_master(self.spec_master()),
            r->Ok_0.wf(),
    {
        let bytes = match self {
            KeySource::Symmetric(s) => derive_key(
                "zerostash.com 2022 chunk key",
                s.master_key.expose_secret().as_slice(),
            ),
            KeySource::Yubikey(y) => derive_key(
                "zerostash.com 2022 chunk key",
                y.master_key.expose_secret().as_slice(),
            ),
        };
        Ok(ChunkKey::new(RawKey::new(bytes)))
    }

    /// The index key of this hierarchy.
    pub fn index_key(&self) -> (r: Result<IndexKey, CryptoError>)
        requires
            self.wf(),
        ensures
            r is Ok,
            r->Ok_0@ == index_key_of_master(self.spec_master()),
    {
        let bytes = match self {
            KeySource::Symmetric(s) => derive_key(
                "zerostash.com 2022 index key",
                s.master_key.expose_secret().as_slice(),
            ),
            KeySource::Yubikey(y) => derive_key(
                "zerostash.com 2022 index key",
                y.master_key.expose_secret().as_slice(),
            ),
        };
        Ok(IndexKey::new(RawKey::new(bytes)))
    }

    /// The storage key of this hierarchy.
    pub fn storage_key(&self) -> (r: Result<StorageKey, CryptoError>)
        requires
            self.wf(),
        ensures
            r is Ok,
            r->Ok_0@ == storage_key_of_master(self.spec_master()),
    {
        let bytes = match self {
            KeySource::Symmetric(s) => derive_key(
                "zerostash.com 2022 storage key",
                s.master_key.expose_secret().as_slice(),
            ),
            KeySource::Yubikey(y) => derive_key(
                "zerostash.com 2022 storage key",
                y.master_key.expose_secret().as_slice(),
            ),
        };
        Ok(StorageKey::new(RawKey::new(bytes)))
    }

    /// Deliberate access to the per-archive convergence key.
    pub fn expose_convergence_key(&self) -> (r: Option<RawKey>)
        requires
            self.wf(),
        ensures
            r is Some,
            r->0@ == self.spec_convergence(),
    {
        match self {
            KeySource::Symmetric(s) => Some(s.convergence_key.clone()),
            KeySource::Yubikey(y) => Some(y.inner.convergence_key.clone()),
        }
    }

    /// Seals a root header: fresh nonce, fresh challenge slot, payload
    /// from the root pointer, this source's mode byte and its convergence
    /// key. Two seals of one cleartext draw distinct nonces.
    pub fn seal_root(&self, header: &CleartextHeader) -> (r: Result<Vec<u8>, CryptoError>)
        requires
            self.wf(),
            header.root_ptr.wf(),
        ensures
            match r {
                Ok(h) => h@.len() == HEADER_SIZE && (self is Symmetric
                    ==> exists|nonce: Seq<u8>, chall: Seq<u8>|
                        nonce.len() == NONCE_SIZE && chall.len() == CHALLENGE_SIZE
                            && crate::header::is_sealed_header(
                            h@,
                            self.spec_master(),
                            nonce,
                            payload_of(
                                header.root_ptr,
                                Mode::Symmetric,
                                self.spec_convergence(),
                            ),
                            chall,
                        )) && (self is Yubikey
                    ==> exists|resp: Seq<u8>, nonce: Seq<u8>, chall: Seq<u8>|
                        resp.len() == RESPONSE_SIZE && nonce.len() == NONCE_SIZE && chall.len()
                            == CHALLENGE_SIZE && crate::header::is_sealed_header(
                            h@,
                            yubikey_header_key_of(self.spec_master(), resp),
                            nonce,
                            payload_of(
                                header.root_ptr,
                                self->Yubikey_0.spec_mode(),
                                self.spec_convergence(),
                            ),
                            chall,
                        )),
                Err(e) => e == CryptoError::Fatal,
            },
    {
        match self {
            KeySource::Symmetric(s) => {
                let nonce = match fill_random_fallible(NONCE_SIZE) {
                    Ok(v) => v,
                    Err(e) => {
                        return Err(e);
                    },
                };
                let chall = match fill_random_fallible(CHALLENGE_SIZE) {
                    Ok(v) => v,
                    Err(e) => {
                        return Err(e);
                    },
                };
                seal_header_with_key(
                    s.master_key.expose_secret(),
                    &header.root_ptr,
                    Mode::Symmetric,
                    &s.convergence_key,
                    &nonce,
                    &chall,
                )
            },
            KeySource::Yubikey(y) => {
                let chall = match fill_random_fallible(CHALLENGE_SIZE) {
                    Ok(v) => v,
                    Err(e) => {
                        return Err(e);
                    },
                };
                let resp = match &y.ykconfig {
                    Some(c) => challenge_response(c, chall.as_slice()),
                    None => {
                        match find_device() {
                            Ok(c) => challenge_response(&c, chall.as_slice()),
                            Err(e) => Err(e),
                        }
                    },
                };
                let resp = match resp {
                    Ok(v) => v,
                    Err(e) => {
                        return Err(e);
                    },
                };
                let key = yubikey_header_key(&y.master_key, resp.as_slice());
                let nonce = match fill_random_fallible(NONCE_SIZE) {
                    Ok(v) => v,
                    Err(e) => {
                        return Err(e);
                    },
                };
                seal_header_with_key(
                    &key,
                    &header.root_ptr,
                    y.mode,
                    &y.inner.convergence_key,
                    &nonce,
                    &chall,
                )
            },
        }
    }

    /// Opens a sealed root header and reconstructs the key source the
    /// persisted mode byte names.
    ///
    /// For the symmetric source, success is owed exactly when the header is
    /// the seal of some payload under this master key and the header's own
    /// nonce; the recovered pointer, mode variant and convergence key are
    /// then the ones sealed. The hardware source first asks the device for
    /// its response to the stored challenge; a missing or failing device is
    /// `Fatal`.
    pub fn open_root(&self, sealed: &[u8]) -> (r: Result<CleartextHeader, CryptoError>)
        requires
            self.wf(),
            sealed@.len() == HEADER_SIZE,
        ensures
            match r {
                Ok(h) => h.root_ptr.wf() && h.key.wf() && h.key.spec_master()
                    == self.spec_master(),
                Err(e) => e == CryptoError::AeadFailed || e == CryptoError::InvalidHeader || e
                    == CryptoError::Fatal,
            },
            self is Symmetric && r is Ok ==> exists|pl: Seq<u8>|
                #![auto]
                {
                    &&& pl.len() == HEADER_PAYLOAD
                    &&& sealed@.subrange(0, 420) == crate::crypto::gcm_ct(
                        self.spec_master(),
                        sealed@.subrange(436, 448),
                        pl,
                    )
                    &&& sealed@.subrange(420, 436) == crate::crypto::gcm_tag(
                        self.spec_master(),
                        sealed@.subrange(436, 448),
                        pl,
                    )
                },
            self is Symmetric ==> forall|p: ChunkPointer, m: Mode, ck: Seq<u8>|
                p.wf() && ck.len() == KEY_SIZE && sealed@.subrange(0, 420)
                    == crate::crypto::gcm_ct(
                    self.spec_master(),
                    sealed@.subrange(436, 448),
                    payload_of(p, m, ck),
                ) && sealed@.subrange(420, 436) == crate::crypto::gcm_tag(
                    self.spec_master(),
                    sealed@.subrange(436, 448),
                    payload_of(p, m, ck),
                ) ==> r is Ok && {
                    let h = r->Ok_0;
                    &&& h.root_ptr.offs == p.offs
                    &&& h.root_ptr.size == p.size
                    &&& h.root_ptr.object_id@ == p.object_id@
                    &&& h.root_ptr.hash@ == p.hash@
                    &&& h.root_ptr.tag@ == p.tag@
                    &&& variant_matches(&h.key, m)
                    &&& h.key.spec_convergence() == ck
                },
    {
        match self {
            KeySource::Symmetric(s) => {
                match open_header_with_key(s.master_key.expose_secret(), sealed) {
                    Ok(t) => {
                        let ks = keysource_for_mode(t.1, s.master_key.clone(), t.2);
                        Ok(CleartextHeader { root_ptr: t.0, key: ks })
                    },
                    Err(e) => Err(e),
                }
            },
            KeySource::Yubikey(y) => {
                let chall = crate::chunks::copy_range(sealed, 448, HEADER_SIZE);
                let resp = match &y.ykconfig {
                    Some(c) => challenge_response(c, chall.as_slice()),
                    None => {
                        match find_device() {
                            Ok(c) => challenge_response(&c, chall.as_slice()),
                            Err(e) => Err(e),
                        }
                    },
                };
                let resp = match resp {
                    Ok(v) => v,
                    Err(e) => {
                        return Err(e);
                    },
                };
                open_root_with_response(&y.master_key, sealed, resp.as_slice())
            },
        }
    }
}

/// Opens a hardware-sealed root header given the device's response to its
/// stored challenge; the recovered source is the hardware variant wrapping
/// the keys the header carried.
///
/// Success is owed exactly when the header is the seal of some payload
/// under the key this master and response derive, and the header's own
/// nonce.
pub fn open_root_with_response(master: &RawKey, sealed: &[u8], response: &[u8]) -> (r: Result<
    CleartextHeader,
    CryptoError,
>)
    requires
        master.wf(),
        sealed@.len() == HEADER_SIZE,
    ensures
        match r {
            Ok(h) => h.root_ptr.wf() && h.key.wf() && h.key is Yubikey && h.key.spec_master()
                == master@ && exists|pl: Seq<u8>|
                #![auto]
                {
                    &&& pl.len() == HEADER_PAYLOAD
                    &&& sealed@.subrange(0, 420) == crate::crypto::gcm_ct(
                        yubikey_header_key_of(master@, response@),
                        sealed@.subrange(436, 448),
                        pl,
                    )
                    &&& sealed@.subrange(420, 436) == crate::crypto::gcm_tag(
                        yubikey_header_key_of(master@, response@),
                        sealed@.subrange(436, 448),
                        pl,
                    )
                    &&& pl[88] == mode_byte(h.key->Yubikey_0.spec_mode())
                },
            Err(e) => e == CryptoError::AeadFailed || e == CryptoError::InvalidHeader,
        },
        forall|p: ChunkPointer, m: Mode, ck: Seq<u8>|
            p.wf() && ck.len() == KEY_SIZE && sealed@.subrange(0, 420) == crate::crypto::gcm_ct(
                yubikey_header_key_of(master@, response@),
                sealed@.subrange(436, 448),
                payload_of(p, m, ck),
            ) && sealed@.subrange(420, 436) == crate::crypto::gcm_tag(
                yubikey_header_key_of(master@, response@),
                sealed@.subrange(436, 448),
                payload_of(p, m, ck),
            ) ==> r is Ok && {
                let h = r->Ok_0;
                &&& h.root_ptr.offs == p.offs
                &&& h.root_ptr.size == p.size
                &&& h.root_ptr.object_id@ == p.object_id@
                &&& h.root_ptr.hash@ == p.hash@
                &&& h.root_ptr.tag@ == p.tag@
                &&& h.key.spec_convergence() == ck
                &&& h.key->Yubikey_0.spec_mode() == m
            },
{
    let key = yubikey_header_key(master, response);
    match open_header_with_key(&key, sealed) {
        Ok(t) => {
            let inner = Symmetric::assemble(master.clone(), t.2.clone());
            let ks = KeySource::Yubikey(
                YubikeyCR {
                    inner,
                    master_key: master.clone(),
                    mode: t.1,
                    ykconfig: None,
                },
            );
            Ok(CleartextHeader { root_ptr: t.0, key: ks })
        },
        Err(e) => Err(e),
    }
}

} // verus!
