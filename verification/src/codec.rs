//! The chunk codec: authenticated sealing and opening of one chunk inside an
//! object, with a per-chunk key and a deterministic nonce so that identical
//! content at the same position seals to identical bytes.
//!
//! The compression step of the pipeline is the identity here: chunks are
//! stored uncompressed, so the sealed size equals the chunk size, and
//! decompression on read is a plain copy.
use vstd::prelude::*;
use crate::chunks::{copy_range, le32, push_le32, HASH_SIZE};
use crate::crypto::{
    aead_open, aead_seal, blake3_kdf, derive_key, gcm_ct, gcm_tag, ChunkKey, CryptoError,
};
use crate::id::ObjectId;

verus! {

/// Per-chunk AEAD key: derived from the chunk key and the content hash, so
/// that equal content seals under equal key material.
pub open spec fn chunk_subkey_of(key: Seq<u8>, hash: Seq<u8>) -> Seq<u8> {
    blake3_kdf("zerostash.com 2022 chunk sealing key"@, key + hash)
}

/// Deterministic 12-byte chunk nonce, a function of the destination object,
/// the offset inside it, and the content hash.
pub open spec fn chunk_nonce_of(id: Seq<u8>, offs: u32, hash: Seq<u8>) -> Seq<u8> {
    blake3_kdf("zerostash.com 2022 chunk nonce"@, id + le32(offs) + hash).take(12)
}

/// The ciphertext a chunk seals to at `(id, offs)` under `key`.
pub open spec fn chunk_ct_of(
    key: Seq<u8>,
    id: Seq<u8>,
    offs: u32,
    hash: Seq<u8>,
    data: Seq<u8>,
) -> Seq<u8> {
    gcm_ct(chunk_subkey_of(key, hash), chunk_nonce_of(id, offs, hash), data)
}

/// The tag a chunk seals to at `(id, offs)` under `key`.
pub open spec fn chunk_tag_of(
    key: Seq<u8>,
    id: Seq<u8>,
    offs: u32,
    hash: Seq<u8>,
    data: Seq<u8>,
) -> Seq<u8> {
    gcm_tag(chunk_subkey_of(key, hash), chunk_nonce_of(id, offs, hash), data)
}

/// Convergent ciphertext: sealed bytes and tag are functions of the chunk
/// key, destination and content alone, so sealing the same `(hash, data)`
/// into the same object at the same offset yields identical ciphertext.
pub proof fn lemma_convergent_ciphertext(
    key: Seq<u8>,
    id: Seq<u8>,
    offs: u32,
    hash: Seq<u8>,
    d1: Seq<u8>,
    d2: Seq<u8>,
)
    requires
        d1 == d2,
    ensures
        chunk_ct_of(key, id, offs, hash, d1) == chunk_ct_of(key, id, offs, hash, d2),
        chunk_tag_of(key, id, offs, hash, d1) == chunk_tag_of(key, id, offs, hash, d2),
{
}

/// Derives the per-chunk AEAD key.
fn derive_chunk_subkey(key: &ChunkKey, hash: &[u8]) -> (r: Vec<u8>)
    ensures
        r@ == chunk_subkey_of(key@, hash@),
        r@.len() == 32,
{
    let mut material: Vec<u8> = Vec::new();
    material.extend_from_slice(key.expose_secret().as_slice());
    material.extend_from_slice(hash);
    proof {
        assert(material@ =~= key@ + hash@);
    }
    derive_key("zerostash.com 2022 chunk sealing key", material.as_slice())
}

/// Derives the deterministic chunk nonce.
fn derive_chunk_nonce(id: &ObjectId, offs: u32, hash: &[u8]) -> (r: Vec<u8>)
    ensures
        r@ == chunk_nonce_of(id@, offs, hash@),
        r@.len() == 12,
{
    let mut material: Vec<u8> = Vec::new();
    material.extend_from_slice(id.as_bytes().as_slice());
    push_le32(&mut material, offs);
    material.extend_from_slice(hash);
    proof {
        assert(material@ =~= id@ + le32(offs) + hash@);
    }
    let k = derive_key("zerostash.com 2022 chunk nonce", material.as_slice());
    let r = copy_range(k.as_slice(), 0, 12);
    proof {
        assert(r@ =~= chunk_nonce_of(id@, offs, hash@));
    }
    r
}

/// Seals `data` for position `(id, offs)`: returns the ciphertext (same
/// length as `data`) and the 16-byte tag. Sealing depends on the arguments
/// alone and succeeds for every input the AEAD admits.
pub fn seal_chunk(key: &ChunkKey, id: &ObjectId, offs: u32, hash: &[u8], data: &[u8]) -> (r:
    Result<(Vec<u8>, Vec<u8>), CryptoError>)
    requires
        key.wf(),
        id.wf(),
        hash@.len() == HASH_SIZE,
    ensures
        data@.len() <= 68719476704 ==> r is Ok,
        match r {
            Ok(p) => p.0@ == chunk_ct_of(key@, id@, offs, hash@, data@) && p.1@ == chunk_tag_of(
                key@,
                id@,
                offs,
                hash@,
                data@,
            ) && p.0@.len() == data@.len() && p.1@.len() == 16,
            Err(e) => e == CryptoError::Fatal,
        },
{
    let subkey = derive_chunk_subkey(key, hash);
    let nonce = derive_chunk_nonce(id, offs, hash);
    let mut buf = copy_range(data, 0, data.len());
    proof {
        assert(buf@ =~= data@);
    }
    match aead_seal(&subkey, &nonce, &mut buf) {
        Ok(tag) => Ok((buf, tag)),
        Err(e) => Err(e),
    }
}

/// Opens a sealed chunk: returns the plaintext exactly when `(ct, tag)` is
/// the seal of that plaintext for `(key, id, offs, hash)`.
pub fn open_chunk(
    key: &ChunkKey,
    id: &ObjectId,
    offs: u32,
    hash: &[u8],
    ct: &[u8],
    tag: &[u8],
) -> (r: Result<Vec<u8>, CryptoError>)
    requires
        key.wf(),
        id.wf(),
        hash@.len() == HASH_SIZE,
        tag@.len() == 16,
    ensures
        match r {
            Ok(pt) => ct@ == chunk_ct_of(key@, id@, offs, hash@, pt@) && tag@ == chunk_tag_of(
                key@,
                id@,
                offs,
                hash@,
                pt@,
            ) && pt@.len() == ct@.len(),
            Err(e) => e == CryptoError::AeadFailed,
        },
        forall|pt: Seq<u8>|
            ct@ == chunk_ct_of(key@, id@, offs, hash@, pt) && tag@ == chunk_tag_of(
                key@,
                id@,
                offs,
                hash@,
                pt,
            ) ==> r is Ok && r->Ok_0@ == pt,
{
    let subkey = derive_chunk_subkey(key, hash);
    let nonce = derive_chunk_nonce(id, offs, hash);
    aead_open(&subkey, &nonce, ct, tag)
}

} // verus!
