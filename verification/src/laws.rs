//! Round-trip laws, stated as verified functions.
//!
//! Each function here composes a seal with the matching open and asserts
//! the recovered values equal the sealed ones; Verus proves the assertions
//! from the contracts of the composed functions, for every input the
//! signatures admit.
use vstd::prelude::*;
use crate::chunks::ChunkPointer;
use crate::codec::seal_chunk;
use crate::crypto::{ChunkKey, RawKey};
use crate::header::{open_header_with_key, seal_header_with_key, Mode, CHALLENGE_SIZE, NONCE_SIZE};
use crate::id::ObjectId;
use crate::reader::read_chunk_from_bytes;
use crate::KEY_SIZE;

verus! {

/// Header round trip: for every pointer, convergence key, nonce and
/// challenge, opening a freshly sealed header under the same key recovers
/// the pointer, the mode and the convergence key exactly. Returns whether
/// the seal itself succeeded.
pub fn header_seal_open_round_trip(
    key: &Vec<u8>,
    ptr: &ChunkPointer,
    ck: &RawKey,
    nonce: &Vec<u8>,
    chall: &Vec<u8>,
) -> (sealed_ok: bool)
    requires
        key@.len() == KEY_SIZE,
        ptr.wf(),
        ck.wf(),
        nonce@.len() == NONCE_SIZE,
        chall@.len() == CHALLENGE_SIZE,
{
    match seal_header_with_key(key, ptr, Mode::Symmetric, ck, nonce, chall) {
        Ok(h) => {
            match open_header_with_key(key, h.as_slice()) {
                Ok(t) => {
                    assert(t.0.offs == ptr.offs);
                    assert(t.0.size == ptr.size);
                    assert(t.0.object_id@ == ptr.object_id@);
                    assert(t.0.hash@ == ptr.hash@);
                    assert(t.0.tag@ == ptr.tag@);
                    assert(t.1 == Mode::Symmetric);
                    assert(t.2@ == ck@);
                },
                Err(_) => {
                    assert(false);
                },
            }
            true
        },
        Err(_) => false,
    }
}

/// Chunk round trip: for every chunk key, object, hash and data, reading a
/// freshly sealed chunk back through its pointer recovers the data byte for
/// byte. Returns whether the seal itself succeeded.
pub fn chunk_seal_read_round_trip(
    key: &ChunkKey,
    id: &ObjectId,
    hash: &Vec<u8>,
    data: &Vec<u8>,
    target: &mut Vec<u8>,
) -> (sealed_ok: bool)
    requires
        key.wf(),
        id.wf(),
        hash@.len() == 32,
        old(target)@.len() >= data@.len(),
        data@.len() <= 0xFFFF,
{
    match seal_chunk(key, id, 0, hash.as_slice(), data.as_slice()) {
        Ok((ct, tag)) => {
            let hash2 = hash.clone();
            proof {
                assert(hash2@ =~= hash@);
            }
            let p = ChunkPointer {
                object_id: id.clone(),
                offs: 0,
                size: ct.len() as u32,
                hash: hash2,
                tag,
            };
            proof {
                assert(ct@.subrange(0, p.size as int) =~= ct@);
                assert(ct@ == crate::codec::chunk_ct_of(
                    key@,
                    p.object_id@,
                    p.offs,
                    p.hash@,
                    data@,
                ));
                assert(p.tag@ == crate::codec::chunk_tag_of(
                    key@,
                    p.object_id@,
                    p.offs,
                    p.hash@,
                    data@,
                ));
            }
            match read_chunk_from_bytes(key, ct.as_slice(), &p, target) {
                Ok(n) => {
                    assert(target@.take(n as int) == data@);
                },
                Err(_) => {
                    assert(false);
                },
            }
            true
        },
        Err(_) => false,
    }
}

} // verus!
