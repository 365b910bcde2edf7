//! The chunk reader: fetches the referenced object and recovers a chunk's
//! plaintext into a caller buffer.
use vstd::prelude::*;
use vstd::pervasive::VecAdditionalExecFns;
use crate::backend::Backend;
use crate::chunks::ChunkPointer;
use crate::codec::{chunk_ct_of, chunk_tag_of, open_chunk};
use crate::crypto::ChunkKey;
use crate::object::ObjectError;

verus! {

/// A source of chunk plaintexts addressed by pointers. An `Ok` length is
/// the pointer's recorded size, and the target keeps its length.
pub trait Reader {
    fn read_chunk(&mut self, pointer: &ChunkPointer, target: &mut Vec<u8>) -> (r: Result<
        usize,
        ObjectError,
    >)
        ensures
            r matches Ok(n) ==> n == pointer.size && final(target)@.len() == old(target)@.len(),
    ;
}

/// Recovers the chunk `pointer` addresses inside the object bytes `bytes`,
/// writing the plaintext over the head of `target`.
///
/// Success is owed exactly when the addressed range carries the seal of some
/// plaintext for this `(key, object, offset, hash)` and `target` can hold
/// it; the plaintext written is then that sealed content, byte for byte.
pub fn read_chunk_from_bytes(
    key: &ChunkKey,
    bytes: &[u8],
    pointer: &ChunkPointer,
    target: &mut Vec<u8>,
) -> (r: Result<usize, ObjectError>)
    requires
        key.wf(),
        pointer.wf(),
    ensures
        match r {
            Ok(n) => {
                &&& n == pointer.size
                &&& pointer.offs + pointer.size <= bytes@.len()
                &&& n <= old(target)@.len()
                &&& final(target)@.len() == old(target)@.len()
                &&& final(target)@.skip(n as int) == old(target)@.skip(n as int)
                &&& bytes@.subrange(pointer.offs as int, pointer.offs + pointer.size)
                    == chunk_ct_of(
                    key@,
                    pointer.object_id@,
                    pointer.offs,
                    pointer.hash@,
                    final(target)@.take(n as int),
                )
                &&& pointer.tag@ == chunk_tag_of(
                    key@,
                    pointer.object_id@,
                    pointer.offs,
                    pointer.hash@,
                    final(target)@.take(n as int),
                )
            },
            Err(e) => {
                &&& final(target)@ == old(target)@
                &&& (e == ObjectError::Backend || e == ObjectError::AeadFailed || e matches
                    ObjectError::BufferTooSmall { .. })
                &&& (e == ObjectError::Backend ==> pointer.offs + pointer.size > bytes@.len())
                &&& (e matches ObjectError::BufferTooSmall { min_size } ==> min_size
                    == pointer.size && old(target)@.len() < pointer.size)
                &&& (pointer.offs + pointer.size <= bytes@.len() && old(target)@.len()
                    < pointer.size ==> e == (ObjectError::BufferTooSmall {
                    min_size: pointer.size as usize,
                }))
            },
        },
        forall|pt: Seq<u8>|
            pointer.offs + pointer.size <= bytes@.len() && old(target)@.len() >= pointer.size
                && bytes@.subrange(pointer.offs as int, pointer.offs + pointer.size)
                == chunk_ct_of(key@, pointer.object_id@, pointer.offs, pointer.hash@, pt)
                && pointer.tag@ == chunk_tag_of(
                key@,
                pointer.object_id@,
                pointer.offs,
                pointer.hash@,
                pt,
            ) && pt.len() == pointer.size ==> r is Ok && final(target)@.take(
                pointer.size as int,
            ) == pt,
{
    let offs: usize = pointer.offs as usize;
    let size: usize = pointer.size as usize;
    if size > bytes.len() || offs > bytes.len() - size {
        return Err(ObjectError::Backend);
    }
    if target.len() < size {
        return Err(ObjectError::BufferTooSmall { min_size: size });
    }
    let ct = crate::chunks::copy_range(bytes, offs, offs + size);
    let opened = open_chunk(
        key,
        &pointer.object_id,
        pointer.offs,
        pointer.hash.as_slice(),
        ct.as_slice(),
        pointer.tag.as_slice(),
    );
    match opened {
        Ok(pt) => {
            let n: usize = pt.len();
            let mut i: usize = 0;
            while i < n
                invariant
                    0 <= i <= n,
                    n == pt@.len() <= target@.len(),
                    target@.len() == old(target)@.len(),
                    forall|j: int| 0 <= j < i ==> target@[j] == pt@[j],
                    forall|j: int| i <= j < target@.len() ==> target@[j] == old(target)@[j],
                decreases n - i,
            {
                let b = pt[i];
                target.set(i, b);
                i = i + 1;
            }
            proof {
                assert(target@.take(n as int) =~= pt@);
                assert(target@.skip(n as int) =~= old(target)@.skip(n as int));
                assert(ct@ =~= bytes@.subrange(
                    pointer.offs as int,
                    pointer.offs + pointer.size,
                ));
            }
            Ok(n)
        },
        Err(_) => {
            proof {
                assert(ct@ =~= bytes@.subrange(
                    pointer.offs as int,
                    pointer.offs + pointer.size,
                ));
            }
            Err(ObjectError::AeadFailed)
        },
    }
}

/// A reader that fetches objects from its backend and opens chunks under a
/// chunk key.
pub struct AEADReader<B> {
    backend: B,
    crypto: ChunkKey,
}

impl<B: Backend> AEADReader<B> {
    pub closed spec fn wf(&self) -> bool {
        self.crypto.wf()
    }

    /// The chunk key this reader opens with.
    pub closed spec fn spec_key(&self) -> Seq<u8> {
        self.crypto@
    }

    /// A reader over `backend` with chunk key `crypto`. No backend call is
    /// made.
    pub fn new(backend: B, crypto: ChunkKey) -> (r: AEADReader<B>)
        requires
            crypto.wf(),
        ensures
            r.wf(),
            r.spec_key() == crypto@,
    {
        AEADReader { backend, crypto }
    }
}

impl<B: Backend> Reader for AEADReader<B> {
    /// Fetches the object `pointer` refers to and recovers the chunk into
    /// `target`, returning the plaintext length. Whatever the backend
    /// returned, an `Ok` prefix is authenticated: the pointer's tag is the
    /// seal of exactly the bytes handed back, under this reader's key at
    /// the pointer's position.
    fn read_chunk(&mut self, pointer: &ChunkPointer, target: &mut Vec<u8>) -> (r: Result<
        usize,
        ObjectError,
    >)
        ensures
            final(self).spec_key() == old(self).spec_key(),
            r matches Ok(n) ==> {
                &&& final(target)@.skip(n as int) == old(target)@.skip(n as int)
                &&& pointer.tag@ == crate::codec::chunk_tag_of(
                    old(self).spec_key(),
                    pointer.object_id@,
                    pointer.offs,
                    pointer.hash@,
                    final(target)@.take(n as int),
                )
            },
            r matches Err(e) ==> {
                &&& final(target)@ == old(target)@
                &&& (e == ObjectError::Backend || e == ObjectError::Io || e == ObjectError::Fatal
                    || e == ObjectError::AeadFailed || e matches ObjectError::BufferTooSmall {
                    ..
                })
                &&& (e matches ObjectError::BufferTooSmall { min_size } ==> min_size
                    == pointer.size && old(target)@.len() < pointer.size)
            },
    {
        if !self.crypto.check_wf() || !pointer.check_wf() {
            return Err(ObjectError::Fatal);
        }
        let bytes = match self.backend.read_object(&pointer.object_id) {
            Ok(v) => v,
            Err(e) => {
                return Err(e);
            },
        };
        read_chunk_from_bytes(&self.crypto, bytes.as_slice(), pointer, target)
    }
}

} // verus!
