//! The chunk writer: seals chunks into the current object, rotates objects
//! on capacity exhaustion, and persists finalized objects via the backend.
use vstd::prelude::*;
use crate::backend::Backend;
use crate::chunks::{ChunkPointer, HASH_SIZE};
use crate::codec::seal_chunk;
use crate::crypto::ChunkKey;
use crate::object::{Object, ObjectError, SeekFrom, WriteObject};
use crate::BLOCK_SIZE;

verus! {

/// A sink for `(hash, data)` chunks.
///
/// An `Ok` pointer is well formed, records the chunk's size and hash, and a
/// chunk larger than one object is refused as `ChunkTooLarge` with the
/// offending and the largest permitted size. Every operation preserves the
/// implementation's invariant.
pub trait Writer {
    /// The implementation's invariant, preserved by both operations.
    spec fn inv(&self) -> bool;

    fn write_chunk(&mut self, hash: &Vec<u8>, data: &[u8]) -> (r: Result<
        ChunkPointer,
        ObjectError,
    >)
        requires
            hash@.len() == HASH_SIZE,
        ensures
            old(self).inv() ==> final(self).inv(),
            match r {
                Ok(p) => {
                    &&& p.wf()
                    &&& p.size == data@.len()
                    &&& p.hash@ == hash@
                    &&& data@.len() <= BLOCK_SIZE
                },
                Err(e) => e matches ObjectError::ChunkTooLarge { max_size, size } ==> max_size
                    == BLOCK_SIZE && size == data@.len() && data@.len() > BLOCK_SIZE,
            },
    ;

    /// Persists everything handed to `write_chunk` so far.
    fn flush(&mut self) -> (r: Result<(), ObjectError>)
        ensures
            old(self).inv() ==> final(self).inv(),
    ;
}

/// A writer that seals chunks into objects under a chunk key and persists
/// full objects to its backend.
pub struct AEADWriter<B> {
    object: WriteObject,
    crypto: ChunkKey,
    backend: B,
    dirty: bool,
}

impl<B: Backend> AEADWriter<B> {
    pub closed spec fn wf(&self) -> bool {
        &&& self.object.wf()
        &&& self.crypto.wf()
    }

    /// The current object's cursor.
    pub closed spec fn spec_cursor(&self) -> usize {
        self.object.spec_cursor()
    }

    /// The current object's identifier bytes.
    pub closed spec fn spec_object_id(&self) -> Seq<u8> {
        self.object.spec_id()
    }

    /// The current object's buffer contents.
    pub closed spec fn spec_contents(&self) -> Seq<u8> {
        self.object.contents()
    }

    /// The chunk key.
    pub closed spec fn spec_key(&self) -> Seq<u8> {
        self.crypto@
    }

    /// Whether the current object holds chunks not yet persisted.
    pub closed spec fn spec_dirty(&self) -> bool {
        self.dirty
    }

    /// A fresh writer over an empty object.
    pub fn new(backend: B, crypto: ChunkKey) -> (r: AEADWriter<B>)
        requires
            crypto.wf(),
        ensures
            r.wf(),
            r.spec_cursor() == 0,
    {
        AEADWriter { object: Object::default(), crypto, backend, dirty: false }
    }

    /// Randomizes the tail of the current object, persists it, and starts a
    /// fresh one.
    fn rotate(&mut self) -> (r: Result<(), ObjectError>)
        requires
            old(self).wf(),
        ensures
            final(self).wf(),
            r is Ok ==> final(self).spec_cursor() == 0 && !final(self).spec_dirty(),
            r matches Err(e) ==> (e == ObjectError::Backend || e == ObjectError::Io || e
                == ObjectError::Fatal),
    {
        match self.object.finalize() {
            Ok(_) => {},
            Err(e) => {
                return Err(e);
            },
        }
        let res = self.backend.write_object(self.object.id(), self.object.as_inner());
        match res {
            Ok(_) => {
                match self.object.seek(SeekFrom::Start(0)) {
                    Ok(_) => {
                        self.dirty = false;
                        Ok(())
                    },
                    Err(_) => Err(ObjectError::Fatal),
                }
            },
            Err(e) => Err(e),
        }
    }
}

impl<B: Backend> Writer for AEADWriter<B> {
    open spec fn inv(&self) -> bool {
        self.wf()
    }

    /// Seals `data` into the current object at the cursor; the pointer's
    /// fields address exactly the sealed bytes. Success is owed whenever
    /// the chunk fits the current, already-started object: no backend call
    /// is then made, no randomness is drawn, and sealing depends on the
    /// arguments alone.
    fn write_chunk(&mut self, hash: &Vec<u8>, data: &[u8]) -> (r: Result<
        ChunkPointer,
        ObjectError,
    >)
        ensures
            data@.len() > BLOCK_SIZE ==> r == Err::<ChunkPointer, ObjectError>(
                ObjectError::ChunkTooLarge { max_size: BLOCK_SIZE, size: data@.len() as usize },
            ),
            old(self).wf() && old(self).spec_dirty() && data@.len() <= BLOCK_SIZE && old(
                self,
            ).spec_cursor() + data@.len() <= BLOCK_SIZE ==> r is Ok,
            r matches Err(e) ==> (e matches ObjectError::ChunkTooLarge { .. } || e
                == ObjectError::Backend || e == ObjectError::Io || e == ObjectError::Fatal),
            r matches Ok(p) ==> {
                &&& p.offs + p.size <= BLOCK_SIZE
                &&& p.object_id@ == final(self).spec_object_id()
                &&& final(self).spec_contents().subrange(p.offs as int, p.offs + p.size)
                    == crate::codec::chunk_ct_of(
                    final(self).spec_key(),
                    p.object_id@,
                    p.offs,
                    hash@,
                    data@,
                )
                &&& p.tag@ == crate::codec::chunk_tag_of(
                    final(self).spec_key(),
                    p.object_id@,
                    p.offs,
                    hash@,
                    data@,
                )
            },
    {
        if data.len() > BLOCK_SIZE {
            return Err(ObjectError::ChunkTooLarge { max_size: BLOCK_SIZE, size: data.len() });
        }
        if !self.object.check_wf() || !self.crypto.check_wf() {
            return Err(ObjectError::Fatal);
        }
        if self.object.position() + data.len() > BLOCK_SIZE {
            match self.rotate() {
                Ok(_) => {},
                Err(e) => {
                    return Err(e);
                },
            }
        }
        if !self.dirty {
            // A fresh identifier per object: drawn when its first chunk
            // arrives, so cloned writers never share an identifier.
            match self.object.reset_id() {
                Ok(_) => {},
                Err(e) => {
                    return Err(e);
                },
            }
        }
        let offs_usize: usize = self.object.position();
        let offs: u32 = offs_usize as u32;
        let sealed = seal_chunk(&self.crypto, self.object.id(), offs, hash.as_slice(), data);
        match sealed {
            Ok((ct, tag)) => {
                match self.object.write(ct.as_slice()) {
                    Ok(_) => {
                        self.dirty = true;
                        let hash_copy = hash.clone();
                        proof {
                            assert(hash_copy@ =~= hash@);
                        }
                        Ok(
                            ChunkPointer {
                                object_id: self.object.id().clone(),
                                offs,
                                size: ct.len() as u32,
                                hash: hash_copy,
                                tag,
                            },
                        )
                    },
                    Err(_) => Err(ObjectError::Fatal),
                }
            },
            Err(_) => Err(ObjectError::Fatal),
        }
    }

    /// Persists the current object if any chunk was written into it; the
    /// writer stays usable with a fresh object. With nothing to persist no
    /// outside call is made, so success is owed and the writer unchanged.
    fn flush(&mut self) -> (r: Result<(), ObjectError>)
        ensures
            old(self).wf() && !old(self).spec_dirty() ==> r is Ok && *final(self) == *old(self),
            r is Ok && old(self).wf() && old(self).spec_dirty() ==> final(self).spec_cursor()
                == 0 && !final(self).spec_dirty(),
            r matches Err(e) ==> (e == ObjectError::Backend || e == ObjectError::Io || e
                == ObjectError::Fatal),
    {
        if !self.object.check_wf() || !self.crypto.check_wf() {
            return Err(ObjectError::Fatal);
        }
        if !self.dirty {
            return Ok(());
        }
        match self.rotate() {
            Ok(_) => Ok(()),
            Err(e) => Err(e),
        }
    }
}

impl<B: Backend + Clone> Clone for AEADWriter<B> {
    /// A clone starts with its own empty object but shares the chunk key
    /// and whatever its backend's clone shares.
    fn clone(&self) -> (r: Self)
        ensures
            self.wf() ==> r.wf(),
    {
        AEADWriter {
            object: Object::default(),
            crypto: self.crypto.clone(),
            backend: self.backend.clone(),
            dirty: false,
        }
    }
}

} // verus!
