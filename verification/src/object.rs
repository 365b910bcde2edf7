//! Fixed-capacity object buffers with cursor, read/write/seek semantics,
//! and the randomize/zeroize helpers the writer pipeline needs.
use vstd::prelude::*;
use vstd::pervasive::VecAdditionalExecFns;
use crate::crypto::fill_random_fallible;
use crate::id::ObjectId;
use crate::BLOCK_SIZE;

verus! {

/// Failures of the object pipeline.
#[derive(Clone, Copy, Debug, PartialEq, Eq, Structural)]
pub enum ObjectError {
    /// Underlying I/O failure, including out-of-range buffer access.
    Io,
    /// Backend-specific failure (missing object, authorization).
    Backend,
    /// Compression failed on corrupt input.
    Compress,
    /// Decompression failed on corrupt input.
    Decompress,
    /// The chunk cannot fit in one object; the caller must split it.
    ChunkTooLarge { max_size: usize, size: usize },
    /// The target buffer cannot hold the plaintext; the caller must resize.
    BufferTooSmall { min_size: usize },
    /// AEAD verification failed: corruption, wrong key, or wrong device.
    AeadFailed,
    /// Serialization of a nested value failed.
    Serialize,
    /// Deserialization of a nested value failed.
    Deserialize,
    /// Internal invariant breach or channel fault.
    Fatal,
}

/// A byte buffer a fixed-size object can be laid over.
pub trait Buffer: View<V = Seq<u8>> where Self: core::marker::Sized {
    /// The bytes of the buffer.
    fn as_slice(&self) -> (r: &[u8])
        ensures
            r@ == self@,
    ;

    /// A copy holding the same bytes.
    fn duplicate(&self) -> (r: Self)
        ensures
            r@ == self@,
    ;
}

/// An owned, writable `BLOCK_SIZE` buffer backing objects under
/// construction.
pub struct BlockBuffer {
    data: Vec<u8>,
}

impl View for BlockBuffer {
    type V = Seq<u8>;

    closed spec fn view(&self) -> Seq<u8> {
        self.data@
    }
}

impl Buffer for BlockBuffer {
    fn as_slice(&self) -> (r: &[u8])
        ensures
            r@ == self@,
    {
        self.data.as_slice()
    }

    fn duplicate(&self) -> (r: Self)
        ensures
            r@ == self@,
    {
        let data = self.data.clone();
        proof {
            assert(data@ =~= self.data@);
        }
        BlockBuffer { data }
    }
}

impl BlockBuffer {
    /// A zeroed buffer of `BLOCK_SIZE` bytes.
    pub fn new() -> (r: BlockBuffer)
        ensures
            r@.len() == BLOCK_SIZE,
            forall|i: int| 0 <= i < r@.len() ==> r@[i] == 0u8,
    {
        let data: Vec<u8> = vec![0u8; BLOCK_SIZE];
        BlockBuffer { data }
    }
}

impl Clone for BlockBuffer {
    fn clone(&self) -> (r: Self)
        ensures
            r@ == self@,
    {
        let data = self.data.clone();
        proof {
            assert(data@ =~= self.data@);
        }
        BlockBuffer { data }
    }
}

impl Default for BlockBuffer {
    fn default() -> (r: Self)
        ensures
            r@.len() == BLOCK_SIZE,
    {
        BlockBuffer::new()
    }
}

/// An immutable buffer holding the bytes of an object fetched from the
/// backend.
pub struct ReadBuffer {
    data: Vec<u8>,
}

impl View for ReadBuffer {
    type V = Seq<u8>;

    closed spec fn view(&self) -> Seq<u8> {
        self.data@
    }
}

impl Buffer for ReadBuffer {
    fn as_slice(&self) -> (r: &[u8])
        ensures
            r@ == self@,
    {
        self.data.as_slice()
    }

    fn duplicate(&self) -> (r: Self)
        ensures
            r@ == self@,
    {
        let data = self.data.clone();
        proof {
            assert(data@ =~= self.data@);
        }
        ReadBuffer { data }
    }
}

impl ReadBuffer {
    /// Wraps fetched bytes in a read buffer.
    pub fn new(buf: Vec<u8>) -> (r: ReadBuffer)
        ensures
            r@ == buf@,
    {
        ReadBuffer { data: buf }
    }

    /// Wraps an already-owned byte vector in a read buffer.
    pub fn with_inner(buf: Vec<u8>) -> (r: ReadBuffer)
        ensures
            r@ == buf@,
    {
        ReadBuffer { data: buf }
    }
}

/// A seek target inside an object buffer.
#[derive(Clone, Copy, Debug, PartialEq, Eq, Structural)]
pub enum SeekFrom {
    Start(u64),
    End(i64),
    Current(i64),
}

/// A fixed-capacity object: an identifier, a `BLOCK_SIZE` buffer and a
/// cursor. The cursor never exceeds `BLOCK_SIZE`.
pub struct Object<T> {
    id: ObjectId,
    buffer: T,
    cursor: usize,
}

/// An object whose buffer is writable.
pub type WriteObject = Object<BlockBuffer>;

/// An object wrapping bytes fetched from the backend.
pub type ReadObject = Object<ReadBuffer>;

impl<T: Buffer> Object<T> {
    /// The object's identifier bytes.
    pub closed spec fn spec_id(&self) -> Seq<u8> {
        self.id@
    }

    /// The bytes of the object's buffer.
    pub closed spec fn contents(&self) -> Seq<u8> {
        self.buffer@
    }

    /// The cursor.
    pub closed spec fn spec_cursor(&self) -> usize {
        self.cursor
    }

    /// The object's invariant: full-size buffer, in-range cursor, well-formed
    /// identifier.
    pub open spec fn wf(&self) -> bool {
        &&& self.contents().len() == BLOCK_SIZE
        &&& self.spec_cursor() <= BLOCK_SIZE
        &&& self.spec_id().len() == 32
    }

    /// Runtime check of the object invariant.
    pub fn check_wf(&self) -> (r: bool)
        ensures
            r == self.wf(),
    {
        let len_ok: bool = self.buffer.as_slice().len() == BLOCK_SIZE;
        let cur_ok: bool = self.cursor <= BLOCK_SIZE;
        let id_ok: bool = self.id.as_bytes().len() == 32;
        len_ok && cur_ok && id_ok
    }

    /// An object over `buffer` with the all-zero identifier and cursor 0.
    pub fn new(buffer: T) -> (r: Object<T>)
        ensures
            r.contents() == buffer@,
            r.spec_cursor() == 0,
            r.spec_id() == Seq::new(32nat, |i: int| 0u8),
    {
        Object { id: ObjectId::default(), cursor: 0, buffer }
    }

    /// An object over `buffer` carrying identifier `id`.
    pub fn with_id(id: ObjectId, buffer: T) -> (r: Object<T>)
        ensures
            r.contents() == buffer@,
            r.spec_cursor() == 0,
            r.spec_id() == id@,
    {
        let mut object = Object { id: ObjectId::default(), cursor: 0, buffer };
        object.set_id(id);
        object
    }

    /// Replaces the identifier with fresh random bytes; a failing entropy
    /// source is surfaced, never masked.
    pub fn reset_id(&mut self) -> (r: Result<(), ObjectError>)
        ensures
            final(self).contents() == old(self).contents(),
            final(self).spec_cursor() == old(self).spec_cursor(),
            match r {
                Ok(_) => final(self).spec_id().len() == 32,
                Err(e) => e == ObjectError::Fatal && final(self).spec_id() == old(
                    self,
                ).spec_id(),
            },
    {
        match self.id.reset() {
            Ok(_) => Ok(()),
            Err(_) => Err(ObjectError::Fatal),
        }
    }

    /// The object's identifier.
    pub fn id(&self) -> (r: &ObjectId)
        ensures
            r@ == self.spec_id(),
    {
        &self.id
    }

    /// Replaces the object's identifier.
    pub fn set_id(&mut self, id: ObjectId)
        ensures
            final(self).spec_id() == id@,
            final(self).contents() == old(self).contents(),
            final(self).spec_cursor() == old(self).spec_cursor(),
    {
        self.id = id;
    }

    /// The fixed capacity of every object.
    pub fn capacity(&self) -> (r: usize)
        ensures
            r == BLOCK_SIZE,
    {
        BLOCK_SIZE
    }

    /// The current cursor.
    pub fn position(&self) -> (r: usize)
        ensures
            r == self.spec_cursor(),
    {
        self.cursor
    }

    /// Mutable access to the cursor; the caller may move it freely, and
    /// owns re-establishing `wf` before using bounded operations.
    pub fn position_mut(&mut self) -> (r: &mut usize)
        ensures
            *r == old(self).spec_cursor(),
            final(self).spec_cursor() == *final(r),
            final(self).contents() == old(self).contents(),
            final(self).spec_id() == old(self).spec_id(),
    {
        &mut self.cursor
    }

    /// The object's bytes.
    pub fn as_inner(&self) -> (r: &[u8])
        ensures
            r@ == self.contents(),
    {
        self.buffer.as_slice()
    }

    /// Reads `buf.len()` bytes at the cursor into `buf`, advancing it.
    /// Fails with `Io` when fewer bytes remain.
    pub fn read(&mut self, buf: &mut Vec<u8>) -> (r: Result<usize, ObjectError>)
        ensures
            final(self).contents() == old(self).contents(),
            final(self).spec_id() == old(self).spec_id(),
            final(buf)@.len() == old(buf)@.len(),
            match r {
                Ok(n) => {
                    &&& n == old(buf)@.len()
                    &&& old(self).spec_cursor() + n <= old(self).contents().len()
                    &&& final(buf)@ == old(self).contents().subrange(
                        old(self).spec_cursor() as int,
                        old(self).spec_cursor() + n,
                    )
                    &&& final(self).spec_cursor() == old(self).spec_cursor() + n
                },
                Err(e) => {
                    &&& e == ObjectError::Io
                    &&& old(self).spec_cursor() + old(buf)@.len() > old(self).contents().len()
                    &&& final(self).spec_cursor() == old(self).spec_cursor()
                    &&& final(buf)@ == old(buf)@
                },
            },
    {
        let n: usize = buf.len();
        if n > self.buffer.as_slice().len() || self.cursor > self.buffer.as_slice().len() - n {
            return Err(ObjectError::Io);
        }
        let end: usize = self.cursor + n;
        let inner = self.buffer.as_slice();
        let mut i: usize = 0;
        while i < n
            invariant
                0 <= i <= n,
                n == buf@.len(),
                end == self.cursor + n,
                end <= inner@.len(),
                forall|j: int|
                    0 <= j < i ==> buf@[j] == inner@[self.cursor + j],
                forall|j: int| i <= j < n ==> buf@[j] == old(buf)@[j],
            decreases n - i,
        {
            let b = inner[self.cursor + i];
            buf.set(i, b);
            i = i + 1;
        }
        proof {
            assert(buf@ =~= self.contents().subrange(
                self.spec_cursor() as int,
                self.spec_cursor() + n,
            ));
        }
        self.cursor = end;
        Ok(n)
    }

    /// Moves the cursor. Out-of-range targets fail with `Io` and leave the
    /// cursor unchanged.
    pub fn seek(&mut self, pos: SeekFrom) -> (r: Result<u64, ObjectError>)
        requires
            old(self).spec_cursor() <= BLOCK_SIZE,
        ensures
            final(self).contents() == old(self).contents(),
            final(self).spec_id() == old(self).spec_id(),
            match r {
                Ok(n) => {
                    &&& n == final(self).spec_cursor()
                    &&& match pos {
                        SeekFrom::Start(s) => s <= BLOCK_SIZE && final(self).spec_cursor() == s,
                        SeekFrom::End(e) => 0 <= e <= BLOCK_SIZE && final(self).spec_cursor()
                            == BLOCK_SIZE - e,
                        SeekFrom::Current(c) => 0 <= old(self).spec_cursor() + c <= BLOCK_SIZE
                            && final(self).spec_cursor() == old(self).spec_cursor() + c,
                    }
                },
                Err(e_) => {
                    &&& e_ == ObjectError::Io
                    &&& final(self).spec_cursor() == old(self).spec_cursor()
                    &&& match pos {
                        SeekFrom::Start(s) => s > BLOCK_SIZE,
                        SeekFrom::End(e) => e < 0 || e > BLOCK_SIZE,
                        SeekFrom::Current(c) => old(self).spec_cursor() + c < 0 || old(
                            self,
                        ).spec_cursor() + c > BLOCK_SIZE,
                    }
                },
            },
    {
        let umax: u64 = BLOCK_SIZE as u64;
        let imax: i64 = BLOCK_SIZE as i64;
        match pos {
            SeekFrom::Start(s) => {
                if s > umax {
                    Err(ObjectError::Io)
                } else {
                    self.cursor = s as usize;
                    Ok(self.cursor as u64)
                }
            },
            SeekFrom::End(e) => {
                if e < 0 || e > imax {
                    Err(ObjectError::Io)
                } else {
                    self.cursor = BLOCK_SIZE - (e as usize);
                    Ok(self.cursor as u64)
                }
            },
            SeekFrom::Current(c) => {
                let cur: i64 = self.cursor as i64;
                if c < -cur || c > imax - cur {
                    Err(ObjectError::Io)
                } else {
                    let newp: i64 = cur + c;
                    self.cursor = newp as usize;
                    Ok(self.cursor as u64)
                }
            },
        }
    }
}

impl Object<BlockBuffer> {
    /// Mutable access to the whole buffer, for use as a scratch area; the
    /// caller owns keeping its length at `BLOCK_SIZE`.
    pub fn as_inner_mut(&mut self) -> (r: &mut Vec<u8>)
        ensures
            r@ == old(self).contents(),
            final(self).contents() == final(r)@,
            final(self).spec_id() == old(self).spec_id(),
            final(self).spec_cursor() == old(self).spec_cursor(),
    {
        &mut self.buffer.data
    }

    /// Zeroes the whole buffer; identifier and cursor stay.
    pub fn clear(&mut self)
        requires
            old(self).wf(),
        ensures
            final(self).wf(),
            final(self).contents().len() == old(self).contents().len(),
            forall|i: int| 0 <= i < final(self).contents().len() ==> final(self).contents()[i]
                == 0u8,
            final(self).spec_id() == old(self).spec_id(),
            final(self).spec_cursor() == old(self).spec_cursor(),
    {
        let n: usize = self.buffer.data.len();
        let mut i: usize = 0;
        while i < n
            invariant
                0 <= i <= n,
                n == self.buffer.data@.len(),
                self.id@ == old(self).spec_id(),
                self.cursor == old(self).spec_cursor(),
                forall|j: int| 0 <= j < i ==> self.buffer.data@[j] == 0u8,
            decreases n - i,
        {
            self.buffer.data.set(i, 0u8);
            i = i + 1;
        }
    }

    /// Overwrites the head of the buffer with `buf`.
    pub fn write_head(&mut self, buf: &[u8])
        requires
            old(self).wf(),
            buf@.len() <= BLOCK_SIZE,
        ensures
            final(self).wf(),
            final(self).contents() == buf@ + old(self).contents().skip(buf@.len() as int),
            final(self).spec_id() == old(self).spec_id(),
            final(self).spec_cursor() == old(self).spec_cursor(),
    {
        let n: usize = buf.len();
        let mut i: usize = 0;
        while i < n
            invariant
                0 <= i <= n,
                n == buf@.len() <= self.buffer.data@.len(),
                self.buffer.data@.len() == old(self).contents().len(),
                self.id@ == old(self).spec_id(),
                self.cursor == old(self).spec_cursor(),
                forall|j: int| 0 <= j < i ==> self.buffer.data@[j] == buf@[j],
                forall|j: int|
                    i <= j < self.buffer.data@.len() ==> self.buffer.data@[j] == old(
                        self,
                    ).contents()[j],
            decreases n - i,
        {
            let b = buf[i];
            self.buffer.data.set(i, b);
            i = i + 1;
        }
        proof {
            assert(self.contents() =~= buf@ + old(self).contents().skip(buf@.len() as int));
        }
    }

    /// Overwrites the first `size` bytes with random bytes; a failing
    /// entropy source is surfaced, never masked.
    pub fn randomize_head(&mut self, size: usize) -> (r: Result<(), ObjectError>)
        requires
            old(self).wf(),
            size <= BLOCK_SIZE,
        ensures
            final(self).wf(),
            final(self).spec_id() == old(self).spec_id(),
            final(self).spec_cursor() == old(self).spec_cursor(),
            match r {
                Ok(_) => {
                    &&& final(self).contents().len() == old(self).contents().len()
                    &&& final(self).contents().skip(size as int) == old(self).contents().skip(
                        size as int,
                    )
                },
                Err(e) => {
                    &&& e == ObjectError::Fatal
                    &&& final(self).contents() == old(self).contents()
                },
            },
    {
        let bytes = match fill_random_fallible(size) {
            Ok(v) => v,
            Err(_) => {
                return Err(ObjectError::Fatal);
            },
        };
        self.write_head(bytes.as_slice());
        proof {
            assert(self.contents().skip(size as int) =~= old(self).contents().skip(size as int));
        }
        Ok(())
    }

    /// Fills the tail `[cursor..BLOCK_SIZE)` with random bytes so a sealed
    /// object is indistinguishable from random; a failing entropy source is
    /// surfaced, never masked.
    pub fn finalize(&mut self) -> (r: Result<(), ObjectError>)
        requires
            old(self).wf(),
        ensures
            final(self).wf(),
            final(self).spec_id() == old(self).spec_id(),
            final(self).spec_cursor() == old(self).spec_cursor(),
            final(self).contents().len() == old(self).contents().len(),
            match r {
                Ok(_) => final(self).contents().take(old(self).spec_cursor() as int) == old(
                    self,
                ).contents().take(old(self).spec_cursor() as int),
                Err(e) => e == ObjectError::Fatal && final(self).contents() == old(
                    self,
                ).contents(),
            },
    {
        let cur: usize = self.cursor;
        let len: usize = BLOCK_SIZE - cur;
        let bytes = match fill_random_fallible(len) {
            Ok(v) => v,
            Err(_) => {
                return Err(ObjectError::Fatal);
            },
        };
        self.write_at(cur, bytes.as_slice());
        Ok(())
    }

    /// Writes `buf` at position `at` without moving the cursor.
    pub fn write_at(&mut self, at: usize, buf: &[u8])
        requires
            old(self).wf(),
            at + buf@.len() <= BLOCK_SIZE,
        ensures
            final(self).wf(),
            final(self).contents().len() == old(self).contents().len(),
            final(self).contents() == old(self).contents().take(at as int) + buf@ + old(
                self,
            ).contents().skip(at + buf@.len()),
            final(self).spec_id() == old(self).spec_id(),
            final(self).spec_cursor() == old(self).spec_cursor(),
    {
        let n: usize = buf.len();
        let mut i: usize = 0;
        while i < n
            invariant
                0 <= i <= n,
                n == buf@.len(),
                at + n <= BLOCK_SIZE,
                self.buffer.data@.len() == BLOCK_SIZE,
                self.buffer.data@.len() == old(self).contents().len(),
                self.id@ == old(self).spec_id(),
                self.cursor == old(self).spec_cursor(),
                forall|j: int| 0 <= j < at ==> self.buffer.data@[j] == old(self).contents()[j],
                forall|j: int| 0 <= j < i ==> self.buffer.data@[at + j] == buf@[j],
                forall|j: int|
                    at + i <= j < self.buffer.data@.len() ==> self.buffer.data@[j] == old(
                        self,
                    ).contents()[j],
            decreases n - i,
        {
            let b = buf[i];
            self.buffer.data.set(at + i, b);
            i = i + 1;
        }
        proof {
            assert(self.contents() =~= old(self).contents().take(at as int) + buf@ + old(
                self,
            ).contents().skip(at + buf@.len()));
        }
    }

    /// Appends `buf` at the cursor and advances it. Fails with `Io` when the
    /// write would pass `BLOCK_SIZE`.
    pub fn write(&mut self, buf: &[u8]) -> (r: Result<usize, ObjectError>)
        requires
            old(self).wf(),
        ensures
            final(self).wf(),
            final(self).spec_id() == old(self).spec_id(),
            match r {
                Ok(n) => {
                    &&& n == buf@.len()
                    &&& old(self).spec_cursor() + n <= BLOCK_SIZE
                    &&& final(self).contents() == old(self).contents().take(
                        old(self).spec_cursor() as int,
                    ) + buf@ + old(self).contents().skip(old(self).spec_cursor() + n)
                    &&& final(self).spec_cursor() == old(self).spec_cursor() + n
                },
                Err(e) => {
                    &&& e == ObjectError::Io
                    &&& old(self).spec_cursor() + buf@.len() > BLOCK_SIZE
                    &&& *final(self) == *old(self)
                },
            },
    {
        let n: usize = buf.len();
        if n > BLOCK_SIZE || self.cursor > BLOCK_SIZE - n {
            return Err(ObjectError::Io);
        }
        let at: usize = self.cursor;
        self.write_at(at, buf);
        self.cursor = at + n;
        Ok(n)
    }
}

impl<T: Buffer> Clone for Object<T> {
    /// A clone carries the same identifier, buffer bytes and cursor.
    fn clone(&self) -> (r: Self)
        ensures
            r.spec_id() == self.spec_id(),
            r.spec_cursor() == self.spec_cursor(),
            r.contents() == self.contents(),
    {
        Object { id: self.id.clone(), buffer: self.buffer.duplicate(), cursor: self.cursor }
    }
}

impl Default for Object<BlockBuffer> {
    /// A zeroed object with the all-zero identifier and cursor 0.
    fn default() -> (r: Self)
        ensures
            r.wf(),
            r.spec_cursor() == 0,
    {
        Object { id: ObjectId::default(), cursor: 0, buffer: BlockBuffer::new() }
    }
}

} // verus!
