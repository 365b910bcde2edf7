//! Chunk pointers: the opaque handles a writer returns and a reader
//! consumes, with their 88-byte wire encoding.
use vstd::prelude::*;
use crate::id::ObjectId;

verus! {

/// Length in bytes of a serialized chunk pointer.
pub const POINTER_SIZE: usize = 88;

/// Length in bytes of a content hash.
pub const HASH_SIZE: usize = 32;

/// Length in bytes of an AEAD authentication tag.
pub const TAG_SIZE: usize = 16;

/// Little-endian byte encoding of a 32-bit value.
pub open spec fn le32(x: u32) -> Seq<u8> {
    seq![
        (x & 0xff) as u8,
        ((x >> 8) & 0xff) as u8,
        ((x >> 16) & 0xff) as u8,
        ((x >> 24) & 0xff) as u8,
    ]
}

/// The 32-bit value read back from four little-endian bytes.
pub open spec fn le32_val(b0: u8, b1: u8, b2: u8, b3: u8) -> u32 {
    ((b0 as u32) | ((b1 as u32) << 8) | ((b2 as u32) << 16) | ((b3 as u32) << 24)) as u32
}

/// Reading four little-endian bytes returns the encoded value.
pub proof fn lemma_le32_round(x: u32)
    ensures
        le32_val(
            (x & 0xff) as u8,
            ((x >> 8) & 0xff) as u8,
            ((x >> 16) & 0xff) as u8,
            ((x >> 24) & 0xff) as u8,
        ) == x,
{
    assert((((x & 0xff) as u8) as u32) | ((((x >> 8) & 0xff) as u8) as u32) << 8 | ((((x >> 16)
        & 0xff) as u8) as u32) << 16 | ((((x >> 24) & 0xff) as u8) as u32) << 24 == x)
        by (bit_vector);
}

/// Appends the little-endian encoding of `x` to `out`.
pub fn push_le32(out: &mut Vec<u8>, x: u32)
    ensures
        final(out)@ == old(out)@ + le32(x),
{
    out.push((x & 0xff) as u8);
    out.push(((x >> 8) & 0xff) as u8);
    out.push(((x >> 16) & 0xff) as u8);
    out.push(((x >> 24) & 0xff) as u8);
    proof {
        assert(out@ =~= old(out)@ + le32(x));
    }
}

/// Locates one authenticated chunk inside one persisted object.
///
/// Produced only by a writer, consumed only by a reader; opaque to holders.
pub struct ChunkPointer {
    pub object_id: ObjectId,
    pub offs: u32,
    pub size: u32,
    pub hash: Vec<u8>,
    pub tag: Vec<u8>,
}

impl ChunkPointer {
    pub open spec fn wf(&self) -> bool {
        &&& self.object_id.wf()
        &&& self.hash@.len() == HASH_SIZE
        &&& self.tag@.len() == TAG_SIZE
    }

    /// Runtime check of the pointer invariant.
    pub fn check_wf(&self) -> (r: bool)
        ensures
            r == self.wf(),
    {
        self.object_id.as_bytes().len() == 32 && self.hash.len() == HASH_SIZE && self.tag.len()
            == TAG_SIZE
    }

    /// The 88-byte wire encoding:
    /// `offs(4 LE) || size(4 LE) || object_id(32) || hash(32) || tag(16)`.
    pub open spec fn encoding(&self) -> Seq<u8> {
        le32(self.offs) + le32(self.size) + self.object_id@ + self.hash@ + self.tag@
    }

    /// Serializes the pointer to its 88-byte wire form.
    pub fn serialize(&self) -> (r: Vec<u8>)
        requires
            self.wf(),
        ensures
            r@ == self.encoding(),
            r@.len() == POINTER_SIZE,
    {
        let mut out: Vec<u8> = Vec::new();
        push_le32(&mut out, self.offs);
        push_le32(&mut out, self.size);
        out.extend_from_slice(self.object_id.as_bytes().as_slice());
        out.extend_from_slice(self.hash.as_slice());
        out.extend_from_slice(self.tag.as_slice());
        proof {
            assert(out@ =~= self.encoding());
        }
        out
    }

    /// Parses a pointer from the first 88 bytes of `bytes`.
    pub fn parse(bytes: &[u8]) -> (r: ChunkPointer)
        requires
            bytes@.len() >= POINTER_SIZE,
        ensures
            r.wf(),
            r.offs == le32_val(bytes@[0], bytes@[1], bytes@[2], bytes@[3]),
            r.size == le32_val(bytes@[4], bytes@[5], bytes@[6], bytes@[7]),
            r.object_id@ == bytes@.subrange(8, 40),
            r.hash@ == bytes@.subrange(40, 72),
            r.tag@ == bytes@.subrange(72, 88),
    {
        let offs = le32_from(bytes, 0);
        let size = le32_from(bytes, 4);
        let id_bytes = copy_range(bytes, 8, 40);
        let hash = copy_range(bytes, 40, 72);
        let tag = copy_range(bytes, 72, 88);
        ChunkPointer { object_id: ObjectId::from_bytes(id_bytes), offs, size, hash, tag }
    }
}

impl Clone for ChunkPointer {
    fn clone(&self) -> (r: Self)
        ensures
            r.object_id@ == self.object_id@,
            r.offs == self.offs,
            r.size == self.size,
            r.hash@ == self.hash@,
            r.tag@ == self.tag@,
    {
        let hash = self.hash.clone();
        let tag = self.tag.clone();
        proof {
            assert(hash@ =~= self.hash@);
            assert(tag@ =~= self.tag@);
        }
        ChunkPointer {
            object_id: self.object_id.clone(),
            offs: self.offs,
            size: self.size,
            hash,
            tag,
        }
    }
}

/// Reads a 32-bit little-endian value at `at`.
pub fn le32_from(bytes: &[u8], at: usize) -> (r: u32)
    requires
        at + 4 <= bytes@.len(),
    ensures
        r == le32_val(bytes@[at as int], bytes@[at + 1], bytes@[at + 2], bytes@[at + 3]),
{
    let b0 = bytes[at];
    let b1 = bytes[at + 1];
    let b2 = bytes[at + 2];
    let b3 = bytes[at + 3];
    (b0 as u32) | ((b1 as u32) << 8) | ((b2 as u32) << 16) | ((b3 as u32) << 24)
}

/// Copies `bytes[from..to]` into a fresh vector.
pub fn copy_range(bytes: &[u8], from: usize, to: usize) -> (r: Vec<u8>)
    requires
        from <= to <= bytes@.len(),
    ensures
        r@ == bytes@.subrange(from as int, to as int),
{
    let mut out: Vec<u8> = Vec::new();
    let mut i: usize = from;
    while i < to
        invariant
            from <= i <= to <= bytes@.len(),
            out@ == bytes@.subrange(from as int, i as int),
        decreases to - i,
    {
        out.push(bytes[i]);
        proof {
            assert(out@ =~= bytes@.subrange(from as int, (i + 1) as int));
        }
        i = i + 1;
    }
    out
}

/// Wire round trip: parsing a serialized pointer returns the pointer.
pub proof fn lemma_pointer_round_trip(p: ChunkPointer)
    requires
        p.wf(),
    ensures
        ({
            let e = p.encoding();
            &&& le32_val(e[0], e[1], e[2], e[3]) == p.offs
            &&& le32_val(e[4], e[5], e[6], e[7]) == p.size
            &&& e.subrange(8, 40) == p.object_id@
            &&& e.subrange(40, 72) == p.hash@
            &&& e.subrange(72, 88) == p.tag@
        }),
{
    let e = p.encoding();
    lemma_le32_round(p.offs);
    lemma_le32_round(p.size);
    assert(e.subrange(8, 40) =~= p.object_id@);
    assert(e.subrange(40, 72) =~= p.hash@);
    assert(e.subrange(72, 88) =~= p.tag@);
}

} // verus!
