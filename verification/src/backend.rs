//! The pluggable byte-blob store behind writers and readers, with a verified
//! in-process implementation and a shareable one for concurrent writers.
use vstd::prelude::*;
use std::collections::HashMap;
use std::sync::Arc;
use std::sync::Mutex;
use crate::id::{bytes_eq, ObjectId};
use crate::object::ObjectError;

verus! {

/// A byte-blob store keyed by object identifiers.
///
/// Implementations may do real I/O; nothing is promised of their state, and
/// the AEAD layer above detects any bytes they return that were not written.
pub trait Backend {
    /// Stores a copy of `data` under `id`.
    fn write_object(&mut self, id: &ObjectId, data: &[u8]) -> (r: Result<(), ObjectError>)
        ensures
            r matches Err(e) ==> (e == ObjectError::Backend || e == ObjectError::Io || e
                == ObjectError::Fatal),
    ;

    /// Returns the bytes stored under `id`, or `Backend` on a miss.
    fn read_object(&mut self, id: &ObjectId) -> (r: Result<Vec<u8>, ObjectError>)
        ensures
            r matches Err(e) ==> (e == ObjectError::Backend || e == ObjectError::Io || e
                == ObjectError::Fatal),
    ;
}

/// What `entries` associates with `id`: the value of the latest entry whose
/// key is `id`.
pub open spec fn lookup_in(entries: Seq<(ObjectId, Vec<u8>)>, id: Seq<u8>) -> Option<Seq<u8>>
    decreases entries.len(),
{
    if entries.len() == 0 {
        None
    } else if entries.last().0@ == id {
        Some(entries.last().1@)
    } else {
        lookup_in(entries.drop_last(), id)
    }
}

/// Entries past `i` that never match `id` do not change the lookup.
proof fn lemma_lookup_prefix(entries: Seq<(ObjectId, Vec<u8>)>, i: int, id: Seq<u8>)
    requires
        0 <= i <= entries.len(),
        forall|j: int| i <= j < entries.len() ==> entries[j].0@ != id,
    ensures
        lookup_in(entries, id) == lookup_in(entries.take(i), id),
    decreases entries.len() - i,
{
    if i < entries.len() {
        assert(entries.drop_last() =~= entries.take(entries.len() - 1));
        lemma_lookup_prefix(entries.take(entries.len() - 1), i, id);
        assert(entries.take(entries.len() - 1).take(i) =~= entries.take(i));
    } else {
        assert(entries.take(i) =~= entries);
    }
}

/// An in-process store: a log of `(id, bytes)` entries where the latest
/// entry for an identifier wins.
pub struct MemoryBackend {
    entries: Vec<(ObjectId, Vec<u8>)>,
}

impl MemoryBackend {
    /// The bytes currently stored under `id`.
    pub closed spec fn lookup(&self, id: Seq<u8>) -> Option<Seq<u8>> {
        lookup_in(self.entries@, id)
    }

    /// An empty store.
    pub fn new() -> (r: MemoryBackend)
        ensures
            forall|id: Seq<u8>| r.lookup(id) is None,
    {
        MemoryBackend { entries: Vec::new() }
    }
}

impl Backend for MemoryBackend {
    /// Stores a copy of `data` under `id`; other identifiers keep their
    /// bytes.
    fn write_object(&mut self, id: &ObjectId, data: &[u8]) -> (r: Result<(), ObjectError>)
        ensures
            r is Ok,
            final(self).lookup(id@) == Some(data@),
            forall|x: Seq<u8>| x != id@ ==> final(self).lookup(x) == old(self).lookup(x),
    {
        let copied = crate::chunks::copy_range(data, 0, data.len());
        proof {
            assert(copied@ =~= data@);
        }
        self.entries.push((id.clone(), copied));
        proof {
            assert(self.entries@.drop_last() =~= old(self).entries@);
        }
        Ok(())
    }

    /// Returns exactly the bytes last stored under `id`, or `Backend` when
    /// nothing was.
    fn read_object(&mut self, id: &ObjectId) -> (r: Result<Vec<u8>, ObjectError>)
        ensures
            match r {
                Ok(v) => old(self).lookup(id@) == Some(v@),
                Err(e) => e == ObjectError::Backend && old(self).lookup(id@) is None,
            },
            *final(self) == *old(self),
    {
        let n: usize = self.entries.len();
        let mut i: usize = n;
        while i > 0
            invariant
                i <= n,
                n == self.entries@.len(),
                *self == *old(self),
                forall|j: int| i <= j < n ==> self.entries@[j].0@ != id@,
            decreases i,
        {
            let ii: usize = i - 1;
            let hit = bytes_eq(
                self.entries[ii].0.as_bytes().as_slice(),
                id.as_bytes().as_slice(),
            );
            if hit {
                let v = self.entries[ii].1.clone();
                proof {
                    assert(v@ =~= self.entries@[ii as int].1@);
                    lemma_lookup_prefix(self.entries@, i as int, id@);
                    assert(self.entries@.take(i as int).last() == self.entries@[ii as int]);
                }
                return Ok(v);
            }
            i = ii;
        }
        proof {
            lemma_lookup_prefix(self.entries@, 0, id@);
            assert(self.entries@.take(0) =~= Seq::<(ObjectId, Vec<u8>)>::empty());
        }
        Err(ObjectError::Backend)
    }
}

/// A store shared by clones: every clone reads and writes one map.
///
/// Nothing is stated of its contents; the AEAD layer detects substituted
/// bytes.
#[verifier::external_body]
pub struct SharedBackend {
    inner: Arc<Mutex<HashMap<Vec<u8>, Vec<u8>>>>,
}

impl SharedBackend {
    /// Relies on std's `Arc`, `Mutex` and `HashMap`: a fresh, empty shared
    /// store.
    #[verifier::external_body]
    pub fn new() -> (r: SharedBackend)
    {
        SharedBackend { inner: Arc::new(Mutex::new(HashMap::new())) }
    }

    /// Relies on `Mutex::lock` and `HashMap::insert`: stores a copy of
    /// `data` under `id` in the shared map.
    #[verifier::external_body]
    fn store_bytes(&mut self, id: &ObjectId, data: &[u8]) -> (r: Result<(), ObjectError>)
        ensures
            r matches Err(e) ==> e == ObjectError::Fatal,
    {
        match self.inner.lock() {
            Ok(mut m) => {
                m.insert(id.as_bytes().clone(), data.to_vec());
                Ok(())
            },
            Err(_) => Err(ObjectError::Fatal),
        }
    }

    /// Relies on `Mutex::lock` and `HashMap::get`: returns a copy of the
    /// bytes stored under `id`, or `Backend` on a miss.
    #[verifier::external_body]
    fn fetch_bytes(&mut self, id: &ObjectId) -> (r: Result<Vec<u8>, ObjectError>)
        ensures
            r matches Err(e) ==> (e == ObjectError::Backend || e == ObjectError::Fatal),
    {
        match self.inner.lock() {
            Ok(m) => m.get(id.as_bytes()).cloned().ok_or(ObjectError::Backend),
            Err(_) => Err(ObjectError::Fatal),
        }
    }
}

impl Clone for SharedBackend {
    /// Relies on `Arc::clone`: the clone shares the same store.
    #[verifier::external_body]
    fn clone(&self) -> (r: Self)
    {
        SharedBackend { inner: Arc::clone(&self.inner) }
    }
}

impl Backend for SharedBackend {
    fn write_object(&mut self, id: &ObjectId, data: &[u8]) -> (r: Result<(), ObjectError>) {
        self.store_bytes(id, data)
    }

    fn read_object(&mut self, id: &ObjectId) -> (r: Result<Vec<u8>, ObjectError>) {
        self.fetch_bytes(id)
    }
}

} // verus!
