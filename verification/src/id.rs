//! Opaque 32-byte object identifiers, regenerated per object write.
use vstd::prelude::*;
use crate::crypto::{fill_random_fallible, CryptoError};

verus! {

/// Length in bytes of an object identifier.
pub const ID_SIZE: usize = 32;

/// A 32-byte name addressing one blob in the storage backend.
pub struct ObjectId {
    bytes: Vec<u8>,
}

impl View for ObjectId {
    type V = Seq<u8>;

    closed spec fn view(&self) -> Seq<u8> {
        self.bytes@
    }
}

impl ObjectId {
    /// An identifier is exactly `ID_SIZE` bytes.
    pub open spec fn wf(&self) -> bool {
        self@.len() == ID_SIZE
    }

    /// Builds an identifier from its raw bytes.
    pub fn from_bytes(bytes: Vec<u8>) -> (r: ObjectId)
        requires
            bytes@.len() == ID_SIZE,
        ensures
            r@ == bytes@,
            r.wf(),
    {
        ObjectId { bytes }
    }

    /// The raw bytes of the identifier.
    pub fn as_bytes(&self) -> (r: &Vec<u8>)
        ensures
            r@ == self@,
    {
        &self.bytes
    }

    /// Replaces the identifier with fresh random bytes; a failing entropy
    /// source is surfaced, never masked.
    pub fn reset(&mut self) -> (r: Result<(), CryptoError>)
        ensures
            match r {
                Ok(_) => final(self).wf(),
                Err(e) => e == CryptoError::Fatal && *final(self) == *old(self),
            },
    {
        match fill_random_fallible(ID_SIZE) {
            Ok(v) => {
                self.bytes = v;
                Ok(())
            },
            Err(e) => Err(e),
        }
    }
}

impl Clone for ObjectId {
    fn clone(&self) -> (r: Self)
        ensures
            r@ == self@,
    {
        let bytes = self.bytes.clone();
        proof {
            assert(bytes@ =~= self.bytes@);
        }
        ObjectId { bytes }
    }
}

impl Default for ObjectId {
    /// The all-zero identifier.
    fn default() -> (r: Self)
        ensures
            r@ == Seq::new(ID_SIZE as nat, |i: int| 0u8),
            r.wf(),
    {
        let bytes: Vec<u8> = vec![0u8; ID_SIZE];
        proof {
            assert(bytes@ =~= Seq::new(ID_SIZE as nat, |i: int| 0u8));
        }
        ObjectId { bytes }
    }
}

/// Byte-for-byte comparison of two slices.
pub fn bytes_eq(a: &[u8], b: &[u8]) -> (r: bool)
    ensures
        r == (a@ == b@),
{
    if a.len() != b.len() {
        proof {
            assert(a@.len() != b@.len());
        }
        return false;
    }
    let n: usize = a.len();
    let mut i: usize = 0;
    while i < n
        invariant
            n == a@.len(),
            n == b@.len(),
            0 <= i <= n,
            forall|j: int| 0 <= j < i ==> a@[j] == b@[j],
        decreases n - i,
    {
        if a[i] != b[i] {
            return false;
        }
        i = i + 1;
    }
    proof {
        assert(a@ =~= b@);
    }
    true
}

impl PartialEq for ObjectId {
    fn eq(&self, other: &Self) -> (r: bool) {
        bytes_eq(self.bytes.as_slice(), other.bytes.as_slice())
    }
}

impl vstd::std_specs::cmp::PartialEqSpecImpl for ObjectId {
    open spec fn obeys_eq_spec() -> bool {
        true
    }

    open spec fn eq_spec(&self, other: &Self) -> bool {
        self@ == other@
    }
}

} // verus!
