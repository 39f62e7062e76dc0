//! Signature text: the base58 form of a 64-byte transaction signature,
//! remembered for signatures seen recently.
use vstd::prelude::*;
use vstd::slice::slice_subrange;
use std::sync::Arc;

verus! {

/// The base58 text of a 64-byte value.
pub uninterp spec fn base58_of(bytes: Seq<u8>) -> Seq<char>;

/// Relies on `fd_bs58::encode_64`: the base58 text of exactly 64 bytes
/// (it panics on any other length), a function of the bytes alone.
/// `encode_64` reads its input as `u32` words without checking alignment, so
/// it is handed an owned copy, whose heap block is aligned, never a slice
/// that may start at any address.
#[verifier::external_body]
fn encode_signature(bytes: &[u8]) -> (r: String)
    requires
        bytes@.len() == 64,
    ensures
        r@ == base58_of(bytes@),
{
    fd_bs58::encode_64(bytes.to_vec())
}

/// The bytes that identify a signature: its first 64.
pub open spec fn signature_key(bytes: Seq<u8>) -> Seq<u8> {
    bytes.subrange(0, 64)
}

fn bytes_equal(a: &[u8], b: &[u8]) -> (r: bool)
    ensures
        r == (a@ == b@),
{
    if a.len() != b.len() {
        return false;
    }
    let mut i: usize = 0;
    while i < a.len()
        invariant
            i <= a@.len(),
            a@.len() == b@.len(),
            forall|k: int| 0 <= k < i ==> a@[k] == b@[k],
        decreases a@.len() - i,
    {
        if a[i] != b[i] {
            return false;
        }
        i = i + 1;
    }
    assert(a@ =~= b@);
    true
}

/// Remembers the text of recently seen signatures. When full, the entry
/// that was inserted first is dropped to make room.
#[derive(Debug)]
pub struct SignatureCache {
    entries: Vec<(Vec<u8>, Arc<String>)>,
    max_entries: usize,
}

impl SignatureCache {
    pub closed spec fn wf(&self) -> bool {
        &&& self.entries@.len() <= if self.max_entries > 0 {
            self.max_entries as int
        } else {
            1
        }
        &&& forall|i: int|
            0 <= i < self.entries@.len() ==> {
                &&& (#[trigger] self.entries@[i]).0@.len() == 64
                &&& self.entries@[i].1@ == base58_of(self.entries@[i].0@)
            }
    }

    /// How many signatures are remembered.
    pub closed spec fn spec_len(&self) -> nat {
        self.entries@.len()
    }

    /// The remembered signature keys, oldest first.
    pub closed spec fn spec_keys(&self) -> Seq<Seq<u8>> {
        self.entries@.map_values(|e: (Vec<u8>, Arc<String>)| e.0@)
    }

    /// The capacity the cache was created with.
    pub closed spec fn spec_max_entries(&self) -> nat {
        self.max_entries as nat
    }

    /// The remembered keys number `spec_len`, and never more than the
    /// capacity (one, for a cache made with capacity zero).
    pub proof fn lemma_bounds(&self)
        requires
            self.wf(),
        ensures
            self.spec_keys().len() == self.spec_len(),
            self.spec_len() <= if self.spec_max_entries() > 0 {
                self.spec_max_entries()
            } else {
                1
            },
    {
    }

    pub fn new(max_entries: usize) -> (r: Self)
        ensures
            r.wf(),
            r.spec_len() == 0,
            r.spec_keys() == Seq::<Seq<u8>>::empty(),
            r.spec_max_entries() == max_entries,
    {
        SignatureCache { entries: Vec::new(), max_entries }
    }

    /// The base58 text of the signature's first 64 bytes, shared with the
    /// cache. A key not yet remembered is added last; when the cache is
    /// full, the oldest key is dropped first.
    pub fn get_or_insert(&mut self, signature_bytes: &[u8]) -> (r: Arc<String>)
        requires
            old(self).wf(),
            signature_bytes@.len() >= 64,
        ensures
            final(self).wf(),
            r@ == base58_of(signature_key(signature_bytes@)),
            final(self).spec_max_entries() == old(self).spec_max_entries(),
            old(self).spec_keys().contains(signature_key(signature_bytes@))
                ==> final(self).spec_keys() == old(self).spec_keys(),
            !old(self).spec_keys().contains(signature_key(signature_bytes@))
                ==> final(self).spec_keys() == (if old(self).spec_len() >= old(self).spec_max_entries()
                && old(self).spec_len() > 0 {
                old(self).spec_keys().drop_first()
            } else {
                old(self).spec_keys()
            }).push(signature_key(signature_bytes@)),
    {
        let ghost keys0 = self.spec_keys();
        let key = slice_subrange(signature_bytes, 0, 64);
        let mut i: usize = 0;
        while i < self.entries.len()
            invariant
                self.wf(),
                key@ == signature_key(signature_bytes@),
                self.spec_keys() == keys0,
                self.spec_max_entries() == old(self).spec_max_entries(),
                i <= self.entries@.len(),
                forall|k: int| 0 <= k < i ==> keys0[k] != key@,
            decreases self.entries@.len() - i,
        {
            if bytes_equal(self.entries[i].0.as_slice(), key) {
                assert(keys0[i as int] == key@);
                return self.entries[i].1.clone();
            }
            i = i + 1;
        }
        assert(!keys0.contains(key@));
        if self.entries.len() >= self.max_entries && self.entries.len() > 0 {
            self.entries.remove(0);
            assert(self.spec_keys() =~= keys0.drop_first());
        }
        let ghost keys1 = self.spec_keys();
        let text = Arc::new(encode_signature(key));
        let mut owned: Vec<u8> = Vec::new();
        let mut j: usize = 0;
        while j < key.len()
            invariant
                j <= key@.len(),
                owned@ =~= key@.subrange(0, j as int),
            decreases key@.len() - j,
        {
            owned.push(key[j]);
            j = j + 1;
        }
        assert(owned@ =~= key@);
        self.entries.push((owned, text.clone()));
        assert(self.spec_keys() =~= keys1.push(key@));
        text
    }
}

} // verus!
