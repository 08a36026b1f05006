//! A verified hash for keys and handles, modelled on `DefaultHasher`: the
//! bytes fed to the hasher are a function of the key's variant and content
//! alone, so equal keys always hash to equal values.
use vstd::prelude::*;

use crate::handle::Handle;
use crate::key::HandleKey;
use crate::key::KeyView;
use std::collections::hash_map::DefaultHasher;
use std::hash::Hasher;
use vstd::std_specs::cmp::PartialEqSpec;
use vstd::std_specs::hash::DefaultHasherAdditionalSpecFns;
use vstd::string::StringSliceAdditionalSpecFns;

verus! {

/// The write sequence a key feeds to the hasher: a one-byte variant tag,
/// then the payload — the label's UTF-8 bytes, or the index in eight
/// little-endian bytes. Distinct tags keep a static and an owned label with
/// the same text apart.
pub open spec fn key_writes(k: KeyView) -> Seq<Seq<u8>> {
    match k {
        KeyView::StaticLabel(s) => seq![seq![0u8], vstd::utf8::encode_utf8(s)],
        KeyView::OwnedLabel(s) => seq![seq![1u8], vstd::utf8::encode_utf8(s)],
        KeyView::Index(n) => seq![seq![2u8], vstd::bytes::spec_u64_to_le_bytes(n as u64)],
    }
}

/// The hash of a key: what `DefaultHasher` returns after the key's write
/// sequence. A function of the key's view alone.
pub open spec fn key_hash(k: KeyView) -> u64 {
    DefaultHasher::spec_finish(key_writes(k))
}

/// Feeds the hasher a single byte as one write.
fn write_byte(state: &mut DefaultHasher, b: u8)
    ensures
        final(state)@ == old(state)@.push(seq![b]),
{
    let mut tag: Vec<u8> = Vec::new();
    tag.push(b);
    state.write(tag.as_slice());
}

impl HandleKey {
    /// Hashes the key's variant and content with `DefaultHasher`.
    pub fn hash_value(&self) -> (r: u64)
        ensures
            r == key_hash(self@),
    {
        let mut state = DefaultHasher::new();
        match self {
            HandleKey::Str(s) => {
                write_byte(&mut state, 0u8);
                state.write(s.as_bytes());
            },
            HandleKey::String(s) => {
                write_byte(&mut state, 1u8);
                state.write(s.as_str().as_bytes());
            },
            HandleKey::Number(n) => {
                write_byte(&mut state, 2u8);
                let bytes = vstd::bytes::u64_to_le_bytes(*n as u64);
                state.write(bytes.as_slice());
            },
        }
        proof {
            assert(state@ =~~= key_writes(self@));
        }
        state.finish()
    }
}

impl<T> Handle<T> {
    /// Hashes the handle: the result is decided by the key alone, so the
    /// counter and the marker type never affect it.
    pub fn hash_value(&self) -> (r: u64)
        ensures
            r == key_hash(self.key@),
    {
        self.key.hash_value()
    }
}

/// Law: hash consistency. Equal handles hash to equal values: whenever
/// `a == b` holds, the hashes of `a` and `b` coincide.
pub proof fn lemma_hash_consistency<T>(a: Handle<T>, b: Handle<T>)
    requires
        a.eq_spec(&b),
    ensures
        key_hash(a.key@) == key_hash(b.key@),
{
}

} // verus!
