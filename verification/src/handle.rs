//! Typed handles: a key tagged with a marker type, with an optional shared
//! counter that tracks how many clones of a dynamically created handle exist.
use vstd::prelude::*;

use crate::key::HandleKey;
use vstd::std_specs::cmp::PartialEqSpec;

verus! {

/// A typed asset handle.
///
/// The marker type `T` carries no runtime data; it only makes handles to
/// different resource categories distinct types, so that they cannot be
/// compared or mixed by mistake. Equality and hashing go by `key` alone:
/// `count` never takes part in comparison.
pub struct Handle<T> {
    /// Underlying key used for comparison.
    pub key: HandleKey,
    /// Used to count how many things own a clone of the handle.
    pub count: Option<std::sync::Arc<()>>,
    /// Zero-sized tag that ties the handle to its resource category.
    pub _phantom: core::marker::PhantomData<T>,
}

/// Relies on `Arc::clone`: the clone refers to the same allocation as the
/// original, so every clone shares one strong count.
#[verifier::external_body]
fn share_counter(c: &std::sync::Arc<()>) -> (r: std::sync::Arc<()>)
    ensures
        r == *c,
{
    std::sync::Arc::clone(c)
}

/// Relies on `Arc::strong_count`: it returns the number of strong pointers
/// to the allocation, and the argument itself is one of them.
#[verifier::external_body]
fn strong_count(c: &std::sync::Arc<()>) -> (r: usize)
    ensures
        1 <= r,
{
    std::sync::Arc::strong_count(c)
}

impl<T> Handle<T> {
    /// Builds a dynamic handle: its key is the conversion of `k`, and it
    /// starts a fresh shared counter, so its live-strength is 1 until it is
    /// cloned.
    pub fn new<K>(k: K) -> (r: Self) where HandleKey: From<K>
        ensures
            r.count is Some,
            call_ensures(<HandleKey as From<K>>::from, (k,), r.key),
            <HandleKey as vstd::std_specs::convert::FromSpec<K>>::obeys_from_spec()
                ==> r.key == <HandleKey as vstd::std_specs::convert::FromSpec<K>>::from_spec(k),
    {
        Handle {
            key: HandleKey::from(k),
            count: Some(std::sync::Arc::new(())),
            _phantom: core::marker::PhantomData,
        }
    }

    /// Builds a static handle: its key is the given static label and it
    /// carries no counter, however often it is copied.
    pub fn from_static(key: &'static str) -> (r: Handle<T>)
        ensures
            r.key == HandleKey::Str(key),
            r.count is None,
    {
        Handle {
            key: HandleKey::Str(key),
            count: None,
            _phantom: core::marker::PhantomData,
        }
    }

    /// The number of live clones sharing this handle's counter: `None` for a
    /// static handle, and at least 1 for a dynamic one, since this handle
    /// itself is alive.
    pub fn live_strength(&self) -> (r: Option<usize>)
        ensures
            r is Some <==> self.count is Some,
            r matches Some(n) ==> 1 <= n,
    {
        match &self.count {
            Some(c) => Some(strong_count(c)),
            None => None,
        }
    }
}

impl<T> Clone for Handle<T> {
    /// The clone carries an equal key; it has a counter exactly when the
    /// original has one, and then shares it rather than starting a new one.
    fn clone(&self) -> (r: Self)
        ensures
            r.key == self.key,
            r.count == self.count,
    {
        Handle {
            key: self.key.clone(),
            count: match &self.count {
                Some(c) => Some(share_counter(c)),
                None => None,
            },
            _phantom: core::marker::PhantomData,
        }
    }
}

impl<T> PartialEq for Handle<T> {
    /// Equality goes by the key's content alone: the counter and the marker
    /// type never affect it.
    fn eq(&self, other: &Self) -> (r: bool)
        ensures
            r == (self.key@ == other.key@),
    {
        self.key == other.key
    }
}

impl<T> vstd::std_specs::cmp::PartialEqSpecImpl for Handle<T> {
    open spec fn obeys_eq_spec() -> bool {
        true
    }

    open spec fn eq_spec(&self, other: &Self) -> bool {
        self.key@ == other.key@
    }
}

impl<T> Eq for Handle<T> {}

/// Relies on the derived `Hash` of [`HandleKey`]: hashing a handle feeds the
/// hasher the key alone, so the counter and the marker type never reach it.
impl<T> core::hash::Hash for Handle<T> {
    #[verifier::external_body]
    fn hash<H: core::hash::Hasher>(&self, state: &mut H) {
        self.key.hash(state);
    }
}

/// Law: two handles are equal exactly when their keys carry the same variant
/// and payload content — whatever their counters hold, and however either
/// handle was constructed.
pub proof fn lemma_key_determines_equality<T>(a: Handle<T>, b: Handle<T>)
    ensures
        a.eq_spec(&b) <==> a.key@ == b.key@,
{
}

} // verus!
