//! Keys that serve as a means of accessing an object in a map.
use vstd::prelude::*;

verus! {

/// The mathematical value of a [`HandleKey`]: the variant together with the
/// content of its payload. Two keys denote the same identity exactly when
/// their views are equal; a static label and an owned label never coincide,
/// even when they carry the same characters.
#[verifier::ext_equal]
pub enum KeyView {
    StaticLabel(Seq<char>),
    OwnedLabel(Seq<char>),
    Index(nat),
}

/// A handle key.
#[derive(Debug, Hash)]
pub enum HandleKey {
    Str(&'static str),
    String(String),
    Number(usize),
}

impl View for HandleKey {
    type V = KeyView;

    open spec fn view(&self) -> KeyView {
        match self {
            HandleKey::Str(s) => KeyView::StaticLabel(s@),
            HandleKey::String(s) => KeyView::OwnedLabel(s@),
            HandleKey::Number(n) => KeyView::Index(*n as nat),
        }
    }
}

impl Clone for HandleKey {
    /// The clone carries the same variant and payload as the original.
    fn clone(&self) -> (r: Self)
        ensures
            r == *self,
    {
        match self {
            HandleKey::Str(s) => HandleKey::Str(s),
            HandleKey::String(s) => HandleKey::String(s.clone()),
            HandleKey::Number(n) => HandleKey::Number(*n),
        }
    }
}

/// Relies on `str`'s `PartialEq`: two string slices are equal exactly when
/// they hold the same sequence of characters.
#[verifier::external_body]
fn str_eq(a: &str, b: &str) -> (r: bool)
    ensures
        r == (a@ == b@),
{
    a == b
}

impl PartialEq for HandleKey {
    /// Structural equality: same variant and equal payload content.
    fn eq(&self, other: &Self) -> (r: bool)
        ensures
            r == (self@ == other@),
    {
        match (self, other) {
            (HandleKey::Str(a), HandleKey::Str(b)) => str_eq(a, b),
            (HandleKey::String(a), HandleKey::String(b)) => *a == *b,
            (HandleKey::Number(a), HandleKey::Number(b)) => *a == *b,
            _ => false,
        }
    }
}

impl vstd::std_specs::cmp::PartialEqSpecImpl for HandleKey {
    open spec fn obeys_eq_spec() -> bool {
        true
    }

    open spec fn eq_spec(&self, other: &Self) -> bool {
        self@ == other@
    }
}

impl Eq for HandleKey {}

impl From<String> for HandleKey {
    /// An owned textual value becomes an owned label, without copying.
    fn from(s: String) -> (r: Self)
        ensures
            r == HandleKey::String(s),
    {
        HandleKey::String(s)
    }
}

impl vstd::std_specs::convert::FromSpecImpl<String> for HandleKey {
    open spec fn obeys_from_spec() -> bool {
        true
    }

    open spec fn from_spec(s: String) -> HandleKey {
        HandleKey::String(s)
    }
}

impl From<&String> for HandleKey {
    /// A borrowed textual value becomes an owned label holding a copy.
    fn from(s: &String) -> (r: Self)
        ensures
            r == HandleKey::String(*s),
    {
        HandleKey::String(s.clone())
    }
}

impl vstd::std_specs::convert::FromSpecImpl<&String> for HandleKey {
    open spec fn obeys_from_spec() -> bool {
        true
    }

    open spec fn from_spec(s: &String) -> HandleKey {
        HandleKey::String(*s)
    }
}

impl From<usize> for HandleKey {
    /// An unsigned integer becomes a numeric index.
    fn from(k: usize) -> (r: Self)
        ensures
            r == HandleKey::Number(k),
    {
        HandleKey::Number(k)
    }
}

impl vstd::std_specs::convert::FromSpecImpl<usize> for HandleKey {
    open spec fn obeys_from_spec() -> bool {
        true
    }

    open spec fn from_spec(k: usize) -> HandleKey {
        HandleKey::Number(k)
    }
}

impl From<&str> for HandleKey {
    /// A borrowed text slice becomes an owned label holding a copy. Which
    /// `String` value carries the copy is not determined by the argument,
    /// so the generic conversion contract cannot name it; the clause below
    /// pins the variant and its content instead.
    fn from(s: &str) -> (r: Self)
        ensures
            r matches HandleKey::String(t) && t@ == s@,
    {
        HandleKey::String(s.to_owned())
    }
}

impl vstd::std_specs::convert::FromSpecImpl<&str> for HandleKey {
    open spec fn obeys_from_spec() -> bool {
        false
    }

    open spec fn from_spec(s: &str) -> HandleKey {
        arbitrary()
    }
}

/// Law: keys of different variants are never equal, even when their payloads
/// carry textually identical content. In particular a static label never
/// equals an owned label.
pub proof fn lemma_variant_sensitivity(a: HandleKey, b: HandleKey)
    requires
        a is Str,
        b is String,
    ensures
        a@ != b@,
{
}

} // verus!
