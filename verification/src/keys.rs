//! Cache keys: the canonical, owned form of a descriptor.
//!
//! A key must expose a mathematical view, an equality test that agrees with
//! view equality, and a way to materialize an owned copy (used only on the
//! miss path, so a cache hit allocates nothing).

use vstd::prelude::*;

verus! {

/// A type usable as a cache key: it has a mathematical view (`View`), an
/// executable equality test that decides view equality, and an owned-copy
/// operation invoked only when a new entry is inserted.
pub trait CacheKey: View + Sized {
    /// Decides semantic equality of two keys: `true` exactly when the views
    /// are equal, however the two values are represented.
    fn key_eq(&self, other: &Self) -> (r: bool)
        ensures
            r <==> self@ == other@,
    ;

    /// Produces an owned key with the same view; called only on a cache miss.
    fn key_clone(&self) -> (r: Self)
        ensures
            r@ == self@,
    ;
}

impl CacheKey for String {
    fn key_eq(&self, other: &Self) -> (r: bool)
        ensures
            r <==> self@ == other@,
    {
        self.eq(other)
    }

    fn key_clone(&self) -> (r: Self)
        ensures
            r@ == self@,
    {
        self.clone()
    }
}

/// Information needed to load a font: a file path plus a point size.
///
/// This is the composite key shape: equality and hashing are field-wise, so
/// two independently built values with the same path and size address the
/// same cache entry, while the same path at another size is a distinct key.
#[derive(Debug, Eq, Hash)]
pub struct FontDetails {
    pub path: String,
    pub size: u16,
}

impl View for FontDetails {
    type V = (Seq<char>, u16);

    open spec fn view(&self) -> (Seq<char>, u16) {
        (self.path@, self.size)
    }
}

impl PartialEq for FontDetails {
    fn eq(&self, other: &Self) -> (r: bool) {
        self.path.eq(&other.path) && self.size == other.size
    }
}

impl vstd::std_specs::cmp::PartialEqSpecImpl for FontDetails {
    open spec fn obeys_eq_spec() -> bool {
        true
    }

    open spec fn eq_spec(&self, other: &Self) -> bool {
        self@ == other@
    }
}

impl CacheKey for FontDetails {
    fn key_eq(&self, other: &Self) -> (r: bool)
        ensures
            r <==> self@ == other@,
    {
        self.path.eq(&other.path) && self.size == other.size
    }

    fn key_clone(&self) -> (r: Self)
        ensures
            r@ == self@,
    {
        FontDetails { path: self.path.clone(), size: self.size }
    }
}

impl<'a> From<&'a FontDetails> for FontDetails {
    fn from(details: &'a FontDetails) -> (r: FontDetails) {
        FontDetails { path: details.path.clone(), size: details.size }
    }
}

impl<'a> vstd::std_specs::convert::FromSpecImpl<&'a FontDetails> for FontDetails {
    open spec fn obeys_from_spec() -> bool {
        true
    }

    open spec fn from_spec(details: &'a FontDetails) -> FontDetails {
        *details
    }
}

} // verus!
