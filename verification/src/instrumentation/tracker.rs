//! In-flight events awaiting their remote finish.
use vstd::prelude::*;
use std::collections::HashMap;
use std::hash::Hash;
use vstd::std_specs::hash::obeys_key_model;
use crate::instrumentation::span::Span;

verus! {

/// Tracks in-flight events keyed by an arbitrary type `K`.
///
/// Each entry stores the original [`Span`] plus an arbitrary user-defined
/// metadata value `M`.  This is useful when you need to correlate a later
/// remote-finish response with the local start event, e.g. to compute
/// end-to-end latency or to store auxiliary data (character, delay, etc.)
/// that should be reported alongside the result.
///
/// The contracts hold for key types that obey the hash-table key model
/// (such as the primitive integer types).
#[derive(Clone, Debug)]
pub struct EventTracker<K, M> {
    inner: HashMap<K, (Span, M)>,
}

impl<K: Eq + Hash, M> EventTracker<K, M> {
    /// The in-flight entries by key.
    pub closed spec fn view(&self) -> Map<K, (Span, M)> {
        self.inner@
    }

    /// Create a new, empty tracker.
    pub fn new() -> (r: Self)
        ensures
            r@ == Map::<K, (Span, M)>::empty(),
    {
        Self { inner: HashMap::new() }
    }

    /// Create a new, empty tracker with the given capacity hint.
    pub fn with_capacity(capacity: usize) -> (r: Self)
        ensures
            r@ == Map::<K, (Span, M)>::empty(),
    {
        Self { inner: HashMap::with_capacity(capacity) }
    }

    /// Store a span and its associated metadata, replacing any entry with
    /// the same key.
    pub fn insert(&mut self, key: K, span: Span, meta: M)
        ensures
            obeys_key_model::<K>() ==> final(self)@ == old(self)@.insert(key, (span, meta)),
    {
        self.inner.insert(key, (span, meta));
    }

    /// Retrieve and remove a span and its metadata.
    ///
    /// Returns `None` if the key is not present.
    pub fn remove(&mut self, key: &K) -> (r: Option<(Span, M)>)
        ensures
            obeys_key_model::<K>() ==> {
                &&& final(self)@ == old(self)@.remove(*key)
                &&& r == if old(self)@.contains_key(*key) {
                    Some(old(self)@[*key])
                } else {
                    None::<(Span, M)>
                }
            },
    {
        self.inner.remove(key)
    }

    /// Number of in-flight events.
    #[inline]
    pub fn len(&self) -> (r: usize)
        ensures
            obeys_key_model::<K>() ==> r == self@.len(),
    {
        self.inner.len()
    }

    /// `true` if no events are in flight.
    #[inline]
    pub fn is_empty(&self) -> (r: bool)
        ensures
            r == self@.is_empty(),
    {
        self.inner.is_empty()
    }

    /// Remove all entries.
    pub fn clear(&mut self)
        ensures
            final(self)@ == Map::<K, (Span, M)>::empty(),
    {
        self.inner.clear();
    }
}

impl<K: Eq + Hash, M> Default for EventTracker<K, M> {
    fn default() -> (r: Self)
        ensures
            r@ == Map::<K, (Span, M)>::empty(),
    {
        Self::new()
    }
}

} // verus!
