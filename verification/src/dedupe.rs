//! Change detection: the fingerprint of a chart paired with the rate as it
//! is written.

use vstd::prelude::*;

verus! {

/// What identifies the work of one cycle.
#[derive(Clone, Debug)]
pub struct DedupeKey {
    pub fingerprint: String,
    pub rate: String,
}

/// What a key holds.
pub struct KeyView {
    pub fingerprint: Seq<char>,
    pub rate: Seq<char>,
}

impl View for DedupeKey {
    type V = KeyView;

    open spec fn view(&self) -> KeyView {
        KeyView { fingerprint: self.fingerprint@, rate: self.rate@ }
    }
}

/// What an optional key holds.
pub open spec fn key_view(k: Option<DedupeKey>) -> Option<KeyView> {
    match k {
        Some(key) => Some(key@),
        None => None,
    }
}

impl DedupeKey {
    /// The key of a fingerprint and a rate.
    pub fn new(fingerprint: String, rate: String) -> (k: DedupeKey)
        ensures
            k@ == (KeyView { fingerprint: fingerprint@, rate: rate@ }),
    {
        DedupeKey { fingerprint, rate }
    }

    /// Whether two keys hold the same fingerprint and the same rate.
    pub fn same_as(&self, other: &DedupeKey) -> (r: bool)
        ensures
            r == (self@ == other@),
    {
        self.fingerprint == other.fingerprint && self.rate == other.rate
    }
}

/// Whether the key differs from the one last seen, in either part. Without
/// a key last seen every key is new.
pub fn changed(last: &Option<DedupeKey>, key: &DedupeKey) -> (r: bool)
    ensures
        r == (key_view(*last) != Some(key@)),
{
    match last {
        Some(k) => !k.same_as(key),
        None => true,
    }
}

} // verus!
