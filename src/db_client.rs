//! Signals of the cache store.
use vstd::prelude::*;

verus! {

/// Progress signal: one batch of names was committed to the store.
#[derive(Default, Debug, Clone, Copy)]
pub struct DBUpdateEvent;

} // verus!
