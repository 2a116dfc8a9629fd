//! Items of the crates.io search API.
use vstd::prelude::*;

verus! {

/// response item from the crates.io search API
pub struct CrateSearchItem {
    pub name: String,
}

} // verus!
