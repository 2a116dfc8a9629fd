//! Result rows handed to the launcher.
use vstd::prelude::*;
use crate::crate_client::CrateSearchItem;
use crate::gh_client::GHApiRepoSearchItem;

verus! {

/// One result row of a script filter.
pub struct AlfredItem {
    /// The title displayed in the result row
    pub title: String,
}

impl From<String> for AlfredItem {
    fn from(val: String) -> (r: Self) {
        AlfredItem { title: val }
    }
}

impl vstd::std_specs::convert::FromSpecImpl<String> for AlfredItem {
    open spec fn obeys_from_spec() -> bool {
        true
    }

    open spec fn from_spec(v: String) -> Self {
        AlfredItem { title: v }
    }
}

impl From<GHApiRepoSearchItem> for AlfredItem {
    fn from(val: GHApiRepoSearchItem) -> (r: Self) {
        AlfredItem { title: val.full_name }
    }
}

impl vstd::std_specs::convert::FromSpecImpl<GHApiRepoSearchItem> for AlfredItem {
    open spec fn obeys_from_spec() -> bool {
        true
    }

    open spec fn from_spec(v: GHApiRepoSearchItem) -> Self {
        AlfredItem { title: v.full_name }
    }
}

impl From<CrateSearchItem> for AlfredItem {
    fn from(value: CrateSearchItem) -> (r: Self) {
        AlfredItem { title: value.name }
    }
}

impl vstd::std_specs::convert::FromSpecImpl<CrateSearchItem> for AlfredItem {
    open spec fn obeys_from_spec() -> bool {
        true
    }

    open spec fn from_spec(v: CrateSearchItem) -> Self {
        AlfredItem { title: v.name }
    }
}

} // verus!
