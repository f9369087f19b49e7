//! Data the tool keeps across runs.

use vstd::prelude::*;

verus! {

use crate::package::Package;

/// Persistent data for the tool.
pub struct PersistentData {
    pub installed_packages: Vec<Package>,
}

} // verus!
