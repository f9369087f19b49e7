//! The user-facing message texts, each pinned to its exact wording.

use vstd::prelude::*;

verus! {

use crate::package::{
    Package,
    PackageError,
    all_packages,
    spec_all_packages,
    spec_id,
};
use vstd::string::StringExecFns;

/// The ids of the first `i` packages of `pkgs`, joined with comma-space
/// separators.
pub open spec fn spec_joined_ids_upto(pkgs: Seq<Package>, i: int) -> Seq<char>
    decreases i,
{
    if i <= 0 {
        Seq::empty()
    } else if i == 1 {
        spec_id(pkgs[0])
    } else {
        spec_joined_ids_upto(pkgs, i - 1) + ", "@ + spec_id(pkgs[i - 1])
    }
}

/// The ids of every package of the catalog, joined with comma-space
/// separators, in catalog order.
pub open spec fn spec_id_list() -> Seq<char> {
    spec_joined_ids_upto(spec_all_packages(), spec_all_packages().len() as int)
}

/// The comma-separated list of every valid package id.
pub fn id_list_text() -> (r: String)
    ensures
        r@ == spec_id_list(),
{
    let all = all_packages();
    let n: usize = all.len();
    let mut out = String::new();
    let mut i: usize = 0;
    while i < n
        invariant
            all@ == spec_all_packages(),
            n == all@.len(),
            i <= n,
            out@ == spec_joined_ids_upto(spec_all_packages(), i as int),
        decreases n - i,
    {
        if i > 0 {
            out.append(", ");
        }
        let p = all[i];
        out.append(p.id());
        proof {
            assert(out@ =~= spec_joined_ids_upto(spec_all_packages(), i as int + 1));
        }
        i = i + 1;
    }
    out
}

/// The rejection of an id that names no package, enumerating the valid ids.
pub fn unknown_package_message(id: &str) -> (r: String)
    ensures
        r@ == "Unknown package type "@ + id@ + ". Must be one of "@ + spec_id_list(),
{
    let mut out = String::from_str("Unknown package type ");
    out.append(id);
    out.append(". Must be one of ");
    let ids = id_list_text();
    out.append(ids.as_str());
    proof {
        assert(out@ =~= "Unknown package type "@ + id@ + ". Must be one of "@ + spec_id_list());
    }
    out
}

impl PackageError {
    /// The human-readable text of the error.
    pub fn message(&self) -> (r: String)
        ensures
            match *self {
                PackageError::UnknownPackage { id } => r@ == "Unknown package type "@ + id@
                    + ". Must be one of "@ + spec_id_list(),
            },
    {
        match self {
            PackageError::UnknownPackage { id } => unknown_package_message(id.as_str()),
        }
    }
}

/// The progress line shown when an installation starts.
pub fn install_progress_message(p: Package) -> (r: String)
    ensures
        r@ == "Installing package "@ + spec_id(p),
{
    let mut out = String::from_str("Installing package ");
    out.append(p.id());
    out
}

/// The progress line shown when a launch starts.
pub fn launch_progress_message(p: Package) -> (r: String)
    ensures
        r@ == "Launching package "@ + spec_id(p),
{
    let mut out = String::from_str("Launching package ");
    out.append(p.id());
    out
}

/// The refusal shown when a package cannot be installed directly, naming
/// the parent that provides it when there is one.
pub fn install_refusal_message(parent: Option<Package>) -> (r: String)
    ensures
        match parent {
            Some(pp) => r@ == "This package cannot be installed as it is part of the package "@
                + spec_id(pp),
            None => r@ == "This package cannot be installed as it is part of another package"@,
        },
{
    match parent {
        Some(pp) => {
            let mut out = String::from_str(
                "This package cannot be installed as it is part of the package ",
            );
            out.append(pp.id());
            out
        },
        None => String::from_str("This package cannot be installed as it is part of another package"),
    }
}

/// The refusal shown when a package cannot be launched.
pub fn launch_refusal_message() -> (r: &'static str)
    ensures
        r@ == "This package cannot be launched as it is not a specific program"@,
{
    "This package cannot be launched as it is not a specific program"
}

} // verus!
