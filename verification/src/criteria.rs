//! Criteria matcher: does a claim belong to the set of claims this
//! controller is permitted to manage.

use vstd::prelude::*;
use crate::config::ConfigView;
use crate::config::ReaperConfig;
use crate::records::ClaimRecord;
use crate::records::ClaimView;

verus! {

/// A claim matches the storage criteria iff its storage class is present and
/// on the configured allow-list, and its provisioner annotation is present
/// and equals the configured provisioner exactly.  Absence of either field
/// is a non-match, not an error.
pub open spec fn claim_matches(c: ClaimView, cfg: ConfigView) -> bool {
    &&& c.storage_class_name matches Some(sc) && cfg.storage_classes.contains(sc)
    &&& c.provisioner_annotation matches Some(p) && p == cfg.storage_provisioner
}

/// Whether `needle` is among the strings of `haystack`.
fn contains_string(haystack: &Vec<String>, needle: &String) -> (found: bool)
    ensures
        found == haystack.deep_view().contains(needle@),
{
    let mut i: usize = 0;
    while i < haystack.len()
        invariant
            i <= haystack.len(),
            forall|j: int| 0 <= j < i ==> haystack.deep_view()[j] != needle@,
        decreases haystack.len() - i,
    {
        if haystack[i].eq(needle) {
            assert(haystack.deep_view()[i as int] == needle@);
            return true;
        }
        i += 1;
    }
    false
}

/// Decides whether the reaper is permitted to manage `pvc` at all: claims
/// outside this set are never touched, regardless of node or pod state.
pub fn matches_storage_criteria(pvc: &ClaimRecord, config: &ReaperConfig) -> (matched: bool)
    ensures
        matched == claim_matches(pvc@, config@),
{
    let class_allowed = match &pvc.storage_class_name {
        Some(sc) => contains_string(&config.storage_classes, sc),
        None => false,
    };
    if !class_allowed {
        return false;
    }
    match &pvc.provisioner_annotation {
        Some(p) => p.eq(&config.storage_provisioner),
        None => false,
    }
}

} // verus!
