//! Pod correlator: finds the pod referencing a claim and evaluates its
//! scheduling state and pending duration.

use vstd::prelude::*;
use crate::records::PodRecord;
use crate::records::PodView;

verus! {

/// A pod is pending iff its phase is exactly `Pending`.
pub open spec fn spec_pod_is_pending(p: PodView) -> bool {
    p.phase == "Pending"@
}

/// A pod is flagged unschedulable iff it carries a scheduling condition that
/// reports false with reason exactly `Unschedulable`.
pub open spec fn spec_pod_is_unschedulable(p: PodView) -> bool {
    p.scheduled_condition matches Some(c) && !c.status && c.reason == "Unschedulable"@
}

/// Whether one of the pod's volumes references the claim of this name.
pub open spec fn spec_pod_uses_pvc(p: PodView, pvc_name: Seq<char>) -> bool {
    p.claim_names.contains(pvc_name)
}

/// The first pod of `pods` that references the claim of this name, if any.
pub open spec fn spec_find_claim_user(pods: Seq<PodView>, pvc_name: Seq<char>) -> Option<PodView>
    decreases pods.len(),
{
    if pods.len() == 0 {
        None
    } else if spec_pod_uses_pvc(pods[0], pvc_name) {
        Some(pods[0])
    } else {
        spec_find_claim_user(pods.drop_first(), pvc_name)
    }
}

/// The candidate pod the correlator yields for a claim: the first pod
/// referencing it, provided that pod is pending and flagged unschedulable.
/// A pod still waiting on the scheduler (pending but not flagged) yields
/// none.
pub open spec fn spec_unschedulable_pod(pods: Seq<PodView>, pvc_name: Seq<char>) -> Option<
    PodView,
> {
    match spec_find_claim_user(pods, pvc_name) {
        Some(p) => {
            if spec_pod_is_pending(p) && spec_pod_is_unschedulable(p) {
                Some(p)
            } else {
                None
            }
        },
        None => None,
    }
}

/// A pod exceeds the pending threshold iff it is pending, carries a creation
/// timestamp, and has existed for at least `threshold_secs` seconds at time
/// `now`.  A pod without a timestamp never exceeds any threshold.
pub open spec fn spec_pod_exceeds_thresh(p: PodView, threshold_secs: u64, now: i64) -> bool {
    &&& spec_pod_is_pending(p)
    &&& p.creation_timestamp matches Some(created) && now - created >= threshold_secs
}

/// Whether `pod` is in the `Pending` lifecycle phase.
pub fn pod_is_pending(pod: &PodRecord) -> (pending: bool)
    ensures
        pending == spec_pod_is_pending(pod@),
{
    pod.phase.eq(&String::from_str("Pending"))
}

/// Whether `pod` is flagged unschedulable by its scheduling condition.
pub fn pod_is_unschedulable(pod: &PodRecord) -> (unschedulable: bool)
    ensures
        unschedulable == spec_pod_is_unschedulable(pod@),
{
    match &pod.scheduled_condition {
        Some(c) => !c.status && c.reason.eq(&String::from_str("Unschedulable")),
        None => false,
    }
}

/// Whether one of `pod`'s volumes references the claim named `pvc_name`.
pub fn pod_uses_pvc(pod: &PodRecord, pvc_name: &String) -> (uses: bool)
    ensures
        uses == spec_pod_uses_pvc(pod@, pvc_name@),
{
    let mut i: usize = 0;
    while i < pod.claim_names.len()
        invariant
            i <= pod.claim_names@.len(),
            forall|j: int| 0 <= j < i ==> pod.claim_names.deep_view()[j] != pvc_name@,
        decreases pod.claim_names@.len() - i,
    {
        if pod.claim_names[i].eq(pvc_name) {
            assert(pod.claim_names.deep_view()[i as int] == pvc_name@);
            return true;
        }
        i += 1;
    }
    false
}

/// Whether `pod` has been pending for at least `threshold_secs` seconds at
/// time `now` (boundary included: an age exactly equal to the threshold
/// counts).
pub fn pod_exceeds_unschedulable_thresh(pod: &PodRecord, threshold_secs: u64, now: i64) -> (
    exceeds: bool)
    ensures
        exceeds == spec_pod_exceeds_thresh(pod@, threshold_secs, now),
{
    if !pod_is_pending(pod) {
        return false;
    }
    match pod.creation_timestamp {
        Some(created) => (now as i128) - (created as i128) >= (threshold_secs as i128),
        None => false,
    }
}

/// Skipping a prefix of pods none of which references the claim leaves the
/// correlation result unchanged.
pub proof fn lemma_find_claim_user_skip(pods: Seq<PodView>, pvc_name: Seq<char>, i: int)
    requires
        0 <= i <= pods.len(),
        forall|j: int| 0 <= j < i ==> !spec_pod_uses_pvc(pods[j], pvc_name),
    ensures
        spec_find_claim_user(pods, pvc_name) == spec_find_claim_user(pods.skip(i), pvc_name),
    decreases i,
{
    if i > 0 {
        lemma_find_claim_user_skip(pods, pvc_name, i - 1);
        assert(pods.skip(i - 1)[0] == pods[i - 1]);
        assert(pods.skip(i - 1).drop_first() =~= pods.skip(i));
    } else {
        assert(pods.skip(0) =~= pods);
    }
}

/// The first pod of `pods` referencing the claim named `pvc_name`, provided
/// that pod is pending and flagged unschedulable; none otherwise.
pub fn unschedulable_pod<'a>(pods: &'a Vec<PodRecord>, pvc_name: &String) -> (found: Option<
    &'a PodRecord,
>)
    ensures
        found.deep_view() == spec_unschedulable_pod(pods.deep_view(), pvc_name@),
{
    let mut i: usize = 0;
    while i < pods.len()
        invariant
            i <= pods@.len(),
            forall|j: int| 0 <= j < i ==> !spec_pod_uses_pvc(pods.deep_view()[j], pvc_name@),
        decreases pods@.len() - i,
    {
        if pod_uses_pvc(&pods[i], pvc_name) {
            proof {
                lemma_find_claim_user_skip(pods.deep_view(), pvc_name@, i as int);
                assert(pods.deep_view().skip(i as int)[0] == pods.deep_view()[i as int]);
            }
            if pod_is_pending(&pods[i]) && pod_is_unschedulable(&pods[i]) {
                return Some(&pods[i]);
            }
            return None;
        }
        i += 1;
    }
    proof {
        lemma_find_claim_user_skip(pods.deep_view(), pvc_name@, pods@.len() as int);
    }
    None
}

} // verus!
