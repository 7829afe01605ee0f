//! The decision engine's guarantees, stated and proved as laws over the
//! specification functions that the executable functions' contracts use.

use vstd::prelude::*;
use crate::config::ConfigView;
use crate::criteria::claim_matches;
use crate::decide::DeleteReasonView;
use crate::decide::PlannedDeletionView;
use crate::decide::State;
use crate::inventory::NodeInventory;
use crate::inventory::lemma_lookup_node_skip;
use crate::inventory::lookup_node;
use crate::inventory::spec_classify;
use crate::inventory::spec_ready_cause;
use crate::inventory::spec_unavailable_reason;
use crate::pods::lemma_find_claim_user_skip;
use crate::pods::spec_pod_exceeds_thresh;
use crate::pods::spec_pod_is_pending;
use crate::pods::spec_pod_is_unschedulable;
use crate::pods::spec_pod_uses_pvc;
use crate::pods::spec_unschedulable_pod;
use crate::records::ClaimView;
use crate::records::NodeHealthView;

verus! {

/// Whether `prefix` is an initial segment of `text`.
pub open spec fn begins_with(text: Seq<char>, prefix: Seq<char>) -> bool {
    prefix.len() <= text.len() && text.subrange(0, prefix.len() as int) == prefix
}

/// An inventory whose records classify `nodes`, one per listed node in
/// listing order — what [`NodeInventory::build`] produces.
pub open spec fn classifies(inv: NodeInventory, nodes: Seq<NodeHealthView>) -> bool {
    &&& inv.recs().len() == nodes.len()
    &&& forall|i: int| 0 <= i < nodes.len() ==> inv.recs()[i] == spec_classify(nodes[i])
}

/// In an inventory built from `nodes`, a node name whose first occurrence is
/// at index `i` looks up to the classification of that occurrence.
pub proof fn lemma_built_lookup(
    inv: NodeInventory,
    nodes: Seq<NodeHealthView>,
    name: Seq<char>,
    i: int,
)
    requires
        classifies(inv, nodes),
        0 <= i < nodes.len(),
        nodes[i].name == name,
        forall|k: int| 0 <= k < i ==> nodes[k].name != name,
    ensures
        lookup_node(inv.recs(), name) == Some(spec_classify(nodes[i])),
{
    assert(forall|k: int| 0 <= k < i ==> inv.recs()[k].name != name);
    lemma_lookup_node_skip(inv.recs(), name, i);
    assert(inv.recs().skip(i)[0] == inv.recs()[i]);
}

/// In an inventory built from a node listing, every record that is not
/// schedulable carries a recorded reason: the generic fallback reason is
/// never needed for what the builder produces.
pub proof fn lemma_classified_records_have_reasons(inv: NodeInventory, nodes: Seq<NodeHealthView>)
    requires
        classifies(inv, nodes),
    ensures
        forall|i: int|
            0 <= i < inv.recs().len() && !inv.recs()[i].schedulable
                ==> inv.recs()[i].unavailable_reason is Some,
{
}

/// A claim outside the storage criteria — storage class absent or not on
/// the allow-list, or provisioner annotation absent or mismatched — draws no
/// verdict, regardless of any node or pod state.
pub proof fn lemma_unmatched_claim_keeps(s: State, c: ClaimView, cfg: ConfigView)
    requires
        !claim_matches(c, cfg),
    ensures
        s.spec_deletion_reason(c, cfg) is None,
{
}

/// A matching claim whose selected node is absent from the node listing
/// draws the missing-node verdict, independent of any pod state: the pod
/// field merely reports the correlated unschedulable pod, if one exists.
pub proof fn lemma_missing_node_verdict(s: State, c: ClaimView, cfg: ConfigView, node: Seq<char>)
    requires
        claim_matches(c, cfg),
        c.selected_node == Some(node),
        !s.inventory.spec_has_node(node),
    ensures
        s.spec_deletion_reason(c, cfg) == Some(
            DeleteReasonView::MissingNode {
                node,
                pod: match spec_unschedulable_pod(s.pods.deep_view(), c.name) {
                    Some(p) => Some(p.name),
                    None => None,
                },
            },
        ),
{
}

/// A matching claim whose selected node exists but is cordoned draws the
/// unavailable-node verdict, with a reason that begins with `cordoned`.
pub proof fn lemma_cordoned_node_verdict(
    s: State,
    c: ClaimView,
    cfg: ConfigView,
    nodes: Seq<NodeHealthView>,
    node: Seq<char>,
    i: int,
)
    requires
        classifies(s.inventory, nodes),
        claim_matches(c, cfg),
        c.selected_node == Some(node),
        0 <= i < nodes.len(),
        nodes[i].name == node,
        forall|k: int| 0 <= k < i ==> nodes[k].name != node,
        nodes[i].cordoned,
    ensures
        s.spec_deletion_reason(c, cfg) == Some(
            DeleteReasonView::UnavailableNode {
                node,
                reason: spec_unavailable_reason(nodes[i]),
            },
        ),
        begins_with(spec_unavailable_reason(nodes[i]), "cordoned"@),
{
    lemma_built_lookup(s.inventory, nodes, node, i);
    reveal_strlit("cordoned");
    reveal_strlit(",");
    let reason = spec_unavailable_reason(nodes[i]);
    assert(begins_with(reason, "cordoned"@)) by {
        match nodes[i].ready {
            None => {
                assert(reason == "cordoned"@ + ","@ + "Ready condition missing"@);
                assert(reason.subrange(0, 8) =~= "cordoned"@);
            },
            Some(rc) => {
                if !rc.status {
                    assert(reason == "cordoned"@ + ","@ + "Ready="@ + spec_ready_cause(rc));
                    assert(reason.subrange(0, 8) =~= "cordoned"@);
                } else {
                    assert(reason == "cordoned"@);
                    assert(reason.subrange(0, 8) =~= "cordoned"@);
                }
            },
        }
    }
}

/// A matching claim whose selected node exists, is not cordoned, but has a
/// false or missing readiness condition draws the unavailable-node verdict;
/// the reason is exactly `Ready=<cause>` for a false condition and exactly
/// `Ready condition missing` for an absent one.
pub proof fn lemma_unready_node_verdict(
    s: State,
    c: ClaimView,
    cfg: ConfigView,
    nodes: Seq<NodeHealthView>,
    node: Seq<char>,
    i: int,
)
    requires
        classifies(s.inventory, nodes),
        claim_matches(c, cfg),
        c.selected_node == Some(node),
        0 <= i < nodes.len(),
        nodes[i].name == node,
        forall|k: int| 0 <= k < i ==> nodes[k].name != node,
        !nodes[i].cordoned,
        nodes[i].ready matches Some(rc) ==> !rc.status,
    ensures
        s.spec_deletion_reason(c, cfg) == Some(
            DeleteReasonView::UnavailableNode {
                node,
                reason: spec_unavailable_reason(nodes[i]),
            },
        ),
        spec_unavailable_reason(nodes[i]) == match nodes[i].ready {
            Some(rc) => "Ready="@ + spec_ready_cause(rc),
            None => "Ready condition missing"@,
        },
{
    lemma_built_lookup(s.inventory, nodes, node, i);
}

/// A pod that is pending, flagged unschedulable, first among the pods
/// referencing a matching claim, and at least the threshold old, yields the
/// pending-too-long verdict for that claim — provided the configuration enables it
/// and no node-level verdict preempts it (the claim selected no node, or a
/// node that exists and is schedulable).
pub proof fn lemma_pending_too_long_verdict(s: State, c: ClaimView, cfg: ConfigView, j: int)
    requires
        claim_matches(c, cfg),
        cfg.check_unschedulable_pods,
        c.selected_node matches Some(node) ==> s.inventory.spec_has_node(node)
            && s.inventory.spec_node_schedulable(node),
        0 <= j < s.pods.deep_view().len(),
        spec_pod_uses_pvc(s.pods.deep_view()[j], c.name),
        forall|k: int| 0 <= k < j ==> !spec_pod_uses_pvc(s.pods.deep_view()[k], c.name),
        spec_pod_is_pending(s.pods.deep_view()[j]),
        spec_pod_is_unschedulable(s.pods.deep_view()[j]),
        spec_pod_exceeds_thresh(s.pods.deep_view()[j], cfg.unschedulable_pod_threshold_secs, s.now),
    ensures
        s.spec_deletion_reason(c, cfg) == Some(
            DeleteReasonView::PendingTooLong { pod: s.pods.deep_view()[j].name },
        ),
{
    lemma_find_claim_user_skip(s.pods.deep_view(), c.name, j);
    assert(s.pods.deep_view().skip(j)[0] == s.pods.deep_view()[j]);
}

/// The pending-too-long verdict only ever arises with the pending-pod
/// heuristic enabled, from a
/// correlated pod that is pending, flagged unschedulable, carries a creation
/// timestamp, and has age at least the threshold at snapshot time — so a pod
/// pending for less than the threshold never yields it, while an age exactly
/// equal to the threshold does.
pub proof fn lemma_pending_verdict_inversion(
    s: State,
    c: ClaimView,
    cfg: ConfigView,
    pod: Seq<char>,
)
    requires
        s.spec_deletion_reason(c, cfg) == Some(DeleteReasonView::PendingTooLong { pod }),
    ensures
        cfg.check_unschedulable_pods,
        claim_matches(c, cfg),
        spec_unschedulable_pod(s.pods.deep_view(), c.name) matches Some(p) && p.name == pod
            && spec_pod_is_pending(p) && spec_pod_is_unschedulable(p) && (
        p.creation_timestamp matches Some(created) && s.now - created
            >= cfg.unschedulable_pod_threshold_secs),
{
}

/// Idempotence: the decision for a claim is a function of the snapshot and
/// the configuration alone, so two evaluations over identical inputs agree.
pub proof fn lemma_decision_idempotent(
    s: State,
    c: ClaimView,
    cfg: ConfigView,
    first: Option<DeleteReasonView>,
    second: Option<DeleteReasonView>,
)
    requires
        first == s.spec_deletion_reason(c, cfg),
        second == s.spec_deletion_reason(c, cfg),
    ensures
        first == second,
{
}

/// Idempotence over a whole pass: planning twice over the identical snapshot
/// produces the identical action sequence and skip count.
pub proof fn lemma_plan_idempotent(
    s: State,
    claims: Seq<ClaimView>,
    cfg: ConfigView,
    first: Seq<PlannedDeletionView>,
    second: Seq<PlannedDeletionView>,
)
    requires
        first == s.spec_actions(claims, cfg),
        second == s.spec_actions(claims, cfg),
    ensures
        first == second,
{
}

/// Dry-run mode changes nothing the engine decides: two configurations that
/// differ at most in the dry-run flag plan the same deletions, in the same
/// order, and the same skip count — so a dry-run pass reports the same
/// deletion count as a live pass would.  Whether the planned deletions are
/// executed or only logged is the driver's concern alone.
pub proof fn lemma_dry_run_same_plan(
    s: State,
    claims: Seq<ClaimView>,
    cfg1: ConfigView,
    cfg2: ConfigView,
)
    requires
        cfg2.storage_classes == cfg1.storage_classes,
        cfg2.storage_provisioner == cfg1.storage_provisioner,
        cfg2.reap_interval_secs == cfg1.reap_interval_secs,
        cfg2.check_unschedulable_pods == cfg1.check_unschedulable_pods,
        cfg2.unschedulable_pod_threshold_secs == cfg1.unschedulable_pod_threshold_secs,
    ensures
        s.spec_actions(claims, cfg1) == s.spec_actions(claims, cfg2),
        s.spec_skipped(claims, cfg1) == s.spec_skipped(claims, cfg2),
    decreases claims.len(),
{
    if claims.len() > 0 {
        lemma_dry_run_same_plan(s, claims.drop_first(), cfg1, cfg2);
        assert(claim_matches(claims[0], cfg1) == claim_matches(claims[0], cfg2));
        assert(s.spec_pending_verdict(claims[0], cfg1) == s.spec_pending_verdict(claims[0], cfg2));
        assert(s.spec_deletion_reason(claims[0], cfg1) == s.spec_deletion_reason(claims[0], cfg2));
    }
}

} // verus!
