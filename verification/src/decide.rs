//! Deletion decider: combines criteria matching, the node inventory and the
//! pod correlator into a single deletion verdict (or none) per claim, and
//! plans one whole reconciliation pass.

use vstd::prelude::*;
use crate::config::ConfigView;
use crate::config::ReaperConfig;
use crate::criteria::claim_matches;
use crate::criteria::matches_storage_criteria;
use crate::inventory::NodeInventory;
use crate::pods::spec_pod_exceeds_thresh;
use crate::pods::spec_unschedulable_pod;
use crate::pods::pod_exceeds_unschedulable_thresh;
use crate::pods::unschedulable_pod;
use crate::records::ClaimRecord;
use crate::records::ClaimView;
use crate::records::PodRecord;
use crate::records::PodView;

verus! {

/// The verdict that schedules a claim for deletion, with the data needed to
/// render a one-line audit message.  Never mutated once produced.
#[derive(Debug, Clone, PartialEq, Eq)]
pub enum DeleteReason {
    /// The claim's selected node no longer exists in the cluster at all;
    /// `pod` names the stuck pod referencing the claim, if one was found.
    MissingNode {
        /// Name of the vanished node.
        node: String,
        /// Name of the unschedulable pod referencing the claim, if any.
        pod: Option<String>,
    },
    /// The claim's selected node exists but cannot accept work.
    UnavailableNode {
        /// Name of the unavailable node.
        node: String,
        /// The reason recorded by the node inventory.
        reason: String,
    },
    /// The pod referencing the claim has been pending past the threshold.
    PendingTooLong {
        /// Name of the pending pod.
        pod: String,
    },
}

/// Mathematical view of a [`DeleteReason`].
pub enum DeleteReasonView {
    /// View of [`DeleteReason::MissingNode`].
    MissingNode {
        /// View of the vanished node's name.
        node: Seq<char>,
        /// View of the referencing pod's name, if any.
        pod: Option<Seq<char>>,
    },
    /// View of [`DeleteReason::UnavailableNode`].
    UnavailableNode {
        /// View of the unavailable node's name.
        node: Seq<char>,
        /// View of the recorded reason.
        reason: Seq<char>,
    },
    /// View of [`DeleteReason::PendingTooLong`].
    PendingTooLong {
        /// View of the pending pod's name.
        pod: Seq<char>,
    },
}

impl View for DeleteReason {
    type V = DeleteReasonView;

    open spec fn view(&self) -> DeleteReasonView {
        match self {
            DeleteReason::MissingNode { node, pod } => DeleteReasonView::MissingNode {
                node: node@,
                pod: pod.deep_view(),
            },
            DeleteReason::UnavailableNode { node, reason } => DeleteReasonView::UnavailableNode {
                node: node@,
                reason: reason@,
            },
            DeleteReason::PendingTooLong { pod } => DeleteReasonView::PendingTooLong { pod: pod@ },
        }
    }
}

impl DeepView for DeleteReason {
    type V = DeleteReasonView;

    open spec fn deep_view(&self) -> DeleteReasonView {
        self.view()
    }
}

/// The one-line audit message rendered for a verdict.
pub open spec fn spec_describe(r: DeleteReasonView) -> Seq<char> {
    match r {
        DeleteReasonView::MissingNode { node, pod: Some(pod) } => "pod '"@ + pod
            + "' references missing node '"@ + node + "'"@,
        DeleteReasonView::MissingNode { node, pod: None } => "selected node '"@ + node
            + "' does not exist"@,
        DeleteReasonView::UnavailableNode { node, reason } => "selected node '"@ + node
            + "' is unavailable: "@ + reason,
        DeleteReasonView::PendingTooLong { pod } => "pod '"@ + pod
            + "' has been pending past the configured threshold"@,
    }
}

impl DeleteReason {
    /// Renders the verdict as a one-line audit message.
    pub fn describe(&self) -> (text: String)
        ensures
            text@ == spec_describe(self@),
    {
        match self {
            DeleteReason::MissingNode { node, pod: Some(pod) } => String::from_str("pod '")
                .concat(pod.as_str())
                .concat("' references missing node '")
                .concat(node.as_str())
                .concat("'"),
            DeleteReason::MissingNode { node, pod: None } => String::from_str("selected node '")
                .concat(node.as_str())
                .concat("' does not exist"),
            DeleteReason::UnavailableNode { node, reason } => String::from_str("selected node '")
                .concat(node.as_str())
                .concat("' is unavailable: ")
                .concat(reason.as_str()),
            DeleteReason::PendingTooLong { pod } => String::from_str("pod '")
                .concat(pod.as_str())
                .concat("' has been pending past the configured threshold"),
        }
    }
}

/// One deletion the pass planner scheduled: which claim, and why.
#[derive(Debug, Clone, PartialEq, Eq)]
pub struct PlannedDeletion {
    /// Namespace of the claim to delete.
    pub namespace: String,
    /// Name of the claim to delete.
    pub name: String,
    /// The verdict that scheduled it.
    pub reason: DeleteReason,
}

/// Mathematical view of a [`PlannedDeletion`].
pub struct PlannedDeletionView {
    /// View of the claim's namespace.
    pub namespace: Seq<char>,
    /// View of the claim's name.
    pub name: Seq<char>,
    /// View of the verdict.
    pub reason: DeleteReasonView,
}

impl View for PlannedDeletion {
    type V = PlannedDeletionView;

    open spec fn view(&self) -> PlannedDeletionView {
        PlannedDeletionView {
            namespace: self.namespace@,
            name: self.name@,
            reason: self.reason@,
        }
    }
}

impl DeepView for PlannedDeletion {
    type V = PlannedDeletionView;

    open spec fn deep_view(&self) -> PlannedDeletionView {
        self.view()
    }
}

/// The outcome of planning one pass: the deletions to carry out, in claim
/// order, and how many matching claims drew no verdict.
#[derive(Debug)]
pub struct ReapPlan {
    /// The deletions the pass should carry out, in claim listing order.
    pub actions: Vec<PlannedDeletion>,
    /// Claims that matched the storage criteria but drew no verdict.
    pub skipped_count: usize,
}

/// One pass's snapshot of the cluster: the classified node inventory, the
/// pod and claim listings, and the time the snapshot was taken.  Constructed
/// fresh each pass and discarded at its end.
#[derive(Debug)]
pub struct State {
    /// The availability inventory built from the node listing.
    pub inventory: NodeInventory,
    /// The full pod listing.
    pub pods: Vec<PodRecord>,
    /// The full claim listing.
    pub pvcs: Vec<ClaimRecord>,
    /// Snapshot time, as seconds since the epoch.
    pub now: i64,
}

impl State {
    /// Yields the pending-too-long verdict for a claim whose correlated
    /// unschedulable pod has been pending at least the configured threshold,
    /// when the configuration enables this heuristic.
    pub open spec fn spec_pending_verdict(self, c: ClaimView, cfg: ConfigView) -> Option<
        DeleteReasonView,
    > {
        if cfg.check_unschedulable_pods {
            match spec_unschedulable_pod(self.pods.deep_view(), c.name) {
                Some(p) => {
                    if spec_pod_exceeds_thresh(p, cfg.unschedulable_pod_threshold_secs, self.now) {
                        Some(DeleteReasonView::PendingTooLong { pod: p.name })
                    } else {
                        None
                    }
                },
                None => None,
            }
        } else {
            None
        }
    }

    /// The verdict for one claim.  The checks run in strict priority order
    /// and the first that fires wins: storage criteria gate everything; a
    /// vanished node outranks an unavailable one; the pending-pod heuristic
    /// is weakest and runs last, only for claims whose node looks fine (or
    /// that selected none).
    pub open spec fn spec_deletion_reason(self, c: ClaimView, cfg: ConfigView) -> Option<
        DeleteReasonView,
    > {
        if !claim_matches(c, cfg) {
            None
        } else {
            match c.selected_node {
                Some(node) => {
                    if !self.inventory.spec_has_node(node) {
                        Some(
                            DeleteReasonView::MissingNode {
                                node,
                                pod: match spec_unschedulable_pod(self.pods.deep_view(), c.name) {
                                    Some(p) => Some(p.name),
                                    None => None,
                                },
                            },
                        )
                    } else if !self.inventory.spec_node_schedulable(node) {
                        Some(
                            DeleteReasonView::UnavailableNode {
                                node,
                                reason: self.inventory.spec_unavailable_reason_of(node),
                            },
                        )
                    } else {
                        self.spec_pending_verdict(c, cfg)
                    }
                },
                None => self.spec_pending_verdict(c, cfg),
            }
        }
    }

    fn pending_verdict(&self, pvc: &ClaimRecord, config: &ReaperConfig) -> (verdict: Option<
        DeleteReason,
    >)
        ensures
            verdict.deep_view() == self.spec_pending_verdict(pvc@, config@),
    {
        if !config.check_unschedulable_pods {
            return None;
        }
        match unschedulable_pod(&self.pods, &pvc.name) {
            Some(p) => {
                if pod_exceeds_unschedulable_thresh(
                    p,
                    config.unschedulable_pod_threshold_secs,
                    self.now,
                ) {
                    Some(DeleteReason::PendingTooLong { pod: p.name.clone() })
                } else {
                    None
                }
            },
            None => None,
        }
    }

    /// Derives the deletion verdict for one claim, or none.  Total: missing
    /// fields and absent correlations are "no verdict", never an error.
    pub fn deletion_reason(&self, pvc: &ClaimRecord, config: &ReaperConfig) -> (verdict: Option<
        DeleteReason,
    >)
        ensures
            verdict.deep_view() == self.spec_deletion_reason(pvc@, config@),
    {
        if !matches_storage_criteria(pvc, config) {
            return None;
        }
        match &pvc.selected_node {
            Some(node) => {
                if !self.inventory.has_node(node) {
                    let pod = match unschedulable_pod(&self.pods, &pvc.name) {
                        Some(p) => Some(p.name.clone()),
                        None => None,
                    };
                    Some(DeleteReason::MissingNode { node: node.clone(), pod })
                } else if !self.inventory.node_schedulable(node) {
                    let reason = self.inventory.unavailable_reason(node);
                    Some(DeleteReason::UnavailableNode { node: node.clone(), reason })
                } else {
                    self.pending_verdict(pvc, config)
                }
            },
            None => self.pending_verdict(pvc, config),
        }
    }

    /// The planned deletion (at most one) that claim `c` contributes.
    pub open spec fn spec_action_of(self, c: ClaimView, cfg: ConfigView) -> Seq<
        PlannedDeletionView,
    > {
        match self.spec_deletion_reason(c, cfg) {
            Some(r) => seq![
                PlannedDeletionView { namespace: c.namespace, name: c.name, reason: r },
            ],
            None => seq![],
        }
    }

    /// The deletions planned for `claims`, in order.
    pub open spec fn spec_actions(self, claims: Seq<ClaimView>, cfg: ConfigView) -> Seq<
        PlannedDeletionView,
    >
        decreases claims.len(),
    {
        if claims.len() == 0 {
            Seq::empty()
        } else {
            self.spec_action_of(claims[0], cfg) + self.spec_actions(claims.drop_first(), cfg)
        }
    }

    /// How many of `claims` match the storage criteria yet draw no verdict.
    pub open spec fn spec_skipped(self, claims: Seq<ClaimView>, cfg: ConfigView) -> nat
        decreases claims.len(),
    {
        if claims.len() == 0 {
            0
        } else {
            (if claim_matches(claims[0], cfg) && self.spec_deletion_reason(claims[0], cfg)
                is None {
                1nat
            } else {
                0nat
            }) + self.spec_skipped(claims.drop_first(), cfg)
        }
    }

    /// Plans one whole pass: evaluates every claim of the snapshot in order
    /// and returns the deletions to carry out together with the skip count.
    pub fn plan(&self, config: &ReaperConfig) -> (p: ReapPlan)
        ensures
            p.actions.deep_view() == self.spec_actions(self.pvcs.deep_view(), config@),
            p.skipped_count == self.spec_skipped(self.pvcs.deep_view(), config@),
    {
        let ghost all_claims: Seq<ClaimView> = self.pvcs.deep_view();
        let mut actions: Vec<PlannedDeletion> = Vec::new();
        let mut skipped: usize = 0;
        let mut i: usize = 0;
        while i < self.pvcs.len()
            invariant
                i <= all_claims.len(),
                all_claims == self.pvcs.deep_view(),
                skipped <= i,
                actions.deep_view() == self.spec_actions(all_claims.take(i as int), config@),
                skipped == self.spec_skipped(all_claims.take(i as int), config@),
            decreases all_claims.len() - i,
        {
            let ghost prev_vec: Seq<PlannedDeletion> = actions@;
            let ghost prev_views: Seq<PlannedDeletionView> = actions.deep_view();
            let pvc = &self.pvcs[i];
            proof {
                assert(all_claims[i as int] == self.pvcs@[i as int]@);
            }
            if matches_storage_criteria(pvc, config) {
                match self.deletion_reason(pvc, config) {
                    Some(reason) => {
                        let action = PlannedDeletion {
                            namespace: pvc.namespace.clone(),
                            name: pvc.name.clone(),
                            reason,
                        };
                        actions.push(action);
                        proof {
                            assert forall|j: int|
                                0 <= j < actions.deep_view().len() implies actions.deep_view()[j]
                                == prev_views.push(actions@[actions@.len() - 1]@)[j] by {
                                assert(actions.deep_view()[j] == actions@[j].deep_view());
                                if j < prev_views.len() {
                                    assert(actions@[j] == prev_vec[j]);
                                    assert(prev_views[j] == prev_vec[j].deep_view());
                                }
                            }
                            assert(actions.deep_view() =~= prev_views.push(
                                actions@[actions@.len() - 1]@,
                            ));
                        }
                    },
                    None => {
                        skipped += 1;
                    },
                }
            }
            proof {
                lemma_actions_snoc(*self, all_claims.take(i as int), all_claims[i as int], config@);
                lemma_skipped_snoc(*self, all_claims.take(i as int), all_claims[i as int], config@);
                assert(all_claims.take(i as int).push(all_claims[i as int]) =~= all_claims.take(
                    i + 1,
                ));
            }
            i += 1;
        }
        proof {
            assert(all_claims.take(all_claims.len() as int) =~= all_claims);
        }
        ReapPlan { actions, skipped_count: skipped }
    }
}

proof fn lemma_actions_snoc(s: State, claims: Seq<ClaimView>, c: ClaimView, cfg: ConfigView)
    ensures
        s.spec_actions(claims.push(c), cfg) == s.spec_actions(claims, cfg) + s.spec_action_of(
            c,
            cfg,
        ),
    decreases claims.len(),
{
    if claims.len() == 0 {
        assert(claims.push(c)[0] == c);
        assert(claims.push(c).drop_first() =~= claims);
        assert(s.spec_actions(claims, cfg) =~= Seq::<PlannedDeletionView>::empty());
        assert(s.spec_action_of(c, cfg) + Seq::<PlannedDeletionView>::empty() =~= s.spec_action_of(
            c,
            cfg,
        ));
        assert(Seq::<PlannedDeletionView>::empty() + s.spec_action_of(c, cfg)
            =~= s.spec_action_of(c, cfg));
    } else {
        lemma_actions_snoc(s, claims.drop_first(), c, cfg);
        assert(claims.push(c)[0] == claims[0]);
        assert(claims.push(c).drop_first() =~= claims.drop_first().push(c));
        assert(s.spec_action_of(claims[0], cfg) + (s.spec_actions(claims.drop_first(), cfg)
            + s.spec_action_of(c, cfg)) =~= (s.spec_action_of(claims[0], cfg) + s.spec_actions(
            claims.drop_first(),
            cfg,
        )) + s.spec_action_of(c, cfg));
    }
}

proof fn lemma_skipped_snoc(s: State, claims: Seq<ClaimView>, c: ClaimView, cfg: ConfigView)
    ensures
        s.spec_skipped(claims.push(c), cfg) == s.spec_skipped(claims, cfg) + (
        if claim_matches(c, cfg) && s.spec_deletion_reason(c, cfg) is None {
            1nat
        } else {
            0nat
        }),
    decreases claims.len(),
{
    if claims.len() == 0 {
        assert(claims.push(c)[0] == c);
        assert(claims.push(c).drop_first() =~= claims);
    } else {
        lemma_skipped_snoc(s, claims.drop_first(), c, cfg);
        assert(claims.push(c)[0] == claims[0]);
        assert(claims.push(c).drop_first() =~= claims.drop_first().push(c));
    }
}

} // verus!
