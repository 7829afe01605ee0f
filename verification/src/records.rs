//! Value snapshots of the cluster resources the decision engine reads.
//!
//! Each record holds, as plain values, exactly what the engine inspects of
//! the corresponding cluster object.  The driver constructs them fresh for
//! every reconciliation pass; nothing here is cached across passes.

use vstd::prelude::*;

verus! {

/// What a claim carries for the decision engine: its identity, its storage
/// class, and the two well-known annotations (provisioner identity and
/// selected node).  Absent fields are `None`, never an error.
#[derive(Debug, Clone)]
pub struct ClaimRecord {
    /// Namespace of the claim (empty if the object carried none).
    pub namespace: String,
    /// Name of the claim.
    pub name: String,
    /// The claim's storage class name, if set.
    pub storage_class_name: Option<String>,
    /// Value of the storage-provisioner annotation, if present.
    pub provisioner_annotation: Option<String>,
    /// Value of the selected-node annotation, if present.
    pub selected_node: Option<String>,
}

/// Mathematical view of a [`ClaimRecord`].
pub struct ClaimView {
    /// View of the namespace.
    pub namespace: Seq<char>,
    /// View of the claim name.
    pub name: Seq<char>,
    /// View of the storage class name, if set.
    pub storage_class_name: Option<Seq<char>>,
    /// View of the provisioner annotation, if present.
    pub provisioner_annotation: Option<Seq<char>>,
    /// View of the selected-node annotation, if present.
    pub selected_node: Option<Seq<char>>,
}

impl View for ClaimRecord {
    type V = ClaimView;

    open spec fn view(&self) -> ClaimView {
        ClaimView {
            namespace: self.namespace@,
            name: self.name@,
            storage_class_name: self.storage_class_name.deep_view(),
            provisioner_annotation: self.provisioner_annotation.deep_view(),
            selected_node: self.selected_node.deep_view(),
        }
    }
}

impl DeepView for ClaimRecord {
    type V = ClaimView;

    open spec fn deep_view(&self) -> ClaimView {
        self.view()
    }
}

/// A pod's scheduling condition, reduced to what the engine reads: whether
/// the condition reports true, and the stated reason.
#[derive(Debug, Clone)]
pub struct ScheduledCondition {
    /// Truth value the scheduling condition reports.
    pub status: bool,
    /// Reason the condition states (empty if the object carried none).
    pub reason: String,
}

/// Mathematical view of a [`ScheduledCondition`].
pub struct ScheduledConditionView {
    /// Truth value the scheduling condition reports.
    pub status: bool,
    /// View of the stated reason.
    pub reason: Seq<char>,
}

impl View for ScheduledCondition {
    type V = ScheduledConditionView;

    open spec fn view(&self) -> ScheduledConditionView {
        ScheduledConditionView { status: self.status, reason: self.reason@ }
    }
}

impl DeepView for ScheduledCondition {
    type V = ScheduledConditionView;

    open spec fn deep_view(&self) -> ScheduledConditionView {
        self.view()
    }
}

/// What a pod carries for the decision engine: its phase, when it was
/// created, its scheduling condition, and the claims its volumes reference,
/// in the order they appear on the pod.
#[derive(Debug, Clone)]
pub struct PodRecord {
    /// Namespace of the pod (empty if the object carried none).
    pub namespace: String,
    /// Name of the pod.
    pub name: String,
    /// Lifecycle phase reported by the pod's status.
    pub phase: String,
    /// Creation time as seconds since the epoch, if the pod carries one.
    pub creation_timestamp: Option<i64>,
    /// The pod's scheduling condition, if it carries one.
    pub scheduled_condition: Option<ScheduledCondition>,
    /// Names of the claims the pod's volumes reference, in volume order.
    pub claim_names: Vec<String>,
}

/// Mathematical view of a [`PodRecord`].
pub struct PodView {
    /// View of the namespace.
    pub namespace: Seq<char>,
    /// View of the pod name.
    pub name: Seq<char>,
    /// View of the lifecycle phase.
    pub phase: Seq<char>,
    /// Creation time as seconds since the epoch, if present.
    pub creation_timestamp: Option<i64>,
    /// View of the scheduling condition, if present.
    pub scheduled_condition: Option<ScheduledConditionView>,
    /// Views of the referenced claim names, in volume order.
    pub claim_names: Seq<Seq<char>>,
}

impl View for PodRecord {
    type V = PodView;

    open spec fn view(&self) -> PodView {
        PodView {
            namespace: self.namespace@,
            name: self.name@,
            phase: self.phase@,
            creation_timestamp: self.creation_timestamp,
            scheduled_condition: self.scheduled_condition.deep_view(),
            claim_names: self.claim_names.deep_view(),
        }
    }
}

impl DeepView for PodRecord {
    type V = PodView;

    open spec fn deep_view(&self) -> PodView {
        self.view()
    }
}

/// A node's readiness condition, reduced to what the engine reads.
#[derive(Debug, Clone)]
pub struct ReadyCondition {
    /// Whether the condition reports the node as ready.
    pub status: bool,
    /// Reason the condition states, if any.
    pub reason: Option<String>,
}

/// Mathematical view of a [`ReadyCondition`].
pub struct ReadyConditionView {
    /// Whether the condition reports the node as ready.
    pub status: bool,
    /// View of the stated reason, if any.
    pub reason: Option<Seq<char>>,
}

impl View for ReadyCondition {
    type V = ReadyConditionView;

    open spec fn view(&self) -> ReadyConditionView {
        ReadyConditionView { status: self.status, reason: self.reason.deep_view() }
    }
}

impl DeepView for ReadyCondition {
    type V = ReadyConditionView;

    open spec fn deep_view(&self) -> ReadyConditionView {
        self.view()
    }
}

/// What a node carries for the decision engine: its name, whether it is
/// cordoned (explicitly marked unschedulable), and its readiness condition.
#[derive(Debug, Clone)]
pub struct NodeHealth {
    /// Name of the node.
    pub name: String,
    /// Whether the node is cordoned.
    pub cordoned: bool,
    /// The node's readiness condition, if it carries one.
    pub ready: Option<ReadyCondition>,
}

/// Mathematical view of a [`NodeHealth`].
pub struct NodeHealthView {
    /// View of the node name.
    pub name: Seq<char>,
    /// Whether the node is cordoned.
    pub cordoned: bool,
    /// View of the readiness condition, if present.
    pub ready: Option<ReadyConditionView>,
}

impl View for NodeHealth {
    type V = NodeHealthView;

    open spec fn view(&self) -> NodeHealthView {
        NodeHealthView {
            name: self.name@,
            cordoned: self.cordoned,
            ready: self.ready.deep_view(),
        }
    }
}

impl DeepView for NodeHealth {
    type V = NodeHealthView;

    open spec fn deep_view(&self) -> NodeHealthView {
        self.view()
    }
}

} // verus!
