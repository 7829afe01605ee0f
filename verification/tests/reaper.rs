//! End-to-end tests of the decision engine on concrete snapshots.

use pvc_reaper::ClaimRecord;
use pvc_reaper::DeleteReason;
use pvc_reaper::NodeHealth;
use pvc_reaper::NodeInventory;
use pvc_reaper::PodRecord;
use pvc_reaper::ReadyCondition;
use pvc_reaper::ReapResult;
use pvc_reaper::ReaperConfig;
use pvc_reaper::ScheduledCondition;
use pvc_reaper::State;
use pvc_reaper::matches_storage_criteria;
use pvc_reaper::pod_exceeds_unschedulable_thresh;

/// A fixed snapshot time for the tests, in seconds since the epoch.
const NOW: i64 = 1_000_000;

fn test_pvc(
    name: &str,
    storage_class: &str,
    provisioner: &str,
    selected_node: Option<&str>,
) -> ClaimRecord {
    ClaimRecord {
        namespace: "default".to_string(),
        name: name.to_string(),
        storage_class_name: Some(storage_class.to_string()),
        provisioner_annotation: Some(provisioner.to_string()),
        selected_node: selected_node.map(|n| n.to_string()),
    }
}

fn test_config() -> ReaperConfig {
    ReaperConfig {
        storage_classes: vec!["openebs-lvm".to_string()],
        storage_provisioner: "local.csi.openebs.io".to_string(),
        reap_interval_secs: 60,
        dry_run: false,
        check_unschedulable_pods: true,
        unschedulable_pod_threshold_secs: 300,
    }
}

fn healthy_node(name: &str) -> NodeHealth {
    NodeHealth {
        name: name.to_string(),
        cordoned: false,
        ready: Some(ReadyCondition { status: true, reason: None }),
    }
}

fn state_with(node_names: &[&str], pods: Vec<PodRecord>, pvcs: Vec<ClaimRecord>) -> State {
    let nodes: Vec<NodeHealth> = node_names.iter().map(|n| healthy_node(n)).collect();
    State { inventory: NodeInventory::build(&nodes), pods, pvcs, now: NOW }
}

fn pod_with_pvc(
    pod_name: &str,
    pvc_name: &str,
    phase: &str,
    condition_reason: Option<&str>,
    creation_offset_secs: i64,
) -> PodRecord {
    PodRecord {
        namespace: "default".to_string(),
        name: pod_name.to_string(),
        phase: phase.to_string(),
        creation_timestamp: Some(NOW - creation_offset_secs),
        scheduled_condition: condition_reason.map(|reason| ScheduledCondition {
            status: false,
            reason: reason.to_string(),
        }),
        claim_names: vec![pvc_name.to_string()],
    }
}

#[test]
fn test_matches_storage_criteria() {
    let pvc = test_pvc("test", "openebs-lvm", "local.csi.openebs.io", Some("node-1"));
    assert!(matches_storage_criteria(&pvc, &test_config()));
}

#[test]
fn test_matches_storage_criteria_multiple_classes() {
    let pvc = test_pvc("test", "local-storage", "local.csi.openebs.io", Some("node-1"));
    let mut config = test_config();
    config.storage_classes = vec!["openebs-lvm".to_string(), "local-storage".to_string()];
    assert!(matches_storage_criteria(&pvc, &config));
}

#[test]
fn test_matches_storage_criteria_rejects_wrong_class() {
    let pvc = test_pvc("test", "other-class", "local.csi.openebs.io", Some("node-1"));
    assert!(!matches_storage_criteria(&pvc, &test_config()));
}

#[test]
fn test_matches_storage_criteria_rejects_wrong_provisioner() {
    let pvc = test_pvc("test", "openebs-lvm", "other.provisioner.io", Some("node-1"));
    assert!(!matches_storage_criteria(&pvc, &test_config()));
}

#[test]
fn test_matches_storage_criteria_rejects_missing_fields() {
    let mut no_class = test_pvc("test", "openebs-lvm", "local.csi.openebs.io", None);
    no_class.storage_class_name = None;
    assert!(!matches_storage_criteria(&no_class, &test_config()));

    let mut no_provisioner = test_pvc("test", "openebs-lvm", "local.csi.openebs.io", None);
    no_provisioner.provisioner_annotation = None;
    assert!(!matches_storage_criteria(&no_provisioner, &test_config()));
}

#[test]
fn test_pod_unschedulable_long_enough_with_unschedulable_condition() {
    let pod = pod_with_pvc("pending-pod", "test", "Pending", Some("Unschedulable"), 600);
    assert!(pod_exceeds_unschedulable_thresh(&pod, 300, NOW));
}

#[test]
fn test_pod_unschedulable_not_long_enough() {
    let pod = pod_with_pvc("pending-pod", "test", "Pending", Some("Unschedulable"), 60);
    assert!(!pod_exceeds_unschedulable_thresh(&pod, 300, NOW));
}

#[test]
fn test_pod_exceeds_thresh_at_exact_boundary() {
    let pod = pod_with_pvc("pending-pod", "test", "Pending", Some("Unschedulable"), 300);
    assert!(pod_exceeds_unschedulable_thresh(&pod, 300, NOW));
}

#[test]
fn test_pod_without_timestamp_never_exceeds() {
    let mut pod = pod_with_pvc("pending-pod", "test", "Pending", Some("Unschedulable"), 600);
    pod.creation_timestamp = None;
    assert!(!pod_exceeds_unschedulable_thresh(&pod, 0, NOW));
}

#[test]
fn test_non_pending_pod_never_exceeds() {
    let pod = pod_with_pvc("running-pod", "test", "Running", Some("Unschedulable"), 600);
    assert!(!pod_exceeds_unschedulable_thresh(&pod, 300, NOW));
}

#[test]
fn test_deletion_reason_when_node_missing() {
    let pvc = test_pvc("test", "openebs-lvm", "local.csi.openebs.io", Some("missing-node"));
    let pod = pod_with_pvc("pending-pod", "test", "Pending", Some("Unschedulable"), 10);

    let state = state_with(&[], vec![pod], vec![pvc.clone()]);

    let reason = state
        .deletion_reason(&pvc, &test_config())
        .expect("expected deletion reason");

    match reason {
        DeleteReason::MissingNode { node, pod } => {
            assert_eq!(node, "missing-node");
            assert_eq!(pod, Some("pending-pod".to_string()));
        }
        _ => panic!("expected missing node reason"),
    }
}

#[test]
fn test_deletion_reason_when_unschedulable_too_long() {
    let pvc = test_pvc("test", "openebs-lvm", "local.csi.openebs.io", Some("node-1"));
    let pod = pod_with_pvc("pending-pod", "test", "Pending", Some("Unschedulable"), 601);

    let state = state_with(&["node-1"], vec![pod], vec![pvc.clone()]);

    let reason = state
        .deletion_reason(&pvc, &test_config())
        .expect("expected deletion reason");

    match reason {
        DeleteReason::PendingTooLong { pod } => assert_eq!(pod, "pending-pod"),
        _ => panic!("expected pending too long reason"),
    }
}

#[test]
fn test_deletion_reason_skips_when_pod_not_unschedulable() {
    let pvc = test_pvc("test", "openebs-lvm", "local.csi.openebs.io", Some("node-1"));
    let pod = pod_with_pvc("pending-pod", "test", "Pending", Some("OtherReason"), 600);

    let state = state_with(&["node-1"], vec![pod], vec![pvc.clone()]);

    assert!(state.deletion_reason(&pvc, &test_config()).is_none());
}

#[test]
fn test_ghost_node_yields_missing_node_verdict() {
    let pvc = test_pvc("c1", "openebs-lvm", "local.csi.openebs.io", Some("ghost"));
    let state = state_with(&[], vec![], vec![pvc.clone()]);

    let reason = state
        .deletion_reason(&pvc, &test_config())
        .expect("expected deletion reason");

    assert_eq!(
        reason,
        DeleteReason::MissingNode { node: "ghost".to_string(), pod: None }
    );
}

#[test]
fn test_cordoned_node_yields_unavailable_node_verdict() {
    let pvc = test_pvc("c2", "openebs-lvm", "local.csi.openebs.io", Some("n1"));
    let nodes = vec![NodeHealth {
        name: "n1".to_string(),
        cordoned: true,
        ready: Some(ReadyCondition { status: true, reason: None }),
    }];
    let state = State {
        inventory: NodeInventory::build(&nodes),
        pods: vec![],
        pvcs: vec![pvc.clone()],
        now: NOW,
    };

    let reason = state
        .deletion_reason(&pvc, &test_config())
        .expect("expected deletion reason");

    assert_eq!(
        reason,
        DeleteReason::UnavailableNode { node: "n1".to_string(), reason: "cordoned".to_string() }
    );
}

#[test]
fn test_healthy_node_with_old_pending_pod_yields_pending_too_long() {
    let pvc = test_pvc("c3", "openebs-lvm", "local.csi.openebs.io", Some("n2"));
    let pod = pod_with_pvc("p1", "c3", "Pending", Some("Unschedulable"), 601);
    let state = state_with(&["n2"], vec![pod], vec![pvc.clone()]);

    let reason = state
        .deletion_reason(&pvc, &test_config())
        .expect("expected deletion reason");

    assert_eq!(reason, DeleteReason::PendingTooLong { pod: "p1".to_string() });
}

#[test]
fn test_healthy_node_with_young_pending_pod_yields_no_verdict() {
    let pvc = test_pvc("c3", "openebs-lvm", "local.csi.openebs.io", Some("n2"));
    let pod = pod_with_pvc("p1", "c3", "Pending", Some("Unschedulable"), 60);
    let state = state_with(&["n2"], vec![pod], vec![pvc.clone()]);

    assert!(state.deletion_reason(&pvc, &test_config()).is_none());
}

#[test]
fn test_wrong_class_claim_ignored_despite_missing_node() {
    let pvc = test_pvc("c4", "other-class", "local.csi.openebs.io", Some("ghost"));
    let state = state_with(&[], vec![], vec![pvc.clone()]);

    assert!(state.deletion_reason(&pvc, &test_config()).is_none());
}

#[test]
fn test_pending_check_disabled_yields_no_pending_verdict() {
    let pvc = test_pvc("c5", "openebs-lvm", "local.csi.openebs.io", Some("n1"));
    let pod = pod_with_pvc("p1", "c5", "Pending", Some("Unschedulable"), 10_000);
    let state = state_with(&["n1"], vec![pod], vec![pvc.clone()]);

    let mut config = test_config();
    config.check_unschedulable_pods = false;
    assert!(state.deletion_reason(&pvc, &config).is_none());
}

#[test]
fn test_first_referencing_pod_wins() {
    // The first pod referencing the claim is pending but not flagged
    // unschedulable, so correlation yields none even though a later pod
    // would qualify: first match wins.
    let pvc = test_pvc("c6", "openebs-lvm", "local.csi.openebs.io", Some("n1"));
    let waiting = pod_with_pvc("waiting-pod", "c6", "Pending", None, 900);
    let stuck = pod_with_pvc("stuck-pod", "c6", "Pending", Some("Unschedulable"), 900);
    let state = state_with(&["n1"], vec![waiting, stuck], vec![pvc.clone()]);

    assert!(state.deletion_reason(&pvc, &test_config()).is_none());
}

#[test]
fn test_claim_without_selected_node_can_still_pend_too_long() {
    let pvc = test_pvc("c7", "openebs-lvm", "local.csi.openebs.io", None);
    let pod = pod_with_pvc("p7", "c7", "Pending", Some("Unschedulable"), 301);
    let state = state_with(&["n1"], vec![pod], vec![pvc.clone()]);

    let reason = state
        .deletion_reason(&pvc, &test_config())
        .expect("expected deletion reason");
    assert_eq!(reason, DeleteReason::PendingTooLong { pod: "p7".to_string() });
}

#[test]
fn test_missing_node_outranks_pending_pod() {
    let pvc = test_pvc("c8", "openebs-lvm", "local.csi.openebs.io", Some("gone"));
    let pod = pod_with_pvc("p8", "c8", "Pending", Some("Unschedulable"), 10_000);
    let state = state_with(&["other-node"], vec![pod], vec![pvc.clone()]);

    let reason = state
        .deletion_reason(&pvc, &test_config())
        .expect("expected deletion reason");
    match reason {
        DeleteReason::MissingNode { node, pod } => {
            assert_eq!(node, "gone");
            assert_eq!(pod, Some("p8".to_string()));
        }
        _ => panic!("expected missing node reason"),
    }
}

#[test]
fn test_plan_collects_actions_and_skips() {
    let doomed = test_pvc("doomed", "openebs-lvm", "local.csi.openebs.io", Some("ghost"));
    let kept = test_pvc("kept", "openebs-lvm", "local.csi.openebs.io", Some("n1"));
    let ignored = test_pvc("ignored", "other-class", "local.csi.openebs.io", Some("ghost"));
    let state = state_with(
        &["n1"],
        vec![],
        vec![doomed.clone(), kept.clone(), ignored.clone()],
    );

    let plan = state.plan(&test_config());
    assert_eq!(plan.actions.len(), 1);
    assert_eq!(plan.actions[0].namespace, "default");
    assert_eq!(plan.actions[0].name, "doomed");
    assert_eq!(
        plan.actions[0].reason,
        DeleteReason::MissingNode { node: "ghost".to_string(), pod: None }
    );
    assert_eq!(plan.skipped_count, 1);
}

#[test]
fn test_plan_is_idempotent() {
    let pvc = test_pvc("c9", "openebs-lvm", "local.csi.openebs.io", Some("ghost"));
    let pod = pod_with_pvc("p9", "c9", "Pending", Some("Unschedulable"), 500);
    let state = state_with(&["n1"], vec![pod], vec![pvc]);

    let first = state.plan(&test_config());
    let second = state.plan(&test_config());
    assert_eq!(first.actions, second.actions);
    assert_eq!(first.skipped_count, second.skipped_count);
}

#[test]
fn test_dry_run_plans_identically() {
    let doomed = test_pvc("doomed", "openebs-lvm", "local.csi.openebs.io", Some("ghost"));
    let kept = test_pvc("kept", "openebs-lvm", "local.csi.openebs.io", Some("n1"));
    let state = state_with(&["n1"], vec![], vec![doomed, kept]);

    let live = test_config();
    let mut dry = test_config();
    dry.dry_run = true;

    let live_plan = state.plan(&live);
    let dry_plan = state.plan(&dry);
    assert_eq!(live_plan.actions, dry_plan.actions);
    assert_eq!(live_plan.skipped_count, dry_plan.skipped_count);
}

#[test]
fn test_reap_result_default_is_zero() {
    let result = ReapResult::default();
    assert_eq!(result.deleted_count, 0);
    assert_eq!(result.skipped_count, 0);
}
