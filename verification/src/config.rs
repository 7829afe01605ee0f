//! Runtime configuration of the reaper and the per-pass result counters.

use vstd::prelude::*;

verus! {

/// Configuration for one reconciliation pass.
///
/// The allow-list of storage class names and the provisioner string gate
/// which claims the reaper may touch at all; the remaining fields control
/// the pass cadence, dry-run mode and the pending-pod heuristic.
#[derive(Debug, Clone)]
pub struct ReaperConfig {
    /// Storage class names whose claims the reaper is permitted to manage.
    pub storage_classes: Vec<String>,
    /// Exact storage provisioner annotation value a claim must carry.
    pub storage_provisioner: String,
    /// Seconds between reaping passes.
    pub reap_interval_secs: u64,
    /// When set, deletions are only reported, never executed.
    pub dry_run: bool,
    /// Enables the pending-pod check for claims whose node looks fine.
    pub check_unschedulable_pods: bool,
    /// Seconds a pod must have been pending before its claim is eligible.
    pub unschedulable_pod_threshold_secs: u64,
}

/// Mathematical view of a [`ReaperConfig`].
pub struct ConfigView {
    /// Views of the allowed storage class names.
    pub storage_classes: Seq<Seq<char>>,
    /// View of the required provisioner annotation value.
    pub storage_provisioner: Seq<char>,
    /// Seconds between reaping passes.
    pub reap_interval_secs: u64,
    /// Whether deletions are only simulated.
    pub dry_run: bool,
    /// Whether the pending-pod check runs.
    pub check_unschedulable_pods: bool,
    /// Pending-duration threshold in seconds.
    pub unschedulable_pod_threshold_secs: u64,
}

impl View for ReaperConfig {
    type V = ConfigView;

    open spec fn view(&self) -> ConfigView {
        ConfigView {
            storage_classes: self.storage_classes.deep_view(),
            storage_provisioner: self.storage_provisioner@,
            reap_interval_secs: self.reap_interval_secs,
            dry_run: self.dry_run,
            check_unschedulable_pods: self.check_unschedulable_pods,
            unschedulable_pod_threshold_secs: self.unschedulable_pod_threshold_secs,
        }
    }
}

/// Counters aggregated over one reconciliation pass.
#[derive(Debug)]
pub struct ReapResult {
    /// Claims for which a deletion was issued (or simulated in dry-run mode).
    pub deleted_count: usize,
    /// Claims that matched the storage criteria but drew no verdict.
    pub skipped_count: usize,
}

impl Default for ReapResult {
    /// An empty result: nothing deleted, nothing skipped.
    fn default() -> (r: Self)
        ensures
            r.deleted_count == 0,
            r.skipped_count == 0,
    {
        ReapResult { deleted_count: 0, skipped_count: 0 }
    }
}

} // verus!
