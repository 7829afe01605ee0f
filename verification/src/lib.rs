//! Decision engine of a reconciliation controller that garbage-collects
//! persistent volume claims stranded by node loss or scheduling failure.
//!
//! Each reconciliation pass works on a fresh snapshot of the cluster: the
//! node listing is classified into an availability inventory, every claim is
//! matched against the configured storage criteria and correlated with the
//! pods that reference it, and a deletion verdict with an auditable reason is
//! derived for each claim.  The engine is pure: it never performs I/O, never
//! errors, and is total over its inputs.  Listing resources and issuing the
//! actual deletions is left to the surrounding driver, which hands the engine
//! plain values and acts on the plan it returns.

pub mod config;
pub mod criteria;
pub mod decide;
pub mod inventory;
pub mod laws;
pub mod pods;
pub mod records;

pub use config::ReapResult;
pub use config::ReaperConfig;
pub use criteria::matches_storage_criteria;
pub use decide::DeleteReason;
pub use decide::PlannedDeletion;
pub use decide::ReapPlan;
pub use decide::State;
pub use inventory::NodeInventory;
pub use inventory::NodeRecord;
pub use pods::pod_exceeds_unschedulable_thresh;
pub use pods::pod_is_pending;
pub use pods::pod_is_unschedulable;
pub use pods::pod_uses_pvc;
pub use pods::unschedulable_pod;
pub use records::ClaimRecord;
pub use records::NodeHealth;
pub use records::PodRecord;
pub use records::ReadyCondition;
pub use records::ScheduledCondition;
