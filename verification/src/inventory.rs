//! Node inventory builder: classifies every node of a pass's listing into
//! available/schedulable, with a human-readable reason for unavailability.

use vstd::prelude::*;
use crate::records::NodeHealth;
use crate::records::NodeHealthView;
use crate::records::ReadyConditionView;

verus! {

/// Classification derived for one node: its name, whether it can accept new
/// work, and — when it cannot — why.
#[derive(Debug, Clone)]
pub struct NodeRecord {
    /// Name of the node.
    pub name: String,
    /// Whether the node can accept new work.
    pub schedulable: bool,
    /// Why the node cannot accept new work, when it cannot.
    pub unavailable_reason: Option<String>,
}

/// Mathematical view of a [`NodeRecord`].
pub struct NodeRecordView {
    /// View of the node name.
    pub name: Seq<char>,
    /// Whether the node can accept new work.
    pub schedulable: bool,
    /// View of the unavailability reason, when there is one.
    pub unavailable_reason: Option<Seq<char>>,
}

impl View for NodeRecord {
    type V = NodeRecordView;

    open spec fn view(&self) -> NodeRecordView {
        NodeRecordView {
            name: self.name@,
            schedulable: self.schedulable,
            unavailable_reason: self.unavailable_reason.deep_view(),
        }
    }
}

impl DeepView for NodeRecord {
    type V = NodeRecordView;

    open spec fn deep_view(&self) -> NodeRecordView {
        self.view()
    }
}

/// A node is schedulable iff it is not cordoned and its readiness condition
/// is present and reports true.
pub open spec fn spec_schedulable(h: NodeHealthView) -> bool {
    !h.cordoned && (h.ready matches Some(rc) && rc.status)
}

/// The cause a false readiness condition states, defaulting to `NotReady`
/// when the condition carries no reason.
pub open spec fn spec_ready_cause(rc: ReadyConditionView) -> Seq<char> {
    match rc.reason {
        Some(r) => r,
        None => "NotReady"@,
    }
}

/// The reason recorded for a node that is not schedulable: the applicable
/// causes in order, comma-joined — `cordoned` when the cordon flag is set,
/// and either `Ready=<cause>` for a present-but-false readiness condition or
/// `Ready condition missing` when the node has none.  The final branch is a
/// defensive fallback for a node that looks schedulable after all.
pub open spec fn spec_unavailable_reason(h: NodeHealthView) -> Seq<char> {
    match h.ready {
        None => {
            if h.cordoned {
                "cordoned"@ + ","@ + "Ready condition missing"@
            } else {
                "Ready condition missing"@
            }
        },
        Some(rc) => {
            if !rc.status {
                if h.cordoned {
                    "cordoned"@ + ","@ + "Ready="@ + spec_ready_cause(rc)
                } else {
                    "Ready="@ + spec_ready_cause(rc)
                }
            } else {
                if h.cordoned {
                    "cordoned"@
                } else {
                    "Node schedulability unknown"@
                }
            }
        },
    }
}

/// The classification [`classify_node`] derives for one node.
pub open spec fn spec_classify(h: NodeHealthView) -> NodeRecordView {
    NodeRecordView {
        name: h.name,
        schedulable: spec_schedulable(h),
        unavailable_reason: if spec_schedulable(h) {
            None
        } else {
            Some(spec_unavailable_reason(h))
        },
    }
}

/// Renders the unavailability reason for `node` as [`spec_unavailable_reason`]
/// describes it.
fn unavailable_reason_of(node: &NodeHealth) -> (reason: String)
    ensures
        reason@ == spec_unavailable_reason(node@),
{
    match &node.ready {
        None => {
            if node.cordoned {
                String::from_str("cordoned").concat(",").concat("Ready condition missing")
            } else {
                String::from_str("Ready condition missing")
            }
        },
        Some(rc) => {
            if !rc.status {
                let cause: &str = match &rc.reason {
                    Some(r) => r.as_str(),
                    None => "NotReady",
                };
                if node.cordoned {
                    String::from_str("cordoned").concat(",").concat("Ready=").concat(cause)
                } else {
                    String::from_str("Ready=").concat(cause)
                }
            } else {
                if node.cordoned {
                    String::from_str("cordoned")
                } else {
                    String::from_str("Node schedulability unknown")
                }
            }
        },
    }
}

/// Classifies one node: schedulable iff not cordoned and ready, with a
/// recorded reason whenever it is not schedulable.
pub fn classify_node(node: &NodeHealth) -> (record: NodeRecord)
    ensures
        record@ == spec_classify(node@),
{
    let ready = match &node.ready {
        Some(rc) => rc.status,
        None => false,
    };
    let schedulable = !node.cordoned && ready;
    let unavailable_reason = if schedulable {
        None
    } else {
        Some(unavailable_reason_of(node))
    };
    NodeRecord { name: node.name.clone(), schedulable, unavailable_reason }
}

/// The first record of `recs` whose name is `name`, if any.
pub open spec fn lookup_node(recs: Seq<NodeRecordView>, name: Seq<char>) -> Option<NodeRecordView>
    decreases recs.len(),
{
    if recs.len() == 0 {
        None
    } else if recs[0].name == name {
        Some(recs[0])
    } else {
        lookup_node(recs.drop_first(), name)
    }
}

/// Skipping a prefix that contains no record of this name leaves the lookup
/// result unchanged.
pub proof fn lemma_lookup_node_skip(recs: Seq<NodeRecordView>, name: Seq<char>, i: int)
    requires
        0 <= i <= recs.len(),
        forall|j: int| 0 <= j < i ==> recs[j].name != name,
    ensures
        lookup_node(recs, name) == lookup_node(recs.skip(i), name),
    decreases i,
{
    if i > 0 {
        lemma_lookup_node_skip(recs, name, i - 1);
        assert(recs.skip(i - 1)[0] == recs[i - 1]);
        assert(recs.skip(i - 1).drop_first() =~= recs.skip(i));
    } else {
        assert(recs.skip(0) =~= recs);
    }
}

/// The availability inventory of one pass: every node of the listing,
/// classified.  Built once per pass and immutable afterwards; when a name
/// occurs more than once in the listing, the first record wins.
#[derive(Debug, Clone)]
pub struct NodeInventory {
    /// One classification per listed node, in listing order.
    pub records: Vec<NodeRecord>,
}

impl NodeInventory {
    /// Views of the classified records, in listing order.
    pub open spec fn recs(self) -> Seq<NodeRecordView> {
        self.records.deep_view()
    }

    /// Whether a node of this name was seen in the listing at all.
    pub open spec fn spec_has_node(self, name: Seq<char>) -> bool {
        lookup_node(self.recs(), name) is Some
    }

    /// Whether a node of this name was seen and can accept new work.
    pub open spec fn spec_node_schedulable(self, name: Seq<char>) -> bool {
        lookup_node(self.recs(), name) matches Some(r) && r.schedulable
    }

    /// The reason recorded for this node, falling back to the generic
    /// `Node schedulability unknown` where none was recorded.
    pub open spec fn spec_unavailable_reason_of(self, name: Seq<char>) -> Seq<char> {
        match lookup_node(self.recs(), name) {
            Some(r) => match r.unavailable_reason {
                Some(s) => s,
                None => "Node schedulability unknown"@,
            },
            None => "Node schedulability unknown"@,
        }
    }

    /// All node names seen in the listing.
    pub open spec fn available(self) -> Set<Seq<char>> {
        Set::new(|name: Seq<char>| self.spec_has_node(name))
    }

    /// The names of the nodes that can accept new work.
    pub open spec fn schedulable_set(self) -> Set<Seq<char>> {
        Set::new(|name: Seq<char>| self.spec_node_schedulable(name))
    }

    /// The recorded reason for every available node that cannot accept work.
    pub open spec fn unavailable_reasons(self) -> Map<Seq<char>, Seq<char>> {
        Map::new(
            |name: Seq<char>| self.spec_has_node(name) && !self.spec_node_schedulable(name),
            |name: Seq<char>| self.spec_unavailable_reason_of(name),
        )
    }

    /// Builds the inventory for one pass by classifying every listed node.
    pub fn build(nodes: &Vec<NodeHealth>) -> (inv: NodeInventory)
        ensures
            inv.recs().len() == nodes@.len(),
            forall|i: int|
                0 <= i < nodes@.len() ==> inv.recs()[i] == spec_classify(nodes.deep_view()[i]),
    {
        let mut records: Vec<NodeRecord> = Vec::new();
        let mut i: usize = 0;
        while i < nodes.len()
            invariant
                i <= nodes@.len(),
                records.deep_view().len() == i,
                forall|j: int|
                    0 <= j < i ==> records.deep_view()[j] == spec_classify(nodes.deep_view()[j]),
            decreases nodes@.len() - i,
        {
            let ghost prev: Seq<NodeRecord> = records@;
            let ghost prev_views: Seq<NodeRecordView> = records.deep_view();
            let record = classify_node(&nodes[i]);
            records.push(record);
            proof {
                assert forall|j: int|
                    0 <= j < i + 1 implies records.deep_view()[j] == spec_classify(
                    nodes.deep_view()[j],
                ) by {
                    assert(records.deep_view()[j] == records@[j].deep_view());
                    if j < i {
                        assert(records@[j] == prev[j]);
                        assert(prev_views[j] == prev[j].deep_view());
                    } else {
                        assert(records@[j] == record);
                    }
                }
            }
            i += 1;
        }
        NodeInventory { records }
    }

    /// The first classified record for this node name, if any.
    fn lookup(&self, name: &String) -> (found: Option<&NodeRecord>)
        ensures
            found.deep_view() == lookup_node(self.recs(), name@),
    {
        let mut i: usize = 0;
        while i < self.records.len()
            invariant
                i <= self.recs().len(),
                forall|j: int| 0 <= j < i ==> self.recs()[j].name != name@,
            decreases self.recs().len() - i,
        {
            if self.records[i].name.eq(name) {
                proof {
                    lemma_lookup_node_skip(self.recs(), name@, i as int);
                    assert(self.recs().skip(i as int)[0] == self.recs()[i as int]);
                }
                return Some(&self.records[i]);
            }
            i += 1;
        }
        proof {
            lemma_lookup_node_skip(self.recs(), name@, self.recs().len() as int);
        }
        None
    }

    /// Whether a node of this name exists in the inventory at all.
    pub fn has_node(&self, name: &String) -> (present: bool)
        ensures
            present == self.spec_has_node(name@),
    {
        self.lookup(name).is_some()
    }

    /// Whether a node of this name exists and can accept new work.
    pub fn node_schedulable(&self, name: &String) -> (schedulable: bool)
        ensures
            schedulable == self.spec_node_schedulable(name@),
    {
        match self.lookup(name) {
            Some(r) => r.schedulable,
            None => false,
        }
    }

    /// The reason recorded for this node, with the generic fallback where
    /// none was recorded.
    pub fn unavailable_reason(&self, name: &String) -> (reason: String)
        ensures
            reason@ == self.spec_unavailable_reason_of(name@),
    {
        match self.lookup(name) {
            Some(r) => match &r.unavailable_reason {
                Some(s) => s.clone(),
                None => String::from_str("Node schedulability unknown"),
            },
            None => String::from_str("Node schedulability unknown"),
        }
    }
}

/// The inventory invariant: every schedulable node was seen in the listing,
/// and every node seen but not schedulable has a recorded reason.
pub proof fn lemma_inventory_invariant(inv: NodeInventory)
    ensures
        inv.schedulable_set().subset_of(inv.available()),
        forall|name: Seq<char>|
            inv.available().contains(name) && !inv.schedulable_set().contains(name)
                ==> inv.unavailable_reasons().dom().contains(name),
{
}

} // verus!
