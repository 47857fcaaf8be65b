//! The target resolver: turns a deploy request into the ordered list of
//! targets to deploy to.
//!
//! Resolution is a lookup in metadata. It opens no remote session: a filter
//! that matches nothing fails before any connection is paid for.

use crate::pool::{DeployTarget, DeployTargetView, NodeStatus};
use crate::text::{copy_opt, decimal, format_decimal, opt_text, same_text};
use vstd::prelude::*;

verus! {

/// Why no target could be resolved.
#[derive(Debug)]
pub enum ResolutionError {
    /// Nothing is bound to the application and the run is not interactive.
    NoNodesBound,
    /// Nothing is bound and the operator has no node to choose from.
    NoNodesAvailable,
    /// The operator's choice names no candidate.
    NoSuchCandidate(usize),
    /// The node filter matches none of the resolved targets.
    NodeNotBound(u64),
    /// The region filter matches none of the resolved targets.
    NoNodesInRegion(String),
}

pub enum ResolutionErrorView {
    NoNodesBound,
    NoNodesAvailable,
    NoSuchCandidate(nat),
    NodeNotBound(nat),
    NoNodesInRegion(Seq<char>),
}

impl View for ResolutionError {
    type V = ResolutionErrorView;

    open spec fn view(&self) -> ResolutionErrorView {
        match self {
            ResolutionError::NoNodesBound => ResolutionErrorView::NoNodesBound,
            ResolutionError::NoNodesAvailable => ResolutionErrorView::NoNodesAvailable,
            ResolutionError::NoSuchCandidate(i) => ResolutionErrorView::NoSuchCandidate(*i as nat),
            ResolutionError::NodeNotBound(id) => ResolutionErrorView::NodeNotBound(*id as nat),
            ResolutionError::NoNodesInRegion(r) => ResolutionErrorView::NoNodesInRegion(r@),
        }
    }
}

impl ResolutionErrorView {
    /// What the operator is told.
    pub open spec fn message(self) -> Seq<char> {
        match self {
            ResolutionErrorView::NoNodesBound =>
                "No nodes bound. Use `ops set <app.project> --node <id>` to bind a node first."@,
            ResolutionErrorView::NoNodesAvailable =>
                "No nodes available. Initialize one with `ops init` first."@,
            ResolutionErrorView::NoSuchCandidate(i) => "No node at position "@ + decimal(i + 1),
            ResolutionErrorView::NodeNotBound(id) => "Node "@ + decimal(id)
                + " is not bound to this app"@,
            ResolutionErrorView::NoNodesInRegion(region) => "No nodes in region '"@ + region
                + "' bound to this app"@,
        }
    }
}

impl ResolutionError {
    /// What the operator is told.
    pub fn message(&self) -> (m: String)
        ensures
            m@ == self@.message(),
    {
        match self {
            ResolutionError::NoNodesBound => {
                "No nodes bound. Use `ops set <app.project> --node <id>` to bind a node first.".to_owned()
            },
            ResolutionError::NoNodesAvailable => {
                "No nodes available. Initialize one with `ops init` first.".to_owned()
            },
            ResolutionError::NoSuchCandidate(i) => {
                let mut m = "No node at position ".to_owned();
                m.append(crate::text::format_decimal_wide(*i as u128 + 1).as_str());
                m
            },
            ResolutionError::NodeNotBound(id) => {
                let mut m = "Node ".to_owned();
                m.append(format_decimal(*id).as_str());
                m.append(" is not bound to this app");
                m
            },
            ResolutionError::NoNodesInRegion(region) => {
                let mut m = "No nodes in region '".to_owned();
                m.append(region.as_str());
                m.append("' bound to this app");
                m
            },
        }
    }
}

// ---------------------------------------------------------------------------
// Targets from metadata
// ---------------------------------------------------------------------------

/// A registered node, as the control plane lists it.
#[derive(Debug)]
pub struct NodeRecord {
    pub id: u64,
    pub domain: String,
    pub ip_address: String,
    pub hostname: Option<String>,
    pub region: Option<String>,
    pub zone: Option<String>,
    pub status: NodeStatus,
    /// The projects with an application bound to this node.
    pub bound_projects: Vec<String>,
}

/// The weight of a target that the orchestrator makes up itself.
pub const DEFAULT_WEIGHT: u32 = 100;

/// The target that stands for a node, with the default weight.
pub open spec fn target_of_node(node: &NodeRecord, is_primary: bool) -> DeployTargetView {
    DeployTargetView {
        node_id: node.id as nat,
        domain: node.domain@,
        ip_address: node.ip_address@,
        hostname: opt_text(node.hostname),
        region: opt_text(node.region),
        zone: opt_text(node.zone),
        weight: DEFAULT_WEIGHT as nat,
        is_primary,
        status: node.status,
    }
}

pub fn target_from_node(node: &NodeRecord, is_primary: bool) -> (t: DeployTarget)
    ensures
        t@ == target_of_node(node, is_primary),
{
    DeployTarget {
        node_id: node.id,
        domain: node.domain.clone(),
        ip_address: node.ip_address.clone(),
        hostname: copy_opt(&node.hostname),
        region: copy_opt(&node.region),
        zone: copy_opt(&node.zone),
        weight: DEFAULT_WEIGHT,
        is_primary,
        status: node.status,
    }
}

/// The single target that stands for a target pinned in the description. It
/// names no registered node: the pinned text is its address.
pub open spec fn pinned_target(pinned: Seq<char>) -> DeployTargetView {
    DeployTargetView {
        node_id: 0,
        domain: pinned,
        ip_address: Seq::empty(),
        hostname: None,
        region: None,
        zone: None,
        weight: DEFAULT_WEIGHT as nat,
        is_primary: true,
        status: NodeStatus::Unknown,
    }
}

pub fn synthetic_target(pinned: &str) -> (t: DeployTarget)
    ensures
        t@ == pinned_target(pinned@),
{
    DeployTarget {
        node_id: 0,
        domain: pinned.to_owned(),
        ip_address: String::new(),
        hostname: None,
        region: None,
        zone: None,
        weight: DEFAULT_WEIGHT,
        is_primary: true,
        status: NodeStatus::Unknown,
    }
}

/// Whether a node has an application of `project` bound to it.
pub open spec fn bound_to(node: &NodeRecord, project: Seq<char>) -> bool {
    exists|i: int| 0 <= i < node.bound_projects@.len() && #[trigger] node.bound_projects@[i]@ == project
}

pub fn is_bound_to(node: &NodeRecord, project: &str) -> (r: bool)
    ensures
        r == bound_to(node, project@),
{
    let mut i: usize = 0;
    while i < node.bound_projects.len()
        invariant
            i <= node.bound_projects.len(),
            forall|j: int| 0 <= j < i ==> #[trigger] node.bound_projects@[j]@ != project@,
        decreases node.bound_projects.len() - i,
    {
        if same_text(node.bound_projects[i].as_str(), project) {
            return true;
        }
        i += 1;
    }
    false
}

/// The targets that stand for the nodes bound to `project`, in listing
/// order; the first of them is the primary.
pub open spec fn targets_bound_to(nodes: Seq<NodeRecord>, project: Seq<char>) -> Seq<
    DeployTargetView,
>
    decreases nodes.len(),
{
    if nodes.len() == 0 {
        Seq::empty()
    } else {
        let before = targets_bound_to(nodes.drop_last(), project);
        if bound_to(&nodes.last(), project) {
            before.push(target_of_node(&nodes.last(), before.len() == 0))
        } else {
            before
        }
    }
}

/// The fallback of the lookup: where the control plane names no target for
/// the application, the nodes bound to the project are taken.
pub fn targets_for_project(nodes: &Vec<NodeRecord>, project: &str) -> (targets: Vec<DeployTarget>)
    ensures
        targets.deep_view() == targets_bound_to(nodes@, project@),
{
    let mut targets: Vec<DeployTarget> = Vec::new();
    let mut i: usize = 0;
    while i < nodes.len()
        invariant
            i <= nodes.len(),
            targets.deep_view() == targets_bound_to(nodes@.take(i as int), project@),
        decreases nodes.len() - i,
    {
        proof {
            let t = nodes@.take(i + 1);
            assert(t.drop_last() =~= nodes@.take(i as int));
            assert(t.last() == nodes@[i as int]);
        }
        if is_bound_to(&nodes[i], project) {
            let ghost before = targets.deep_view();
            let first = targets.len() == 0;
            let t = target_from_node(&nodes[i], first);
            targets.push(t);
            assert(targets.deep_view() =~= before.push(target_of_node(&nodes@[i as int], first)));
        }
        i += 1;
    }
    assert(nodes@.take(nodes.len() as int) =~= nodes@);
    targets
}

/// What follows the lookup of the targets of an application.
#[derive(Debug)]
pub enum Lookup {
    /// These are the bound targets; there may be none.
    Bound(Vec<DeployTarget>),
    /// The application has none: take the nodes bound to the project.
    ProjectNodes,
}

pub enum LookupView {
    Bound(Seq<DeployTargetView>),
    ProjectNodes,
}

impl View for Lookup {
    type V = LookupView;

    open spec fn view(&self) -> LookupView {
        match self {
            Lookup::Bound(targets) => LookupView::Bound(targets.deep_view()),
            Lookup::ProjectNodes => LookupView::ProjectNodes,
        }
    }
}

/// What the control plane names for the application is taken. Where it
/// names nothing, the nodes of the project stand in, unless the operator
/// asked for this application by name: then nothing is bound.
pub open spec fn lookup_of(found: Seq<DeployTargetView>, app_named: bool) -> LookupView {
    if found.len() > 0 || app_named {
        LookupView::Bound(found)
    } else {
        LookupView::ProjectNodes
    }
}

pub fn after_app_lookup(found: Vec<DeployTarget>, app_named: bool) -> (next: Lookup)
    ensures
        next@ == lookup_of(found.deep_view(), app_named),
{
    if found.len() > 0 || app_named {
        Lookup::Bound(found)
    } else {
        Lookup::ProjectNodes
    }
}

// ---------------------------------------------------------------------------
// Auto-allocation
// ---------------------------------------------------------------------------

/// The line that offers a node to the operator: id, name, region, status.
pub open spec fn label_of(node: &NodeRecord) -> Seq<char> {
    "#"@ + decimal(node.id as nat) + " "@ + (match node.hostname {
        Some(name) => name@,
        None => node.ip_address@,
    }) + " ("@ + (match node.region {
        Some(region) => region@,
        None => "-"@,
    }) + ") ["@ + node.status.name() + "]"@
}

pub fn candidate_label(node: &NodeRecord) -> (label: String)
    ensures
        label@ == label_of(node),
{
    let mut label = "#".to_owned();
    label.append(format_decimal(node.id).as_str());
    label.append(" ");
    match &node.hostname {
        Some(name) => label.append(name.as_str()),
        None => label.append(node.ip_address.as_str()),
    }
    label.append(" (");
    match &node.region {
        Some(region) => label.append(region.as_str()),
        None => label.append("-"),
    }
    label.append(") [");
    label.append(node.status.as_str());
    label.append("]");
    label
}

/// The outcome of offering `candidates` to the operator, who picked the one
/// at position `choice`: that node, as the primary.
pub open spec fn allocation_of(candidates: Seq<NodeRecord>, choice: nat) -> Result<
    DeployTargetView,
    ResolutionErrorView,
> {
    if candidates.len() == 0 {
        Err(ResolutionErrorView::NoNodesAvailable)
    } else if choice >= candidates.len() {
        Err(ResolutionErrorView::NoSuchCandidate(choice))
    } else {
        Ok(target_of_node(&candidates[choice as int], true))
    }
}

/// The decision of auto-allocation, apart from the prompt that obtains the
/// choice.
pub fn select_candidate(candidates: &Vec<NodeRecord>, choice: usize) -> (r: Result<
    DeployTarget,
    ResolutionError,
>)
    ensures
        match allocation_of(candidates@, choice as nat) {
            Ok(t) => r matches Ok(found) && found@ == t,
            Err(e) => r matches Err(err) && err@ == e,
        },
{
    if candidates.len() == 0 {
        Err(ResolutionError::NoNodesAvailable)
    } else if choice >= candidates.len() {
        Err(ResolutionError::NoSuchCandidate(choice))
    } else {
        Ok(target_from_node(&candidates[choice], true))
    }
}

// ---------------------------------------------------------------------------
// Resolution order
// ---------------------------------------------------------------------------

/// What the resolver needs next, or what it found.
#[derive(Debug)]
pub enum Resolution {
    /// The targets, before filters.
    Resolved(Vec<DeployTarget>),
    /// Ask the control plane for the targets bound to the application.
    QueryControlPlane,
    /// Nothing is bound: offer the available nodes to the operator.
    OfferAllocation,
    /// Nothing is bound and nobody can be asked.
    Failed(ResolutionError),
}

pub enum ResolutionView {
    Resolved(Seq<DeployTargetView>),
    QueryControlPlane,
    OfferAllocation,
    Failed(ResolutionErrorView),
}

impl View for Resolution {
    type V = ResolutionView;

    open spec fn view(&self) -> ResolutionView {
        match self {
            Resolution::Resolved(targets) => ResolutionView::Resolved(targets.deep_view()),
            Resolution::QueryControlPlane => ResolutionView::QueryControlPlane,
            Resolution::OfferAllocation => ResolutionView::OfferAllocation,
            Resolution::Failed(e) => ResolutionView::Failed(e@),
        }
    }
}

/// The resolution order. A pinned target wins. Otherwise the control plane
/// is asked; what it names is taken. Where it names nothing, an interactive
/// run offers auto-allocation and any other run fails rather than guess.
pub open spec fn resolution_of(
    pinned: Option<Seq<char>>,
    bound: Option<Seq<DeployTargetView>>,
    interactive: bool,
) -> ResolutionView {
    match pinned {
        Some(text) => ResolutionView::Resolved(seq![pinned_target(text)]),
        None => match bound {
            None => ResolutionView::QueryControlPlane,
            Some(targets) => if targets.len() > 0 {
                ResolutionView::Resolved(targets)
            } else if interactive {
                ResolutionView::OfferAllocation
            } else {
                ResolutionView::Failed(ResolutionErrorView::NoNodesBound)
            },
        },
    }
}

/// One step of resolution: `bound` is `None` until the control plane has
/// answered.
pub fn resolve(pinned: &Option<String>, bound: Option<Vec<DeployTarget>>, interactive: bool) -> (r:
    Resolution)
    ensures
        r@ == resolution_of(
            opt_text(*pinned),
            match bound {
                Some(targets) => Some(targets.deep_view()),
                None => None,
            },
            interactive,
        ),
{
    match pinned {
        Some(text) => {
            let mut targets: Vec<DeployTarget> = Vec::new();
            targets.push(synthetic_target(text.as_str()));
            assert(targets.deep_view() =~= seq![pinned_target(text@)]);
            Resolution::Resolved(targets)
        },
        None => match bound {
            None => Resolution::QueryControlPlane,
            Some(targets) => {
                if targets.len() > 0 {
                    Resolution::Resolved(targets)
                } else if interactive {
                    Resolution::OfferAllocation
                } else {
                    Resolution::Failed(ResolutionError::NoNodesBound)
                }
            },
        },
    }
}

// ---------------------------------------------------------------------------
// Filters
// ---------------------------------------------------------------------------

/// The targets on node `node_id`, in order.
pub open spec fn on_node(targets: Seq<DeployTargetView>, node_id: nat) -> Seq<DeployTargetView>
    decreases targets.len(),
{
    if targets.len() == 0 {
        Seq::empty()
    } else {
        let before = on_node(targets.drop_last(), node_id);
        if targets.last().node_id == node_id {
            before.push(targets.last())
        } else {
            before
        }
    }
}

/// The targets in region `region`, in order. A target without a region is in
/// none.
pub open spec fn in_region(targets: Seq<DeployTargetView>, region: Seq<char>) -> Seq<
    DeployTargetView,
>
    decreases targets.len(),
{
    if targets.len() == 0 {
        Seq::empty()
    } else {
        let before = in_region(targets.drop_last(), region);
        if targets.last().region == Some(region) {
            before.push(targets.last())
        } else {
            before
        }
    }
}

pub fn filter_by_node(targets: Vec<DeployTarget>, node_id: u64) -> (kept: Vec<DeployTarget>)
    ensures
        kept.deep_view() == on_node(targets.deep_view(), node_id as nat),
{
    let mut kept: Vec<DeployTarget> = Vec::new();
    let ghost all = targets.deep_view();
    let ghost items = targets@;
    for t in it: targets.into_iter()
        invariant
            it.seq() == items,
            all == Seq::new(items.len(), |i: int| items[i]@),
            kept.deep_view() == on_node(all.take(it.index()), node_id as nat),
    {
        proof {
            let now = all.take(it.index() + 1);
            assert(now.drop_last() =~= all.take(it.index()));
            assert(now.last() == t@);
        }
        if t.node_id == node_id {
            let ghost before = kept.deep_view();
            kept.push(t);
            assert(kept.deep_view() =~= before.push(t@));
        }
    }
    assert(all.take(all.len() as int) =~= all);
    kept
}

pub fn filter_by_region(targets: Vec<DeployTarget>, region: &str) -> (kept: Vec<DeployTarget>)
    ensures
        kept.deep_view() == in_region(targets.deep_view(), region@),
{
    let mut kept: Vec<DeployTarget> = Vec::new();
    let ghost all = targets.deep_view();
    let ghost items = targets@;
    for t in it: targets.into_iter()
        invariant
            it.seq() == items,
            all == Seq::new(items.len(), |i: int| items[i]@),
            kept.deep_view() == in_region(all.take(it.index()), region@),
    {
        proof {
            let now = all.take(it.index() + 1);
            assert(now.drop_last() =~= all.take(it.index()));
            assert(now.last() == t@);
        }
        let matches = match &t.region {
            Some(r) => same_text(r.as_str(), region),
            None => false,
        };
        if matches {
            let ghost before = kept.deep_view();
            kept.push(t);
            assert(kept.deep_view() =~= before.push(t@));
        }
    }
    assert(all.take(all.len() as int) =~= all);
    kept
}

/// The targets after the node filter.
pub open spec fn after_node_filter(targets: Seq<DeployTargetView>, node_filter: Option<nat>) -> Seq<
    DeployTargetView,
> {
    match node_filter {
        Some(id) => on_node(targets, id),
        None => targets,
    }
}

/// What the filters leave of the resolved targets. The node filter is
/// applied first, then the region filter, each by exact match. A filter that
/// leaves nothing is an error that names the filter: a deploy is never
/// silently empty.
pub open spec fn filtered(
    targets: Seq<DeployTargetView>,
    node_filter: Option<nat>,
    region_filter: Option<Seq<char>>,
) -> Result<Seq<DeployTargetView>, ResolutionErrorView> {
    let by_node = after_node_filter(targets, node_filter);
    if node_filter is Some && by_node.len() == 0 {
        Err(ResolutionErrorView::NodeNotBound(node_filter->0))
    } else {
        match region_filter {
            Some(region) => if in_region(by_node, region).len() == 0 {
                Err(ResolutionErrorView::NoNodesInRegion(region))
            } else {
                Ok(in_region(by_node, region))
            },
            None => Ok(by_node),
        }
    }
}

/// Applies the node and region filters to the resolved targets.
pub fn apply_filters(
    targets: Vec<DeployTarget>,
    node_filter: Option<u64>,
    region_filter: &Option<String>,
) -> (r: Result<Vec<DeployTarget>, ResolutionError>)
    ensures
        match filtered(
            targets.deep_view(),
            match node_filter {
                Some(id) => Some(id as nat),
                None => None,
            },
            opt_text(*region_filter),
        ) {
            Ok(kept) => r matches Ok(found) && found.deep_view() == kept,
            Err(e) => r matches Err(err) && err@ == e,
        },
{
    let by_node = match node_filter {
        Some(id) => {
            let kept = filter_by_node(targets, id);
            if kept.len() == 0 {
                return Err(ResolutionError::NodeNotBound(id));
            }
            kept
        },
        None => targets,
    };
    match region_filter {
        Some(region) => {
            let kept = filter_by_region(by_node, region.as_str());
            if kept.len() == 0 {
                return Err(ResolutionError::NoNodesInRegion(region.clone()));
            }
            Ok(kept)
        },
        None => Ok(by_node),
    }
}

// ---------------------------------------------------------------------------
// Sessions
// ---------------------------------------------------------------------------

/// The name under which a session to a target is opened: the id of its
/// node, or, for the target that stands for a pinned text, that text.
pub open spec fn session_name_of(t: DeployTargetView) -> Seq<char> {
    if t.node_id == 0 {
        t.domain
    } else {
        decimal(t.node_id)
    }
}

pub fn session_name(t: &DeployTarget) -> (name: String)
    ensures
        name@ == session_name_of(t@),
{
    if t.node_id == 0 {
        t.domain.clone()
    } else {
        format_decimal(t.node_id)
    }
}

/// The domain of the first node bound to `project`, if a node is.
pub open spec fn first_bound_domain(nodes: Seq<NodeRecord>, project: Seq<char>) -> Option<Seq<char>>
    decreases nodes.len(),
{
    if nodes.len() == 0 {
        None
    } else if bound_to(&nodes[0], project) {
        Some(nodes[0].domain@)
    } else {
        first_bound_domain(nodes.skip(1), project)
    }
}

pub fn bound_domain(nodes: &Vec<NodeRecord>, project: &str) -> (domain: Option<String>)
    ensures
        opt_text(domain) == first_bound_domain(nodes@, project@),
{
    let mut i: usize = 0;
    assert(nodes@.skip(0) =~= nodes@);
    while i < nodes.len()
        invariant
            i <= nodes.len(),
            first_bound_domain(nodes@, project@) == first_bound_domain(
                nodes@.skip(i as int),
                project@,
            ),
        decreases nodes.len() - i,
    {
        proof {
            let t = nodes@.skip(i as int);
            assert(t[0] == nodes@[i as int]);
            assert(t.skip(1) =~= nodes@.skip(i + 1));
        }
        if is_bound_to(&nodes[i], project) {
            return Some(nodes[i].domain.clone());
        }
        i += 1;
    }
    None
}

// ---------------------------------------------------------------------------
// Laws
// ---------------------------------------------------------------------------

/// A node filter keeps exactly the targets on that node: nothing when no
/// target is on it.
pub proof fn lemma_on_node(targets: Seq<DeployTargetView>, node_id: nat)
    ensures
        on_node(targets, node_id).len() <= targets.len(),
        forall|i: int|
            0 <= i < on_node(targets, node_id).len() ==> (#[trigger] on_node(
                targets,
                node_id,
            )[i]).node_id == node_id && targets.contains(on_node(targets, node_id)[i]),
        (forall|i: int| 0 <= i < targets.len() ==> (#[trigger] targets[i]).node_id != node_id)
            <==> on_node(targets, node_id).len() == 0,
    decreases targets.len(),
{
    if targets.len() > 0 {
        let rest = targets.drop_last();
        lemma_on_node(rest, node_id);
        let kept = on_node(targets, node_id);
        assert forall|i: int| 0 <= i < kept.len() implies (#[trigger] kept[i]).node_id == node_id
            && targets.contains(kept[i]) by {
            if i < on_node(rest, node_id).len() {
                let x = on_node(rest, node_id)[i];
                assert(rest.contains(x));
                let k = choose|k: int| 0 <= k < rest.len() && rest[k] == x;
                assert(targets[k] == x);
            } else {
                assert(targets[targets.len() - 1] == kept[i]);
            }
        }
        if forall|i: int| 0 <= i < targets.len() ==> (#[trigger] targets[i]).node_id != node_id {
            assert forall|i: int| 0 <= i < rest.len() implies (#[trigger] rest[i]).node_id
                != node_id by {
                assert(rest[i] == targets[i]);
            }
            assert(targets[targets.len() - 1].node_id != node_id);
        }
        if kept.len() == 0 {
            assert forall|i: int| 0 <= i < targets.len() implies (#[trigger] targets[i]).node_id
                != node_id by {
                if i < rest.len() {
                    assert(rest[i] == targets[i]);
                }
            }
        }
    }
}

/// A region filter keeps exactly the targets of that region.
pub proof fn lemma_in_region(targets: Seq<DeployTargetView>, region: Seq<char>)
    ensures
        in_region(targets, region).len() <= targets.len(),
        forall|i: int|
            0 <= i < in_region(targets, region).len() ==> (#[trigger] in_region(
                targets,
                region,
            )[i]).region == Some(region),
        (forall|i: int| 0 <= i < targets.len() ==> (#[trigger] targets[i]).region != Some(region))
            <==> in_region(targets, region).len() == 0,
    decreases targets.len(),
{
    if targets.len() > 0 {
        let rest = targets.drop_last();
        lemma_in_region(rest, region);
        let kept = in_region(targets, region);
        if forall|i: int| 0 <= i < targets.len() ==> (#[trigger] targets[i]).region != Some(region) {
            assert forall|i: int| 0 <= i < rest.len() implies (#[trigger] rest[i]).region != Some(
                region,
            ) by {
                assert(rest[i] == targets[i]);
            }
            assert(targets[targets.len() - 1].region != Some(region));
        }
        if kept.len() == 0 {
            assert forall|i: int| 0 <= i < targets.len() implies (#[trigger] targets[i]).region
                != Some(region) by {
                if i < rest.len() {
                    assert(rest[i] == targets[i]);
                }
            }
        }
    }
}

/// A node filter that matches none of the resolved targets always fails,
/// with the error that says that the node is not bound, whatever the region
/// filter.
pub proof fn lemma_unmatched_node_filter_fails(
    targets: Seq<DeployTargetView>,
    node_id: nat,
    region_filter: Option<Seq<char>>,
)
    requires
        forall|i: int| 0 <= i < targets.len() ==> (#[trigger] targets[i]).node_id != node_id,
    ensures
        filtered(targets, Some(node_id), region_filter) == Err::<
            Seq<DeployTargetView>,
            ResolutionErrorView,
        >(ResolutionErrorView::NodeNotBound(node_id)),
        ResolutionErrorView::NodeNotBound(node_id).message() == "Node "@ + decimal(node_id)
            + " is not bound to this app"@,
{
    lemma_on_node(targets, node_id);
}

/// A region filter that matches none of the targets that the node filter
/// left fails with the error that names the region. What filtering returns
/// on success is never empty when the resolved targets were not.
pub proof fn lemma_unmatched_region_filter_fails(
    targets: Seq<DeployTargetView>,
    node_filter: Option<nat>,
    region: Seq<char>,
)
    requires
        forall|i: int| 0 <= i < targets.len() ==> (#[trigger] targets[i]).region != Some(region),
        !(node_filter is Some && on_node(targets, node_filter->0).len() == 0),
    ensures
        filtered(targets, node_filter, Some(region)) == Err::<
            Seq<DeployTargetView>,
            ResolutionErrorView,
        >(ResolutionErrorView::NoNodesInRegion(region)),
        ResolutionErrorView::NoNodesInRegion(region).message() == "No nodes in region '"@ + region
            + "' bound to this app"@,
{
    let by_node = after_node_filter(targets, node_filter);
    if node_filter is Some {
        lemma_on_node(targets, node_filter->0);
        assert forall|i: int| 0 <= i < by_node.len() implies (#[trigger] by_node[i]).region != Some(
            region,
        ) by {
            assert(targets.contains(by_node[i]));
            let k = choose|k: int| 0 <= k < targets.len() && targets[k] == by_node[i];
            assert(targets[k].region != Some(region));
        }
    }
    lemma_in_region(by_node, region);
}

/// Filtering never yields an empty deploy: what it returns on success holds
/// at least one target whenever the resolved list did.
pub proof fn lemma_filtered_not_empty(
    targets: Seq<DeployTargetView>,
    node_filter: Option<nat>,
    region_filter: Option<Seq<char>>,
)
    requires
        targets.len() > 0,
    ensures
        filtered(targets, node_filter, region_filter) matches Ok(kept) ==> kept.len() > 0,
{
}

} // verus!
