//! The node-pool model: the nodes bound to one application, their health and
//! drain state, and the load-balancing strategy of the group.
//!
//! The control plane is the system of record. This module holds the state
//! that the pool commands read and change, and the rules those changes obey.

use crate::text::{copy_opt, decimal, format_decimal, opt_text, same_text};
use vstd::prelude::*;

verus! {

// ---------------------------------------------------------------------------
// Node status
// ---------------------------------------------------------------------------

/// The health of one node as the control plane reports it.
#[derive(Debug, Clone, Copy, PartialEq, Eq, Structural)]
pub enum NodeStatus {
    Healthy,
    Unhealthy,
    Draining,
    Offline,
    Unknown,
}

impl NodeStatus {
    /// The word the control plane uses for this status.
    pub open spec fn name(self) -> Seq<char> {
        match self {
            NodeStatus::Healthy => "healthy"@,
            NodeStatus::Unhealthy => "unhealthy"@,
            NodeStatus::Draining => "draining"@,
            NodeStatus::Offline => "offline"@,
            NodeStatus::Unknown => "unknown"@,
        }
    }

    /// The status a word stands for; any word that is not one of the four
    /// known ones reads as `Unknown`.
    pub open spec fn from_name(s: Seq<char>) -> NodeStatus {
        if s == "healthy"@ {
            NodeStatus::Healthy
        } else if s == "unhealthy"@ {
            NodeStatus::Unhealthy
        } else if s == "draining"@ {
            NodeStatus::Draining
        } else if s == "offline"@ {
            NodeStatus::Offline
        } else {
            NodeStatus::Unknown
        }
    }

    pub fn as_str(self) -> (r: &'static str)
        ensures
            r@ == self.name(),
    {
        match self {
            NodeStatus::Healthy => "healthy",
            NodeStatus::Unhealthy => "unhealthy",
            NodeStatus::Draining => "draining",
            NodeStatus::Offline => "offline",
            NodeStatus::Unknown => "unknown",
        }
    }

    pub fn parse(s: &str) -> (r: NodeStatus)
        ensures
            r == NodeStatus::from_name(s@),
    {
        if same_text(s, "healthy") {
            NodeStatus::Healthy
        } else if same_text(s, "unhealthy") {
            NodeStatus::Unhealthy
        } else if same_text(s, "draining") {
            NodeStatus::Draining
        } else if same_text(s, "offline") {
            NodeStatus::Offline
        } else {
            NodeStatus::Unknown
        }
    }

    /// Whether a node in this status counts towards the healthy total.
    pub open spec fn counts_as_healthy(self) -> bool {
        self == NodeStatus::Healthy
    }

    pub fn is_healthy(self) -> (r: bool)
        ensures
            r == self.counts_as_healthy(),
    {
        match self {
            NodeStatus::Healthy => true,
            _ => false,
        }
    }

    /// Reading the word of a status gives the status back.
    pub proof fn lemma_name_round_trip(self)
        ensures
            NodeStatus::from_name(self.name()) == self,
    {
        reveal_strlit("healthy");
        reveal_strlit("unhealthy");
        reveal_strlit("draining");
        reveal_strlit("offline");
        reveal_strlit("unknown");
        let h = "healthy"@;
        let u = "unhealthy"@;
        let d = "draining"@;
        let o = "offline"@;
        let k = "unknown"@;
        assert(h[0] == 'h' && u[0] == 'u' && d[0] == 'd' && o[0] == 'o' && k[0] == 'u');
        assert(u.len() == 9 && k.len() == 7);
    }
}

// ---------------------------------------------------------------------------
// Load-balancing strategy
// ---------------------------------------------------------------------------

/// How the control plane spreads requests over the nodes of a group. The
/// orchestrator configures the strategy; it never routes by it.
#[derive(Debug, Clone, Copy, PartialEq, Eq, Structural)]
pub enum LbStrategy {
    RoundRobin,
    Geo,
    Weighted,
    Failover,
}

impl LbStrategy {
    pub open spec fn name(self) -> Seq<char> {
        match self {
            LbStrategy::RoundRobin => "round-robin"@,
            LbStrategy::Geo => "geo"@,
            LbStrategy::Weighted => "weighted"@,
            LbStrategy::Failover => "failover"@,
        }
    }

    /// The strategy a word names, if it names one.
    pub open spec fn from_name(s: Seq<char>) -> Option<LbStrategy> {
        if s == "round-robin"@ {
            Some(LbStrategy::RoundRobin)
        } else if s == "geo"@ {
            Some(LbStrategy::Geo)
        } else if s == "weighted"@ {
            Some(LbStrategy::Weighted)
        } else if s == "failover"@ {
            Some(LbStrategy::Failover)
        } else {
            None
        }
    }

    pub fn as_str(self) -> (r: &'static str)
        ensures
            r@ == self.name(),
    {
        match self {
            LbStrategy::RoundRobin => "round-robin",
            LbStrategy::Geo => "geo",
            LbStrategy::Weighted => "weighted",
            LbStrategy::Failover => "failover",
        }
    }

    /// Reads a strategy name. A word outside the closed set is rejected with
    /// `PoolError::InvalidStrategy`, which carries the word.
    pub fn parse(s: &str) -> (r: Result<LbStrategy, PoolError>)
        ensures
            match LbStrategy::from_name(s@) {
                Some(strategy) => r == Ok::<LbStrategy, PoolError>(strategy),
                None => r matches Err(PoolError::InvalidStrategy(word)) && word@ == s@,
            },
    {
        if same_text(s, "round-robin") {
            Ok(LbStrategy::RoundRobin)
        } else if same_text(s, "geo") {
            Ok(LbStrategy::Geo)
        } else if same_text(s, "weighted") {
            Ok(LbStrategy::Weighted)
        } else if same_text(s, "failover") {
            Ok(LbStrategy::Failover)
        } else {
            Err(PoolError::InvalidStrategy(s.to_owned()))
        }
    }

    /// Reading the name of a strategy gives the strategy back.
    pub proof fn lemma_name_round_trip(self)
        ensures
            LbStrategy::from_name(self.name()) == Some(self),
    {
        reveal_strlit("round-robin");
        reveal_strlit("geo");
        reveal_strlit("weighted");
        reveal_strlit("failover");
        let r = "round-robin"@;
        let g = "geo"@;
        let w = "weighted"@;
        let f = "failover"@;
        assert(r[0] == 'r' && g[0] == 'g' && w[0] == 'w' && f[0] == 'f');
    }
}

/// Why a pool operation was refused.
#[derive(Debug)]
pub enum PoolError {
    /// The word is not one of the four strategy names.
    InvalidStrategy(String),
    /// The node is not a member of the group.
    NotAMember(u64),
    /// The node is already a member of the group.
    AlreadyMember(u64),
    /// A failover group holds at most one primary.
    SecondPrimary,
    /// The application has a single node and therefore no group.
    SingleNodeMode(PoolOp),
}

/// The pool operations that need a group.
#[derive(Debug, Clone, Copy, PartialEq, Eq, Structural)]
pub enum PoolOp {
    SetStrategy,
    Drain,
    Undrain,
}

pub enum PoolErrorView {
    InvalidStrategy(Seq<char>),
    NotAMember(nat),
    AlreadyMember(nat),
    SecondPrimary,
    SingleNodeMode(PoolOp),
}

impl View for PoolError {
    type V = PoolErrorView;

    open spec fn view(&self) -> PoolErrorView {
        match self {
            PoolError::InvalidStrategy(word) => PoolErrorView::InvalidStrategy(word@),
            PoolError::NotAMember(id) => PoolErrorView::NotAMember(*id as nat),
            PoolError::AlreadyMember(id) => PoolErrorView::AlreadyMember(*id as nat),
            PoolError::SecondPrimary => PoolErrorView::SecondPrimary,
            PoolError::SingleNodeMode(op) => PoolErrorView::SingleNodeMode(*op),
        }
    }
}

impl PoolErrorView {
    /// What the operator is told.
    pub open spec fn message(self) -> Seq<char> {
        match self {
            PoolErrorView::InvalidStrategy(word) => "Invalid strategy '"@ + word
                + "'. Must be one of: round-robin, geo, weighted, failover"@,
            PoolErrorView::NotAMember(id) => "Node "@ + decimal(id) + " is not in this group"@,
            PoolErrorView::AlreadyMember(id) => "Node "@ + decimal(id)
                + " is already in this group"@,
            PoolErrorView::SecondPrimary => "A failover group has one primary"@,
            PoolErrorView::SingleNodeMode(op) => match op {
                PoolOp::SetStrategy =>
                    "App is in single-node mode. Bind a second node to enable pool mode."@,
                PoolOp::Drain => "App is in single-node mode. Cannot drain."@,
                PoolOp::Undrain => "App is in single-node mode. Cannot undrain."@,
            },
        }
    }
}

impl PoolError {
    /// What the operator is told.
    pub fn message(&self) -> (m: String)
        ensures
            m@ == self@.message(),
    {
        match self {
            PoolError::InvalidStrategy(word) => {
                let mut m = "Invalid strategy '".to_owned();
                m.append(word.as_str());
                m.append("'. Must be one of: round-robin, geo, weighted, failover");
                m
            },
            PoolError::NotAMember(id) => {
                let mut m = "Node ".to_owned();
                m.append(format_decimal(*id).as_str());
                m.append(" is not in this group");
                m
            },
            PoolError::AlreadyMember(id) => {
                let mut m = "Node ".to_owned();
                m.append(format_decimal(*id).as_str());
                m.append(" is already in this group");
                m
            },
            PoolError::SecondPrimary => "A failover group has one primary".to_owned(),
            PoolError::SingleNodeMode(op) => match op {
                PoolOp::SetStrategy => {
                    "App is in single-node mode. Bind a second node to enable pool mode.".to_owned()
                },
                PoolOp::Drain => "App is in single-node mode. Cannot drain.".to_owned(),
                PoolOp::Undrain => "App is in single-node mode. Cannot undrain.".to_owned(),
            },
        }
    }
}

/// The group that a pool operation acts on. An application on a single node
/// has no group, and the operation is refused.
pub fn require_group(node_group_id: Option<u64>, op: PoolOp) -> (r: Result<u64, PoolError>)
    ensures
        match node_group_id {
            Some(id) => r == Ok::<u64, PoolError>(id),
            None => r == Err::<u64, PoolError>(PoolError::SingleNodeMode(op)),
        },
{
    match node_group_id {
        Some(id) => Ok(id),
        None => Err(PoolError::SingleNodeMode(op)),
    }
}

// ---------------------------------------------------------------------------
// Deploy targets
// ---------------------------------------------------------------------------

/// One deployable node, as the control plane describes it for one deploy run.
#[derive(Debug)]
pub struct DeployTarget {
    pub node_id: u64,
    pub domain: String,
    pub ip_address: String,
    pub hostname: Option<String>,
    pub region: Option<String>,
    pub zone: Option<String>,
    pub weight: u32,
    pub is_primary: bool,
    pub status: NodeStatus,
}

/// The mathematical content of a `DeployTarget`.
pub struct DeployTargetView {
    pub node_id: nat,
    pub domain: Seq<char>,
    pub ip_address: Seq<char>,
    pub hostname: Option<Seq<char>>,
    pub region: Option<Seq<char>>,
    pub zone: Option<Seq<char>>,
    pub weight: nat,
    pub is_primary: bool,
    pub status: NodeStatus,
}

impl View for DeployTarget {
    type V = DeployTargetView;

    open spec fn view(&self) -> DeployTargetView {
        DeployTargetView {
            node_id: self.node_id as nat,
            domain: self.domain@,
            ip_address: self.ip_address@,
            hostname: opt_text(self.hostname),
            region: opt_text(self.region),
            zone: opt_text(self.zone),
            weight: self.weight as nat,
            is_primary: self.is_primary,
            status: self.status,
        }
    }
}

impl DeepView for DeployTarget {
    type V = DeployTargetView;

    open spec fn deep_view(&self) -> DeployTargetView {
        self.view()
    }
}

impl Clone for DeployTarget {
    fn clone(&self) -> (r: Self)
        ensures
            r@ == self@,
    {
        DeployTarget {
            node_id: self.node_id,
            domain: self.domain.clone(),
            ip_address: self.ip_address.clone(),
            hostname: copy_opt(&self.hostname),
            region: copy_opt(&self.region),
            zone: copy_opt(&self.zone),
            weight: self.weight,
            is_primary: self.is_primary,
            status: self.status,
        }
    }
}

// ---------------------------------------------------------------------------
// Node groups
// ---------------------------------------------------------------------------

/// How the control plane probes the members of a group.
#[derive(Debug)]
pub struct HealthConfig {
    pub check_type: String,
    pub endpoint: String,
    pub interval_seconds: u32,
    pub timeout_seconds: u32,
    pub healthy_threshold: u32,
    pub unhealthy_threshold: u32,
}

/// One node of a group: the target, and the status it had when it was
/// drained, which is the status that undraining gives back.
#[derive(Debug)]
pub struct Member {
    pub target: DeployTarget,
    pub resume: Option<NodeStatus>,
}

pub struct MemberView {
    pub target: DeployTargetView,
    pub resume: Option<NodeStatus>,
}

impl View for Member {
    type V = MemberView;

    open spec fn view(&self) -> MemberView {
        MemberView { target: self.target@, resume: self.resume }
    }
}

impl DeepView for Member {
    type V = MemberView;

    open spec fn deep_view(&self) -> MemberView {
        self.view()
    }
}

impl MemberView {
    /// A remembered status belongs to a draining node only, and is never
    /// `Draining` itself.
    pub open spec fn consistent(self) -> bool {
        self.resume matches Some(prior) ==> self.target.status == NodeStatus::Draining && prior
            != NodeStatus::Draining
    }

    /// The member after a drain request.
    pub open spec fn drained(self) -> MemberView {
        if self.target.status == NodeStatus::Draining {
            self
        } else {
            MemberView {
                target: DeployTargetView { status: NodeStatus::Draining, ..self.target },
                resume: Some(self.target.status),
            }
        }
    }

    /// The member after an undrain request. A node that was already draining
    /// when the group was loaded has no remembered status and comes back as
    /// `Unknown`, until the next health probe.
    pub open spec fn undrained(self) -> MemberView {
        if self.target.status != NodeStatus::Draining {
            self
        } else {
            MemberView {
                target: DeployTargetView {
                    status: match self.resume {
                        Some(prior) => prior,
                        None => NodeStatus::Unknown,
                    },
                    ..self.target
                },
                resume: None,
            }
        }
    }
}

/// The number of members that count as healthy.
pub open spec fn healthy_count(members: Seq<MemberView>) -> nat
    decreases members.len(),
{
    if members.len() == 0 {
        0
    } else {
        healthy_count(members.drop_last()) + if members.last().target.status.counts_as_healthy() {
            1nat
        } else {
            0nat
        }
    }
}

/// The number of members marked primary.
pub open spec fn primary_count(members: Seq<MemberView>) -> nat
    decreases members.len(),
{
    if members.len() == 0 {
        0
    } else {
        primary_count(members.drop_last()) + if members.last().target.is_primary {
            1nat
        } else {
            0nat
        }
    }
}

/// The node ids of the members, in order.
pub open spec fn member_ids(members: Seq<MemberView>) -> Seq<nat> {
    Seq::new(members.len(), |i: int| members[i].target.node_id)
}

/// The position of the member with the given node id, or `members.len()`.
pub open spec fn position_of(members: Seq<MemberView>, node_id: nat) -> int
    decreases members.len(),
{
    if members.len() == 0 {
        0
    } else if members[0].target.node_id == node_id {
        0
    } else {
        1 + position_of(members.skip(1), node_id)
    }
}

pub proof fn lemma_position_of(members: Seq<MemberView>, node_id: nat)
    ensures
        0 <= position_of(members, node_id) <= members.len(),
        position_of(members, node_id) < members.len() ==> members[position_of(
            members,
            node_id,
        )].target.node_id == node_id,
        forall|j: int|
            0 <= j < position_of(members, node_id) ==> members[j].target.node_id != node_id,
    decreases members.len(),
{
    if members.len() > 0 && members[0].target.node_id != node_id {
        let rest = members.skip(1);
        lemma_position_of(rest, node_id);
        assert forall|j: int| 0 <= j < position_of(members, node_id) implies members[j].target.node_id
            != node_id by {
            if j > 0 {
                assert(rest[j - 1] == members[j]);
            }
        }
        if position_of(rest, node_id) < rest.len() {
            assert(rest[position_of(rest, node_id)] == members[position_of(members, node_id)]);
        }
    }
}

/// A named pool: the nodes bound to one application of one project, with a
/// shared load-balancing strategy.
#[derive(Debug)]
pub struct NodeGroup {
    pub id: u64,
    pub project: String,
    pub environment: String,
    pub name: String,
    pub lb_strategy: LbStrategy,
    pub health_config: Option<HealthConfig>,
    pub members: Vec<Member>,
}

pub struct NodeGroupView {
    pub id: nat,
    pub project: Seq<char>,
    pub environment: Seq<char>,
    pub name: Seq<char>,
    pub lb_strategy: LbStrategy,
    pub members: Seq<MemberView>,
}

impl View for NodeGroup {
    type V = NodeGroupView;

    open spec fn view(&self) -> NodeGroupView {
        NodeGroupView {
            id: self.id as nat,
            project: self.project@,
            environment: self.environment@,
            name: self.name@,
            lb_strategy: self.lb_strategy,
            members: self.members.deep_view(),
        }
    }
}

impl NodeGroupView {
    /// The invariant of a group: no node is bound twice, every remembered
    /// status is consistent, and a failover group, which runs as primary and
    /// replicas, holds at most one primary. Under the other strategies the
    /// primary mark is advisory.
    pub open spec fn well_formed(self) -> bool {
        &&& member_ids(self.members).no_duplicates()
        &&& forall|i: int| 0 <= i < self.members.len() ==> (#[trigger] self.members[i]).consistent()
        &&& self.lb_strategy == LbStrategy::Failover ==> primary_count(self.members) <= 1
    }

    pub open spec fn is_member(self, node_id: nat) -> bool {
        position_of(self.members, node_id) < self.members.len()
    }

    /// The status of a member node.
    pub open spec fn status_of(self, node_id: nat) -> NodeStatus
        recommends
            self.is_member(node_id),
    {
        self.members[position_of(self.members, node_id)].target.status
    }

    /// The group after node `node_id` was drained; unchanged when the node is
    /// no member.
    pub open spec fn drain(self, node_id: nat) -> NodeGroupView {
        let i = position_of(self.members, node_id);
        if i < self.members.len() {
            NodeGroupView { members: self.members.update(i, self.members[i].drained()), ..self }
        } else {
            self
        }
    }

    /// The group after node `node_id` was put back in rotation; unchanged
    /// when the node is no member.
    pub open spec fn undrain(self, node_id: nat) -> NodeGroupView {
        let i = position_of(self.members, node_id);
        if i < self.members.len() {
            NodeGroupView { members: self.members.update(i, self.members[i].undrained()), ..self }
        } else {
            self
        }
    }
}

/// Changing the status of one member changes the healthy total by that
/// member's share and nothing else.
pub proof fn lemma_healthy_count_update(members: Seq<MemberView>, i: int, m: MemberView)
    requires
        0 <= i < members.len(),
    ensures
        healthy_count(members.update(i, m)) + (if members[i].target.status.counts_as_healthy() {
            1nat
        } else {
            0nat
        }) == healthy_count(members) + (if m.target.status.counts_as_healthy() {
            1nat
        } else {
            0nat
        }),
    decreases members.len(),
{
    let after = members.update(i, m);
    if i == members.len() - 1 {
        assert(after.drop_last() =~= members.drop_last());
    } else {
        assert(after.drop_last() =~= members.drop_last().update(i, m));
        lemma_healthy_count_update(members.drop_last(), i, m);
    }
}

/// Changing the status of one member leaves the number of primaries as it is.
pub proof fn lemma_primary_count_update(members: Seq<MemberView>, i: int, m: MemberView)
    requires
        0 <= i < members.len(),
        m.target.is_primary == members[i].target.is_primary,
    ensures
        primary_count(members.update(i, m)) == primary_count(members),
    decreases members.len(),
{
    let after = members.update(i, m);
    if i == members.len() - 1 {
        assert(after.drop_last() =~= members.drop_last());
    } else {
        assert(after.drop_last() =~= members.drop_last().update(i, m));
        lemma_primary_count_update(members.drop_last(), i, m);
    }
}

/// Draining a member node sets its status to `Draining`, takes it out of the
/// healthy total if it was in it, keeps every node of the group bound, and
/// keeps the group well formed. Undraining it afterwards gives back the
/// status it had, and with it the group as it was, unless the node was
/// draining already.
pub proof fn lemma_drain_then_undrain(g: NodeGroupView, node_id: nat)
    requires
        g.well_formed(),
        g.is_member(node_id),
    ensures
        g.drain(node_id).well_formed(),
        member_ids(g.drain(node_id).members) == member_ids(g.members),
        g.drain(node_id).is_member(node_id),
        g.drain(node_id).status_of(node_id) == NodeStatus::Draining,
        healthy_count(g.drain(node_id).members) == healthy_count(g.members) - (if g.status_of(
            node_id,
        ).counts_as_healthy() {
            1int
        } else {
            0int
        }),
        g.undrain(node_id).well_formed(),
        member_ids(g.undrain(node_id).members) == member_ids(g.members),
        g.status_of(node_id) != NodeStatus::Draining ==> g.drain(node_id).undrain(node_id).status_of(
            node_id,
        ) == g.status_of(node_id),
        g.status_of(node_id) != NodeStatus::Draining && g.members[position_of(
            g.members,
            node_id,
        )].resume is None ==> g.drain(node_id).undrain(node_id) == g,
{
    let i = position_of(g.members, node_id);
    lemma_position_of(g.members, node_id);
    let d = g.drain(node_id);
    let u = g.undrain(node_id);
    assert(member_ids(d.members) =~= member_ids(g.members));
    assert(member_ids(u.members) =~= member_ids(g.members));
    lemma_same_ids_same_position(g.members, d.members, node_id);
    lemma_same_ids_same_position(g.members, u.members, node_id);
    lemma_healthy_count_update(g.members, i, g.members[i].drained());
    lemma_primary_count_update(g.members, i, g.members[i].drained());
    lemma_primary_count_update(g.members, i, g.members[i].undrained());
    assert(g.members[i].consistent());
    let du = d.undrain(node_id);
    assert(member_ids(du.members) =~= member_ids(g.members));
    if g.status_of(node_id) != NodeStatus::Draining && g.members[i].resume is None {
        assert(du.members =~= g.members);
    }
}

/// Where two member lists bind the same nodes in the same order, a node has
/// the same position in both.
pub proof fn lemma_same_ids_same_position(a: Seq<MemberView>, b: Seq<MemberView>, node_id: nat)
    requires
        member_ids(a) == member_ids(b),
    ensures
        position_of(a, node_id) == position_of(b, node_id),
    decreases a.len(),
{
    assert(a.len() == member_ids(a).len());
    assert(b.len() == member_ids(b).len());
    if a.len() > 0 {
        assert(member_ids(a)[0] == a[0].target.node_id);
        assert(member_ids(b)[0] == b[0].target.node_id);
        if a[0].target.node_id != node_id {
            assert forall|j: int| 0 <= j < a.len() - 1 implies member_ids(a.skip(1))[j]
                == member_ids(b.skip(1))[j] by {
                assert(member_ids(a)[j + 1] == a[j + 1].target.node_id);
                assert(member_ids(b)[j + 1] == b[j + 1].target.node_id);
            }
            assert(member_ids(a.skip(1)) =~= member_ids(b.skip(1)));
            lemma_same_ids_same_position(a.skip(1), b.skip(1), node_id);
        }
    }
}

/// The health of a group at a glance.
#[derive(Debug, Clone, Copy, PartialEq, Eq, Structural)]
pub enum GroupHealth {
    /// The group has no node.
    Empty,
    /// Every node is healthy.
    AllHealthy,
    /// Some nodes are healthy, not all.
    Degraded,
    /// No node is healthy.
    Down,
}

/// The health of a group with `node_count` nodes of which `healthy` are
/// healthy.
pub open spec fn group_health_of(node_count: nat, healthy: nat) -> GroupHealth {
    if node_count == 0 {
        GroupHealth::Empty
    } else if healthy == node_count {
        GroupHealth::AllHealthy
    } else if healthy > 0 {
        GroupHealth::Degraded
    } else {
        GroupHealth::Down
    }
}

/// Classifies a group by its node count and healthy count.
pub fn group_health(node_count: u64, healthy: u64) -> (h: GroupHealth)
    ensures
        h == group_health_of(node_count as nat, healthy as nat),
{
    if node_count == 0 {
        GroupHealth::Empty
    } else if healthy == node_count {
        GroupHealth::AllHealthy
    } else if healthy > 0 {
        GroupHealth::Degraded
    } else {
        GroupHealth::Down
    }
}

/// Whether an application runs on one node or on a pool of them.
#[derive(Debug, Clone, Copy, PartialEq, Eq, Structural)]
pub enum PoolMode {
    Single,
    Pool,
}

/// The targets of a member list, in order.
pub open spec fn targets_of(members: Seq<MemberView>) -> Seq<DeployTargetView> {
    Seq::new(members.len(), |i: int| members[i].target)
}

impl NodeGroup {
    /// A group without nodes.
    pub fn new(
        id: u64,
        project: String,
        environment: String,
        name: String,
        lb_strategy: LbStrategy,
    ) -> (g: NodeGroup)
        ensures
            g@.well_formed(),
            g@ == (NodeGroupView {
                id: id as nat,
                project: project@,
                environment: environment@,
                name: name@,
                lb_strategy,
                members: Seq::<MemberView>::empty(),
            }),
    {
        let g = NodeGroup {
            id,
            project,
            environment,
            name,
            lb_strategy,
            health_config: None,
            members: Vec::new(),
        };
        assert(g@.members =~= Seq::<MemberView>::empty());
        g
    }

    /// The position of node `node_id` among the members, or the number of
    /// members when it is not bound.
    pub fn find(&self, node_id: u64) -> (i: usize)
        ensures
            i == position_of(self@.members, node_id as nat),
            i <= self.members.len(),
    {
        let mut i: usize = 0;
        assert(self@.members.skip(0) =~= self@.members);
        while i < self.members.len() && self.members[i].target.node_id != node_id
            invariant
                i <= self.members.len(),
                position_of(self@.members, node_id as nat) == i + position_of(
                    self@.members.skip(i as int),
                    node_id as nat,
                ),
            decreases self.members.len() - i,
        {
            proof {
                let t = self@.members.skip(i as int);
                assert(t[0] == self@.members[i as int]);
                assert(t.skip(1) =~= self@.members.skip(i + 1));
            }
            i += 1;
        }
        proof {
            let t = self@.members.skip(i as int);
            if i < self.members.len() {
                assert(t[0] == self@.members[i as int]);
            }
        }
        i
    }

    pub fn is_member(&self, node_id: u64) -> (r: bool)
        ensures
            r == self@.is_member(node_id as nat),
    {
        self.find(node_id) < self.members.len()
    }

    /// The status of node `node_id`, or `None` when it is not bound.
    pub fn status_of(&self, node_id: u64) -> (r: Option<NodeStatus>)
        ensures
            r is Some <==> self@.is_member(node_id as nat),
            r matches Some(status) ==> status == self@.status_of(node_id as nat),
    {
        let i = self.find(node_id);
        if i < self.members.len() {
            Some(self.members[i].target.status)
        } else {
            None
        }
    }

    pub fn node_count(&self) -> (n: usize)
        ensures
            n == self@.members.len(),
    {
        self.members.len()
    }

    /// The number of members that count as healthy: the numerator of the
    /// health ratio, whose denominator is `node_count`.
    pub fn healthy_count(&self) -> (n: usize)
        ensures
            n == healthy_count(self@.members),
            n <= self@.members.len(),
    {
        let mut n: usize = 0;
        let mut i: usize = 0;
        while i < self.members.len()
            invariant
                i <= self.members.len(),
                n <= i,
                n == healthy_count(self@.members.take(i as int)),
            decreases self.members.len() - i,
        {
            proof {
                let t = self@.members.take(i + 1);
                assert(t.drop_last() =~= self@.members.take(i as int));
                assert(t.last() == self@.members[i as int]);
            }
            if self.members[i].target.status.is_healthy() {
                n += 1;
            }
            i += 1;
        }
        proof {
            assert(self@.members.take(self.members.len() as int) =~= self@.members);
        }
        n
    }

    /// The number of members marked primary.
    pub fn primary_count(&self) -> (n: usize)
        ensures
            n == primary_count(self@.members),
    {
        let mut n: usize = 0;
        let mut i: usize = 0;
        while i < self.members.len()
            invariant
                i <= self.members.len(),
                n <= i,
                n == primary_count(self@.members.take(i as int)),
            decreases self.members.len() - i,
        {
            proof {
                let t = self@.members.take(i + 1);
                assert(t.drop_last() =~= self@.members.take(i as int));
                assert(t.last() == self@.members[i as int]);
            }
            if self.members[i].target.is_primary {
                n += 1;
            }
            i += 1;
        }
        proof {
            assert(self@.members.take(self.members.len() as int) =~= self@.members);
        }
        n
    }

    /// The health of the group at a glance.
    pub fn health(&self) -> (h: GroupHealth)
        ensures
            h == group_health_of(self@.members.len(), healthy_count(self@.members)),
    {
        let total = self.members.len();
        let healthy = self.healthy_count();
        if total == 0 {
            GroupHealth::Empty
        } else if healthy == total {
            GroupHealth::AllHealthy
        } else if healthy > 0 {
            GroupHealth::Degraded
        } else {
            GroupHealth::Down
        }
    }

    /// Single-node until a second node is bound, a pool from then on.
    pub fn mode(&self) -> (m: PoolMode)
        ensures
            m == (if self@.members.len() <= 1 {
                PoolMode::Single
            } else {
                PoolMode::Pool
            }),
    {
        if self.members.len() <= 1 {
            PoolMode::Single
        } else {
            PoolMode::Pool
        }
    }

    /// Checks the group invariant, for a group built from outside data.
    pub fn validate(&self) -> (ok: bool)
        ensures
            ok == self@.well_formed(),
    {
        let mut i: usize = 0;
        while i < self.members.len()
            invariant
                i <= self.members.len(),
                forall|a: int, b: int|
                    0 <= a < b < i ==> self@.members[a].target.node_id
                        != self@.members[b].target.node_id,
                forall|a: int| 0 <= a < i ==> (#[trigger] self@.members[a]).consistent(),
            decreases self.members.len() - i,
        {
            let m = &self.members[i];
            let consistent = match m.resume {
                Some(prior) => m.target.status == NodeStatus::Draining && prior
                    != NodeStatus::Draining,
                None => true,
            };
            if !consistent {
                assert(!self@.members[i as int].consistent());
                return false;
            }
            let mut j: usize = 0;
            while j < i
                invariant
                    j <= i < self.members.len(),
                    forall|a: int|
                        0 <= a < j ==> self@.members[a].target.node_id
                            != self@.members[i as int].target.node_id,
                decreases i - j,
            {
                if self.members[j].target.node_id == self.members[i].target.node_id {
                    proof {
                        let ids = member_ids(self@.members);
                        assert(ids[j as int] == ids[i as int]);
                    }
                    return false;
                }
                j += 1;
            }
            i += 1;
        }
        proof {
            let ids = member_ids(self@.members);
            assert forall|a: int, b: int| 0 <= a < ids.len() && 0 <= b < ids.len() && a != b implies ids[a]
                != ids[b] by {
                if a < b {
                    assert(self@.members[a].target.node_id != self@.members[b].target.node_id);
                } else {
                    assert(self@.members[b].target.node_id != self@.members[a].target.node_id);
                }
            }
        }
        match self.lb_strategy {
            LbStrategy::Failover => self.primary_count() <= 1,
            _ => true,
        }
    }

    /// Takes node `node_id` out of rotation. The node stays bound; its status
    /// becomes `Draining` and the status it had is remembered.
    pub fn drain(&mut self, node_id: u64) -> (r: Result<(), PoolError>)
        ensures
            old(self)@.is_member(node_id as nat) ==> r is Ok && final(self)@ == old(self)@.drain(
                node_id as nat,
            ),
            !old(self)@.is_member(node_id as nat) ==> r == Err::<(), PoolError>(
                PoolError::NotAMember(node_id),
            ) && final(self)@ == old(self)@,
    {
        let i = self.find(node_id);
        if i >= self.members.len() {
            return Err(PoolError::NotAMember(node_id));
        }
        let status = self.members[i].target.status;
        match status {
            NodeStatus::Draining => {},
            _ => {
                self.members[i].resume = Some(status);
                self.members[i].target.status = NodeStatus::Draining;
            },
        }
        proof {
            let before = old(self)@.members;
            assert(self@.members =~= before.update(i as int, before[i as int].drained()));
        }
        Ok(())
    }

    /// Puts node `node_id` back in rotation with the status it had before it
    /// was drained.
    pub fn undrain(&mut self, node_id: u64) -> (r: Result<(), PoolError>)
        ensures
            old(self)@.is_member(node_id as nat) ==> r is Ok && final(self)@ == old(self)@.undrain(
                node_id as nat,
            ),
            !old(self)@.is_member(node_id as nat) ==> r == Err::<(), PoolError>(
                PoolError::NotAMember(node_id),
            ) && final(self)@ == old(self)@,
    {
        let i = self.find(node_id);
        if i >= self.members.len() {
            return Err(PoolError::NotAMember(node_id));
        }
        match self.members[i].target.status {
            NodeStatus::Draining => {
                let back = match self.members[i].resume {
                    Some(prior) => prior,
                    None => NodeStatus::Unknown,
                };
                self.members[i].target.status = back;
                self.members[i].resume = None;
            },
            _ => {},
        }
        proof {
            let before = old(self)@.members;
            assert(self@.members =~= before.update(i as int, before[i as int].undrained()));
        }
        Ok(())
    }

    /// Binds a node to the group. Refused when the node is bound already, or
    /// when it would be the second primary of a failover group.
    pub fn add_member(&mut self, target: DeployTarget) -> (r: Result<(), PoolError>)
        requires
            old(self)@.well_formed(),
        ensures
            final(self)@.well_formed(),
            match r {
                Ok(_) => {
                    &&& !old(self)@.is_member(target@.node_id)
                    &&& final(self)@ == (NodeGroupView {
                        members: old(self)@.members.push(
                            MemberView { target: target@, resume: None },
                        ),
                        ..old(self)@
                    })
                },
                Err(e) => {
                    &&& final(self)@ == old(self)@
                    &&& if old(self)@.is_member(target@.node_id) {
                        e == PoolError::AlreadyMember(target.node_id)
                    } else {
                        &&& e == PoolError::SecondPrimary
                        &&& old(self)@.lb_strategy == LbStrategy::Failover
                        &&& target.is_primary
                        &&& primary_count(old(self)@.members) == 1
                    }
                },
            },
    {
        let node_id = target.node_id;
        if self.is_member(node_id) {
            return Err(PoolError::AlreadyMember(node_id));
        }
        if target.is_primary {
            match self.lb_strategy {
                LbStrategy::Failover => {
                    if self.primary_count() >= 1 {
                        return Err(PoolError::SecondPrimary);
                    }
                },
                _ => {},
            }
        }
        let ghost before = self@.members;
        let ghost added = MemberView { target: target@, resume: None };
        self.members.push(Member { target, resume: None });
        proof {
            let after = before.push(added);
            assert(self@.members =~= after);
            assert(after.drop_last() =~= before);
            lemma_position_of(before, node_id as nat);
            assert forall|a: int, b: int|
                0 <= a < member_ids(after).len() && 0 <= b < member_ids(after).len() && a
                    != b implies member_ids(after)[a] != member_ids(after)[b] by {
                if a < before.len() && b < before.len() {
                    assert(member_ids(before)[a] != member_ids(before)[b]);
                }
            }
        }
        Ok(())
    }

    /// Changes the load-balancing strategy. Refused when a group with more
    /// than one primary is to become a failover group.
    pub fn set_strategy(&mut self, strategy: LbStrategy) -> (r: Result<(), PoolError>)
        requires
            old(self)@.well_formed(),
        ensures
            final(self)@.well_formed(),
            r is Ok <==> !(strategy == LbStrategy::Failover && primary_count(old(self)@.members)
                > 1),
            r is Ok ==> final(self)@ == (NodeGroupView { lb_strategy: strategy, ..old(self)@ }),
            r is Err ==> r == Err::<(), PoolError>(PoolError::SecondPrimary) && final(self)@
                == old(self)@,
    {
        match strategy {
            LbStrategy::Failover => {
                if self.primary_count() > 1 {
                    return Err(PoolError::SecondPrimary);
                }
            },
            _ => {},
        }
        self.lb_strategy = strategy;
        Ok(())
    }

    /// The targets of the group, in binding order.
    pub fn targets(&self) -> (r: Vec<DeployTarget>)
        ensures
            r.deep_view() == targets_of(self@.members),
    {
        let mut r: Vec<DeployTarget> = Vec::new();
        let mut i: usize = 0;
        while i < self.members.len()
            invariant
                i <= self.members.len(),
                r.len() == i,
                forall|j: int| 0 <= j < i ==> r@[j]@ == self@.members[j].target,
            decreases self.members.len() - i,
        {
            r.push(self.members[i].target.clone());
            i += 1;
        }
        assert(r.deep_view() =~= targets_of(self@.members));
        r
    }
}

} // verus!
