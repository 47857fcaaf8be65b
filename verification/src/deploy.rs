//! One deploy run from request to exit code: the filters on the resolved
//! targets, the plan shown to the operator, the coordinator of the run, and
//! the deployment record that is written once at its end.

use crate::coordinator::{AggregateStatus, Coordinator, CoordinatorView, Summary, SummaryView, mode_for};
use crate::pool::{DeployTarget, DeployTargetView};
use crate::resolver::{ResolutionError, ResolutionErrorView, apply_filters, filtered};
use crate::text::{decimal, format_decimal_wide, opt_text};
use vstd::prelude::*;

verus! {

/// What the operator asked for.
#[derive(Debug)]
pub struct DeployRequest {
    pub service_filter: Option<String>,
    pub app_filter: Option<String>,
    pub restart_only: bool,
    pub env_vars: Vec<String>,
    pub node_filter: Option<u64>,
    pub region_filter: Option<String>,
    pub rolling: bool,
    pub force: bool,
    pub interactive: bool,
}

impl DeployRequest {
    pub open spec fn node_filter_view(&self) -> Option<nat> {
        match self.node_filter {
            Some(id) => Some(id as nat),
            None => None,
        }
    }
}

/// The run that a request starts on the resolved targets: the coordinator of
/// the targets that the filters leave, in which no target has been invoked,
/// or the error of the filter that left none.
pub open spec fn run_of(request: &DeployRequest, resolved: Seq<DeployTargetView>) -> Result<
    CoordinatorView,
    ResolutionErrorView,
> {
    match filtered(resolved, request.node_filter_view(), opt_text(request.region_filter)) {
        Ok(targets) => Ok(
            crate::coordinator::initial(targets, mode_for(targets.len(), request.rolling)),
        ),
        Err(e) => Err(e),
    }
}

/// Starts a run on the resolved targets. The filters come first: where one
/// of them leaves nothing, there is no run, and so no target for which a
/// session could be opened.
pub fn begin(request: &DeployRequest, resolved: Vec<DeployTarget>) -> (r: Result<
    Coordinator,
    ResolutionError,
>)
    ensures
        match run_of(request, resolved.deep_view()) {
            Ok(run) => r matches Ok(c) && c@ == run && c@.well_formed(),
            Err(e) => r matches Err(err) && err@ == e,
        },
{
    match apply_filters(resolved, request.node_filter, &request.region_filter) {
        Ok(targets) => {
            let c = Coordinator::new(targets, request.rolling);
            assert(c@.order =~= Seq::<int>::empty());
            assert(c@.errors =~= Seq::<Option<Seq<char>>>::empty());
            Ok(c)
        },
        Err(e) => Err(e),
    }
}

/// The sessions that a run opens at its start: one per target it invokes
/// first, none where resolution failed.
pub open spec fn first_sessions(run: Result<CoordinatorView, ResolutionErrorView>) -> Seq<int> {
    match run {
        Ok(c) => c.first_invocations(),
        Err(_) => Seq::empty(),
    }
}

/// A node filter that matches none of the resolved targets ends the run
/// before it starts, with the error that says that the node is not bound:
/// no session is opened.
pub proof fn lemma_unmatched_node_opens_no_session(
    request: &DeployRequest,
    resolved: Seq<DeployTargetView>,
)
    requires
        request.node_filter is Some,
        forall|i: int|
            0 <= i < resolved.len() ==> (#[trigger] resolved[i]).node_id
                != request.node_filter->0 as nat,
    ensures
        run_of(request, resolved) == Err::<CoordinatorView, ResolutionErrorView>(
            ResolutionErrorView::NodeNotBound(request.node_filter->0 as nat),
        ),
        first_sessions(run_of(request, resolved)) == Seq::<int>::empty(),
{
    crate::resolver::lemma_unmatched_node_filter_fails(
        resolved,
        request.node_filter->0 as nat,
        opt_text(request.region_filter),
    );
}

/// A region filter that matches none of the resolved targets ends the run
/// before it starts, with the error that names the region: no session is
/// opened.
pub proof fn lemma_unmatched_region_opens_no_session(
    request: &DeployRequest,
    resolved: Seq<DeployTargetView>,
)
    requires
        request.node_filter is None,
        request.region_filter is Some,
        forall|i: int|
            0 <= i < resolved.len() ==> (#[trigger] resolved[i]).region != Some(
                request.region_filter->0@,
            ),
    ensures
        run_of(request, resolved) == Err::<CoordinatorView, ResolutionErrorView>(
            ResolutionErrorView::NoNodesInRegion(request.region_filter->0@),
        ),
        first_sessions(run_of(request, resolved)) == Seq::<int>::empty(),
{
    crate::resolver::lemma_unmatched_region_filter_fails(
        resolved,
        None,
        request.region_filter->0@,
    );
}

// ---------------------------------------------------------------------------
// The plan shown to the operator
// ---------------------------------------------------------------------------

/// The line that announces the targets of a run over several nodes.
pub open spec fn targets_line_of(count: nat, rolling: bool) -> Seq<char> {
    "   Targets: "@ + decimal(count) + " node(s)"@ + (if rolling {
        " (rolling)"@
    } else {
        " (parallel)"@
    })
}

pub fn targets_line(count: usize, rolling: bool) -> (line: String)
    ensures
        line@ == targets_line_of(count as nat, rolling),
{
    let mut line = "   Targets: ".to_owned();
    line.append(format_decimal_wide(count as u128).as_str());
    line.append(" node(s)");
    if rolling {
        line.append(" (rolling)");
    } else {
        line.append(" (parallel)");
    }
    line
}

/// The line that shows one target of a run over several nodes: its domain,
/// its region, and a star on the primary.
pub open spec fn target_line_of(t: DeployTargetView) -> Seq<char> {
    "     - "@ + t.domain + " ("@ + (match t.region {
        Some(region) => region,
        None => "?"@,
    }) + ")"@ + (if t.is_primary {
        " *"@
    } else {
        Seq::<char>::empty()
    })
}

pub fn target_line(t: &DeployTarget) -> (line: String)
    ensures
        line@ == target_line_of(t@),
{
    let mut line = "     - ".to_owned();
    line.append(t.domain.as_str());
    line.append(" (");
    match &t.region {
        Some(region) => line.append(region.as_str()),
        None => line.append("?"),
    }
    line.append(")");
    if t.is_primary {
        line.append(" *");
    }
    line
}

/// The line that reports one target while the run goes on: a tick, or a
/// cross with the error.
pub open spec fn outcome_line_of(t: DeployTargetView, error: Option<Seq<char>>) -> Seq<char> {
    let place = t.domain + " ("@ + (match t.region {
        Some(region) => region,
        None => "?"@,
    }) + ")"@;
    match error {
        None => "   ✔ "@ + place,
        Some(e) => "   ✘ "@ + place + ": "@ + e,
    }
}

pub fn outcome_line(t: &DeployTarget, error: &Option<String>) -> (line: String)
    ensures
        line@ == outcome_line_of(t@, opt_text(*error)),
{
    let mut line = match error {
        None => "   ✔ ".to_owned(),
        Some(_) => "   ✘ ".to_owned(),
    };
    line.append(t.domain.as_str());
    line.append(" (");
    match &t.region {
        Some(region) => line.append(region.as_str()),
        None => line.append("?"),
    }
    line.append(")");
    match error {
        None => {},
        Some(e) => {
            line.append(": ");
            line.append(e.as_str());
        },
    }
    line
}

// ---------------------------------------------------------------------------
// The deployment record
// ---------------------------------------------------------------------------

/// The status of a deployment record.
#[derive(Debug, Clone, Copy, PartialEq, Eq, Structural)]
pub enum RecordStatus {
    Pending,
    Success,
    Failed,
    Partial,
}

impl RecordStatus {
    /// The word written to the control plane.
    pub open spec fn name(self) -> Seq<char> {
        match self {
            RecordStatus::Pending => "pending"@,
            RecordStatus::Success => "success"@,
            RecordStatus::Failed => "failed"@,
            RecordStatus::Partial => "partial"@,
        }
    }

    pub fn as_str(self) -> (r: &'static str)
        ensures
            r@ == self.name(),
    {
        match self {
            RecordStatus::Pending => "pending",
            RecordStatus::Success => "success",
            RecordStatus::Failed => "failed",
            RecordStatus::Partial => "partial",
        }
    }

    pub open spec fn of(status: AggregateStatus) -> RecordStatus {
        match status {
            AggregateStatus::Success => RecordStatus::Success,
            AggregateStatus::Partial => RecordStatus::Partial,
            AggregateStatus::Failed => RecordStatus::Failed,
        }
    }
}

/// The audit record of one deploy attempt. It is created pending when the
/// attempt starts and written once, when every target has reported; nothing
/// writes it while targets are in flight.
#[derive(Debug)]
pub struct Deployment {
    pub id: u64,
    pub app_id: u64,
    pub status: RecordStatus,
    pub logs: Option<String>,
}

/// The record has been written already.
#[derive(Debug, Clone, Copy, PartialEq, Eq, Structural)]
pub struct AlreadyClosed;

/// What is logged with the record of a run: nothing on success, the number
/// of failed nodes otherwise.
pub open spec fn logs_of(summary: SummaryView) -> Option<Seq<char>> {
    if summary.failed.len() == 0 {
        None
    } else {
        Some(decimal(summary.failed.len()) + " node(s) failed"@)
    }
}

impl Deployment {
    /// The record of an attempt that starts.
    pub fn open(id: u64, app_id: u64) -> (d: Deployment)
        ensures
            d.id == id,
            d.app_id == app_id,
            d.status == RecordStatus::Pending,
            d.logs is None,
    {
        Deployment { id, app_id, status: RecordStatus::Pending, logs: None }
    }

    /// Writes the outcome of a run over one target to a pending record:
    /// success, or failure with the error of the pipeline. A record that has
    /// been written stays as it is.
    pub fn close_single(&mut self, error: &Option<String>) -> (r: Result<(), AlreadyClosed>)
        ensures
            final(self).id == old(self).id,
            final(self).app_id == old(self).app_id,
            old(self).status == RecordStatus::Pending ==> {
                &&& r is Ok
                &&& final(self).status == (if error is None {
                    RecordStatus::Success
                } else {
                    RecordStatus::Failed
                })
                &&& opt_text(final(self).logs) == opt_text(*error)
            },
            old(self).status != RecordStatus::Pending ==> {
                &&& r is Err
                &&& final(self).status == old(self).status
                &&& opt_text(final(self).logs) == opt_text(old(self).logs)
            },
    {
        match self.status {
            RecordStatus::Pending => {},
            _ => {
                return Err(AlreadyClosed);
            },
        }
        match error {
            None => {
                self.status = RecordStatus::Success;
                self.logs = None;
            },
            Some(e) => {
                self.status = RecordStatus::Failed;
                self.logs = Some(e.clone());
            },
        }
        Ok(())
    }

    /// Writes the aggregated outcome to a pending record. A record that has
    /// been written stays as it is.
    pub fn close(&mut self, summary: &Summary) -> (r: Result<(), AlreadyClosed>)
        ensures
            final(self).id == old(self).id,
            final(self).app_id == old(self).app_id,
            old(self).status == RecordStatus::Pending ==> {
                &&& r is Ok
                &&& final(self).status == RecordStatus::of(summary@.status())
                &&& final(self).status != RecordStatus::Pending
                &&& opt_text(final(self).logs) == logs_of(summary@)
            },
            old(self).status != RecordStatus::Pending ==> {
                &&& r is Err
                &&& final(self).status == old(self).status
                &&& opt_text(final(self).logs) == opt_text(old(self).logs)
            },
    {
        match self.status {
            RecordStatus::Pending => {},
            _ => {
                return Err(AlreadyClosed);
            },
        }
        self.status = match summary.status() {
            AggregateStatus::Success => RecordStatus::Success,
            AggregateStatus::Partial => RecordStatus::Partial,
            AggregateStatus::Failed => RecordStatus::Failed,
        };
        if summary.failed.len() > 0 {
            let mut logs = format_decimal_wide(summary.failed.len() as u128);
            logs.append(" node(s) failed");
            self.logs = Some(logs);
        } else {
            self.logs = None;
        }
        Ok(())
    }
}

} // verus!
