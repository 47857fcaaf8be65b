//! The concurrency coordinator: runs the deployment pipeline over every
//! resolved target, one after the other or all at once, and aggregates what
//! each target reports.
//!
//! The coordinator decides; its driver performs. The driver invokes the
//! pipeline on the targets the coordinator names and hands each outcome back
//! with `record`. No outcome of one target changes what is asked for another.

use crate::pool::{DeployTarget, DeployTargetView};
use crate::text::{decimal, format_decimal_wide};
use vstd::prelude::*;

verus! {

/// How the targets of one run are worked through.
#[derive(Debug, Clone, Copy, PartialEq, Eq, Structural)]
pub enum Mode {
    /// One target: the pipeline runs directly.
    Single,
    /// Several targets, strictly one after the other, in resolved order.
    Rolling,
    /// Several targets, each an independent concurrent task.
    Parallel,
}

pub open spec fn mode_for(target_count: nat, rolling: bool) -> Mode {
    if target_count <= 1 {
        Mode::Single
    } else if rolling {
        Mode::Rolling
    } else {
        Mode::Parallel
    }
}

/// The mode of a run over `target_count` targets: parallel by default for
/// more than one target, rolling on request.
pub fn choose_mode(target_count: usize, rolling: bool) -> (m: Mode)
    ensures
        m == mode_for(target_count as nat, rolling),
{
    if target_count <= 1 {
        Mode::Single
    } else if rolling {
        Mode::Rolling
    } else {
        Mode::Parallel
    }
}

/// The outcome of a whole run.
#[derive(Debug, Clone, Copy, PartialEq, Eq, Structural)]
pub enum AggregateStatus {
    /// Every target succeeded.
    Success,
    /// Some targets succeeded, some failed.
    Partial,
    /// No target succeeded.
    Failed,
}

pub open spec fn aggregate_of(succeeded: nat, failed: nat) -> AggregateStatus {
    if failed == 0 {
        AggregateStatus::Success
    } else if succeeded > 0 {
        AggregateStatus::Partial
    } else {
        AggregateStatus::Failed
    }
}

/// The exit code of a run: non-zero whenever a target failed, however many
/// succeeded.
pub open spec fn exit_code_of(failed: nat) -> int {
    if failed > 0 {
        1
    } else {
        0
    }
}

impl AggregateStatus {
    /// The word written to the deployment record.
    pub open spec fn name(self) -> Seq<char> {
        match self {
            AggregateStatus::Success => "success"@,
            AggregateStatus::Partial => "partial"@,
            AggregateStatus::Failed => "failed"@,
        }
    }

    pub fn as_str(self) -> (r: &'static str)
        ensures
            r@ == self.name(),
    {
        match self {
            AggregateStatus::Success => "success",
            AggregateStatus::Partial => "partial",
            AggregateStatus::Failed => "failed",
        }
    }
}

/// A target whose pipeline failed, with the error it failed on.
#[derive(Debug)]
pub struct Failure {
    pub target: DeployTarget,
    pub error: String,
}

pub struct FailureView {
    pub target: DeployTargetView,
    pub error: Seq<char>,
}

impl View for Failure {
    type V = FailureView;

    open spec fn view(&self) -> FailureView {
        FailureView { target: self.target@, error: self.error@ }
    }
}

impl DeepView for Failure {
    type V = FailureView;

    open spec fn deep_view(&self) -> FailureView {
        self.view()
    }
}

/// What a run came to: the targets that succeeded and those that failed,
/// each list in the order in which the targets reported.
#[derive(Debug)]
pub struct Summary {
    pub succeeded: Vec<DeployTarget>,
    pub failed: Vec<Failure>,
}

pub struct SummaryView {
    pub succeeded: Seq<DeployTargetView>,
    pub failed: Seq<FailureView>,
}

impl View for Summary {
    type V = SummaryView;

    open spec fn view(&self) -> SummaryView {
        SummaryView { succeeded: self.succeeded.deep_view(), failed: self.failed.deep_view() }
    }
}

impl SummaryView {
    pub open spec fn total(self) -> nat {
        self.succeeded.len() + self.failed.len()
    }

    pub open spec fn status(self) -> AggregateStatus {
        aggregate_of(self.succeeded.len(), self.failed.len())
    }

    pub open spec fn exit_code(self) -> int {
        exit_code_of(self.failed.len())
    }

    /// The closing line of a run over several targets.
    pub open spec fn headline(self, app_name: Seq<char>) -> Seq<char> {
        let line = "Deployed "@ + app_name + " to "@ + decimal(self.succeeded.len()) + "/"@
            + decimal(self.total()) + " nodes"@;
        if self.failed.len() == 0 {
            line
        } else {
            line + " ("@ + decimal(self.failed.len()) + " failed)"@
        }
    }

    /// The text of the error that ends a run in which targets failed.
    pub open spec fn failure_text(self) -> Seq<char> {
        decimal(self.failed.len()) + " node(s) failed deployment"@
    }
}

impl Summary {
    pub fn status(&self) -> (s: AggregateStatus)
        ensures
            s == self@.status(),
    {
        if self.failed.len() == 0 {
            AggregateStatus::Success
        } else if self.succeeded.len() > 0 {
            AggregateStatus::Partial
        } else {
            AggregateStatus::Failed
        }
    }

    pub fn exit_code(&self) -> (code: i32)
        ensures
            code == self@.exit_code(),
    {
        if self.failed.len() > 0 {
            1
        } else {
            0
        }
    }

    /// The closing line of a run over several targets.
    pub fn headline(&self, app_name: &str) -> (line: String)
        ensures
            line@ == self@.headline(app_name@),
    {
        let succeeded = self.succeeded.len() as u128;
        let failed = self.failed.len() as u128;
        let mut line = "Deployed ".to_owned();
        line.append(app_name);
        line.append(" to ");
        line.append(format_decimal_wide(succeeded).as_str());
        line.append("/");
        line.append(format_decimal_wide(succeeded + failed).as_str());
        line.append(" nodes");
        if self.failed.len() > 0 {
            line.append(" (");
            line.append(format_decimal_wide(failed).as_str());
            line.append(" failed)");
        }
        line
    }

    /// The text of the error that ends a run in which targets failed.
    pub fn failure_text(&self) -> (text: String)
        ensures
            text@ == self@.failure_text(),
    {
        let mut text = format_decimal_wide(self.failed.len() as u128);
        text.append(" node(s) failed deployment");
        text
    }
}

// ---------------------------------------------------------------------------
// The coordinator
// ---------------------------------------------------------------------------

/// What the driver does next.
#[derive(Debug, Clone, Copy, PartialEq, Eq, Structural)]
pub enum Action {
    /// Open a session to the target at this position and run the pipeline.
    Invoke(usize),
    /// Tasks are still running: wait for the next one to report.
    Wait,
    /// Every target has reported: aggregate, and update the deployment
    /// record, once.
    Finish,
}

/// Why a report was refused.
#[derive(Debug, Clone, Copy, PartialEq, Eq, Structural)]
pub enum ProtocolError {
    /// There is no target at this position.
    NoSuchTarget,
    /// The target at this position has reported already.
    AlreadyReported,
    /// In a sequential run only the target that was invoked can report.
    OutOfTurn,
}

/// The state of one run: the targets, and for each target that has reported,
/// in reporting order, its position and the error it failed on, if any.
#[derive(Debug)]
pub struct Coordinator {
    pub targets: Vec<DeployTarget>,
    pub mode: Mode,
    pub order: Vec<usize>,
    pub errors: Vec<Option<String>>,
}

pub struct CoordinatorView {
    pub targets: Seq<DeployTargetView>,
    pub mode: Mode,
    pub order: Seq<int>,
    pub errors: Seq<Option<Seq<char>>>,
}

impl View for Coordinator {
    type V = CoordinatorView;

    open spec fn view(&self) -> CoordinatorView {
        CoordinatorView {
            targets: self.targets.deep_view(),
            mode: self.mode,
            order: Seq::new(self.order@.len(), |i: int| self.order@[i] as int),
            errors: Seq::new(self.errors@.len(), |i: int| crate::text::opt_text(self.errors@[i])),
        }
    }
}

/// The targets among the first reports that succeeded, in reporting order.
pub open spec fn succeeded_of(
    targets: Seq<DeployTargetView>,
    order: Seq<int>,
    errors: Seq<Option<Seq<char>>>,
) -> Seq<DeployTargetView>
    recommends
        order.len() == errors.len(),
    decreases order.len(),
{
    if order.len() == 0 {
        Seq::empty()
    } else {
        let before = succeeded_of(targets, order.drop_last(), errors.drop_last());
        match errors.last() {
            None => before.push(targets[order.last()]),
            Some(_) => before,
        }
    }
}

/// The targets among the first reports that failed, each with its error, in
/// reporting order.
pub open spec fn failed_of(
    targets: Seq<DeployTargetView>,
    order: Seq<int>,
    errors: Seq<Option<Seq<char>>>,
) -> Seq<FailureView>
    recommends
        order.len() == errors.len(),
    decreases order.len(),
{
    if order.len() == 0 {
        Seq::empty()
    } else {
        let before = failed_of(targets, order.drop_last(), errors.drop_last());
        match errors.last() {
            None => before,
            Some(error) => before.push(FailureView { target: targets[order.last()], error }),
        }
    }
}

/// Every report is counted once, as a success or as a failure.
pub proof fn lemma_reports_partition(
    targets: Seq<DeployTargetView>,
    order: Seq<int>,
    errors: Seq<Option<Seq<char>>>,
)
    requires
        order.len() == errors.len(),
    ensures
        succeeded_of(targets, order, errors).len() + failed_of(targets, order, errors).len()
            == order.len(),
    decreases order.len(),
{
    if order.len() > 0 {
        lemma_reports_partition(targets, order.drop_last(), errors.drop_last());
    }
}

impl CoordinatorView {
    /// The invariant of a run: each report names a target, no target has
    /// reported twice, and a sequential run has heard from its targets in
    /// resolved order, without a gap.
    pub open spec fn well_formed(self) -> bool {
        &&& self.order.len() == self.errors.len()
        &&& forall|k: int| 0 <= k < self.order.len() ==> 0 <= #[trigger] self.order[k]
            < self.targets.len()
        &&& self.order.no_duplicates()
        &&& self.mode != Mode::Parallel ==> forall|k: int|
            0 <= k < self.order.len() ==> #[trigger] self.order[k] == k
    }

    pub open spec fn has_reported(self, index: int) -> bool {
        self.order.contains(index)
    }

    /// Whether every target has reported.
    pub open spec fn finished(self) -> bool {
        self.order.len() == self.targets.len()
    }

    /// What the summary holds after the reports so far.
    pub open spec fn summary(self) -> SummaryView {
        SummaryView {
            succeeded: succeeded_of(self.targets, self.order, self.errors),
            failed: failed_of(self.targets, self.order, self.errors),
        }
    }

    /// Which report is in order next, if any is refused: `None` when the
    /// report of `index` is accepted.
    pub open spec fn refusal(self, index: int) -> Option<ProtocolError> {
        if !(0 <= index < self.targets.len()) {
            Some(ProtocolError::NoSuchTarget)
        } else if self.has_reported(index) {
            Some(ProtocolError::AlreadyReported)
        } else if self.mode != Mode::Parallel && index != self.order.len() {
            Some(ProtocolError::OutOfTurn)
        } else {
            None
        }
    }

    /// The run after the target at `index` reported `error` (`None` for
    /// success).
    pub open spec fn record(self, index: int, error: Option<Seq<char>>) -> CoordinatorView {
        CoordinatorView {
            order: self.order.push(index),
            errors: self.errors.push(error),
            ..self
        }
    }

    /// What the driver does once the reports so far are in.
    pub open spec fn next_action(self) -> Action {
        if self.finished() {
            Action::Finish
        } else if self.mode == Mode::Parallel {
            Action::Wait
        } else {
            Action::Invoke(self.order.len() as usize)
        }
    }

    /// The positions of the targets the driver invokes at the start of the
    /// run: all of them at once in a parallel run, the first one otherwise.
    pub open spec fn first_invocations(self) -> Seq<int> {
        if self.mode == Mode::Parallel {
            Seq::new(self.targets.len(), |i: int| i)
        } else if self.targets.len() > 0 {
            seq![0int]
        } else {
            Seq::empty()
        }
    }
}

/// Indices below a bound that are pairwise distinct are at most as many as
/// the bound.
pub proof fn lemma_distinct_indices_bounded(order: Seq<int>, bound: int)
    requires
        order.no_duplicates(),
        forall|k: int| 0 <= k < order.len() ==> 0 <= #[trigger] order[k] < bound,
        bound >= 0,
    ensures
        order.len() <= bound,
        order.len() == bound ==> forall|i: int| 0 <= i < bound ==> order.contains(i),
    decreases bound,
{
    if bound == 0 {
        if order.len() > 0 {
            let first = order[0];
            assert(first < bound);
        }
    } else {
        // Take the largest index out and recurse on the rest.
        let top = bound - 1;
        if order.contains(top) {
            let at = choose|k: int| 0 <= k < order.len() && order[k] == top;
            let rest = order.remove(at);
            assert forall|k: int| 0 <= k < rest.len() implies 0 <= #[trigger] rest[k] < top by {
                if k < at {
                    assert(rest[k] == order[k]);
                } else {
                    assert(rest[k] == order[k + 1]);
                }
            }
            assert(rest.no_duplicates()) by {
                assert forall|a: int, b: int| 0 <= a < rest.len() && 0 <= b < rest.len() && a
                    != b implies rest[a] != rest[b] by {
                    let a2 = if a < at { a } else { a + 1 };
                    let b2 = if b < at { b } else { b + 1 };
                    assert(rest[a] == order[a2] && rest[b] == order[b2]);
                }
            }
            lemma_distinct_indices_bounded(rest, top);
            if order.len() == bound {
                assert forall|i: int| 0 <= i < bound implies order.contains(i) by {
                    if i < top {
                        assert(rest.contains(i));
                        let k = choose|k: int| 0 <= k < rest.len() && rest[k] == i;
                        let k2 = if k < at { k } else { k + 1 };
                        assert(order[k2] == i);
                    }
                }
            }
        } else {
            assert forall|k: int| 0 <= k < order.len() implies 0 <= #[trigger] order[k] < top by {
                assert(order.contains(order[k]));
            }
            lemma_distinct_indices_bounded(order, top);
        }
    }
}

impl Coordinator {
    /// A run over `targets` in which no target has reported yet.
    pub fn new(targets: Vec<DeployTarget>, rolling: bool) -> (c: Coordinator)
        ensures
            c@.well_formed(),
            c@.targets == targets.deep_view(),
            c@.mode == mode_for(targets.len() as nat, rolling),
            c@.order.len() == 0,
    {
        let mode = choose_mode(targets.len(), rolling);
        Coordinator { targets, mode, order: Vec::new(), errors: Vec::new() }
    }

    /// Checks the invariant of a run, for a state that was put together
    /// outside this module.
    pub fn validate(&self) -> (ok: bool)
        ensures
            ok == self@.well_formed(),
    {
        if self.order.len() != self.errors.len() {
            return false;
        }
        let sequential = match self.mode {
            Mode::Parallel => false,
            _ => true,
        };
        let mut k: usize = 0;
        while k < self.order.len()
            invariant
                k <= self.order.len(),
                self.order.len() == self.errors.len(),
                sequential == (self.mode != Mode::Parallel),
                forall|j: int| 0 <= j < k ==> 0 <= #[trigger] self@.order[j] < self@.targets.len(),
                forall|a: int, b: int| 0 <= a < b < k ==> self@.order[a] != self@.order[b],
                sequential ==> forall|j: int| 0 <= j < k ==> #[trigger] self@.order[j] == j,
            decreases self.order.len() - k,
        {
            let index = self.order[k];
            if index >= self.targets.len() {
                assert(!(0 <= self@.order[k as int] < self@.targets.len()));
                return false;
            }
            if sequential && index != k {
                assert(self@.order[k as int] != k);
                return false;
            }
            let mut j: usize = 0;
            while j < k
                invariant
                    j <= k < self.order.len(),
                    index == self.order@[k as int],
                    forall|a: int| 0 <= a < j ==> self@.order[a] != self@.order[k as int],
                decreases k - j,
            {
                if self.order[j] == index {
                    assert(self@.order[j as int] == self@.order[k as int]);
                    return false;
                }
                j += 1;
            }
            k += 1;
        }
        proof {
            assert forall|a: int, b: int|
                0 <= a < self@.order.len() && 0 <= b < self@.order.len() && a
                    != b implies self@.order[a] != self@.order[b] by {
                if a < b {
                    assert(self@.order[a] != self@.order[b]);
                } else {
                    assert(self@.order[b] != self@.order[a]);
                }
            }
        }
        true
    }

    /// The positions of the targets to invoke at the start of the run.
    pub fn start(&self) -> (first: Vec<usize>)
        ensures
            first.len() == self@.first_invocations().len(),
            forall|i: int| 0 <= i < first.len() ==> first@[i] as int == self@.first_invocations()[i],
    {
        let mut first: Vec<usize> = Vec::new();
        match self.mode {
            Mode::Parallel => {
                let mut i: usize = 0;
                while i < self.targets.len()
                    invariant
                        i <= self.targets.len(),
                        first.len() == i,
                        forall|j: int| 0 <= j < i ==> first@[j] as int == j,
                    decreases self.targets.len() - i,
                {
                    first.push(i);
                    i += 1;
                }
            },
            _ => {
                if self.targets.len() > 0 {
                    first.push(0);
                }
            },
        }
        first
    }

    pub fn has_reported(&self, index: usize) -> (r: bool)
        ensures
            r == self@.has_reported(index as int),
    {
        let mut k: usize = 0;
        while k < self.order.len()
            invariant
                k <= self.order.len(),
                forall|j: int| 0 <= j < k ==> self@.order[j] != index as int,
            decreases self.order.len() - k,
        {
            if self.order[k] == index {
                assert(self@.order[k as int] == index as int);
                return true;
            }
            k += 1;
        }
        false
    }

    /// Whether every target has reported.
    pub fn finished(&self) -> (r: bool)
        ensures
            r == self@.finished(),
    {
        self.order.len() == self.targets.len()
    }

    /// Takes the report of the target at `index`: `None` for success, the
    /// error otherwise. A failure is recorded against its target and changes
    /// nothing for the others: the answer depends on how many targets have
    /// reported, never on what they reported.
    pub fn record(&mut self, index: usize, error: Option<String>) -> (r: Result<
        Action,
        ProtocolError,
    >)
        requires
            old(self)@.well_formed(),
        ensures
            final(self)@.well_formed(),
            match old(self)@.refusal(index as int) {
                Some(e) => r == Err::<Action, ProtocolError>(e) && final(self)@ == old(self)@,
                None => {
                    &&& final(self)@ == old(self)@.record(
                        index as int,
                        crate::text::opt_text(error),
                    )
                    &&& r == Ok::<Action, ProtocolError>(final(self)@.next_action())
                },
            },
    {
        if index >= self.targets.len() {
            return Err(ProtocolError::NoSuchTarget);
        }
        if self.has_reported(index) {
            return Err(ProtocolError::AlreadyReported);
        }
        match self.mode {
            Mode::Parallel => {},
            _ => {
                if index != self.order.len() {
                    return Err(ProtocolError::OutOfTurn);
                }
            },
        }
        proof {
            lemma_distinct_indices_bounded(self@.order, self@.targets.len() as int);
            if self@.order.len() == self@.targets.len() {
                assert(self@.order.contains(index as int));
            }
        }
        self.order.push(index);
        self.errors.push(error);
        proof {
            let before = old(self)@;
            let after = before.record(index as int, crate::text::opt_text(error));
            assert(self@.order =~= after.order);
            assert(self@.errors =~= after.errors);
            assert(after.order.no_duplicates()) by {
                assert forall|a: int, b: int|
                    0 <= a < after.order.len() && 0 <= b < after.order.len() && a
                        != b implies after.order[a] != after.order[b] by {
                    if a < before.order.len() && b < before.order.len() {
                        assert(before.order[a] != before.order[b]);
                    } else if a < before.order.len() {
                        assert(before.order.contains(before.order[a]));
                    } else {
                        assert(before.order.contains(before.order[b]));
                    }
                }
            }
        }
        if self.order.len() == self.targets.len() {
            Ok(Action::Finish)
        } else {
            match self.mode {
                Mode::Parallel => Ok(Action::Wait),
                _ => Ok(Action::Invoke(self.order.len())),
            }
        }
    }

    /// The summary of the reports so far.
    pub fn summary(&self) -> (s: Summary)
        requires
            self@.well_formed(),
        ensures
            s@ == self@.summary(),
            s@.total() == self@.order.len(),
    {
        let mut succeeded: Vec<DeployTarget> = Vec::new();
        let mut failed: Vec<Failure> = Vec::new();
        let mut k: usize = 0;
        while k < self.order.len()
            invariant
                self@.well_formed(),
                k <= self.order.len(),
                succeeded.deep_view() == succeeded_of(
                    self@.targets,
                    self@.order.take(k as int),
                    self@.errors.take(k as int),
                ),
                failed.deep_view() == failed_of(
                    self@.targets,
                    self@.order.take(k as int),
                    self@.errors.take(k as int),
                ),
            decreases self.order.len() - k,
        {
            proof {
                let o = self@.order.take(k + 1);
                let e = self@.errors.take(k + 1);
                assert(o.drop_last() =~= self@.order.take(k as int));
                assert(e.drop_last() =~= self@.errors.take(k as int));
                assert(o.last() == self@.order[k as int]);
                assert(e.last() == self@.errors[k as int]);
                assert(0 <= self@.order[k as int] < self@.targets.len());
            }
            let index = self.order[k];
            let ghost s_before = succeeded.deep_view();
            let ghost f_before = failed.deep_view();
            match &self.errors[k] {
                None => {
                    let t = self.targets[index].clone();
                    succeeded.push(t);
                    assert(succeeded.deep_view() =~= s_before.push(self@.targets[index as int]));
                },
                Some(error) => {
                    let f = Failure { target: self.targets[index].clone(), error: error.clone() };
                    failed.push(f);
                    assert(failed.deep_view() =~= f_before.push(
                        FailureView { target: self@.targets[index as int], error: error@ },
                    ));
                },
            }
            k += 1;
        }
        proof {
            assert(self@.order.take(self.order.len() as int) =~= self@.order);
            assert(self@.errors.take(self.errors.len() as int) =~= self@.errors);
            lemma_reports_partition(self@.targets, self@.order, self@.errors);
        }
        Summary { succeeded, failed }
    }
}

// ---------------------------------------------------------------------------
// Laws
// ---------------------------------------------------------------------------

/// A run in which no target has reported.
pub open spec fn initial(targets: Seq<DeployTargetView>, mode: Mode) -> CoordinatorView {
    CoordinatorView { targets, mode, order: Seq::empty(), errors: Seq::empty() }
}

/// A sequential run after its first targets reported `outcomes`, one by one.
pub open spec fn after_sequential_reports(
    targets: Seq<DeployTargetView>,
    mode: Mode,
    outcomes: Seq<Option<Seq<char>>>,
) -> CoordinatorView
    decreases outcomes.len(),
{
    if outcomes.len() == 0 {
        initial(targets, mode)
    } else {
        after_sequential_reports(targets, mode, outcomes.drop_last()).record(
            outcomes.len() - 1,
            outcomes.last(),
        )
    }
}

/// In a sequential run over N targets the driver is asked to invoke target 0,
/// then, after each report, the next target, whatever was reported: a
/// failure of one target does not keep the next from being invoked. Each of
/// these reports is accepted. After N reports the run is finished and the
/// summary accounts for N targets. So exactly N invocations occur, in
/// resolved order.
pub proof fn lemma_sequential_run(
    targets: Seq<DeployTargetView>,
    mode: Mode,
    outcomes: Seq<Option<Seq<char>>>,
)
    requires
        mode != Mode::Parallel,
        outcomes.len() <= targets.len(),
        targets.len() <= usize::MAX,
    ensures
        ({
            let run = after_sequential_reports(targets, mode, outcomes);
            &&& run.well_formed()
            &&& run.targets == targets
            &&& run.mode == mode
            &&& run.order == Seq::new(outcomes.len(), |k: int| k)
            &&& run.errors == outcomes
            &&& run.summary().total() == outcomes.len()
            &&& outcomes.len() < targets.len() ==> {
                &&& run.next_action() == Action::Invoke(outcomes.len() as usize)
                &&& run.refusal(outcomes.len() as int) is None
            }
            &&& outcomes.len() == targets.len() ==> run.next_action() == Action::Finish
        }),
        targets.len() > 0 ==> initial(targets, mode).first_invocations() == seq![0int],
    decreases outcomes.len(),
{
    let run = after_sequential_reports(targets, mode, outcomes);
    if outcomes.len() == 0 {
        assert(run.order =~= Seq::new(0nat, |k: int| k));
        assert(run.errors =~= outcomes);
    } else {
        let rest = outcomes.drop_last();
        lemma_sequential_run(targets, mode, rest);
        let before = after_sequential_reports(targets, mode, rest);
        assert(run.order =~= Seq::new(outcomes.len(), |k: int| k));
        assert(run.errors =~= outcomes);
    }
    lemma_reports_partition(targets, run.order, run.errors);
    if outcomes.len() < targets.len() {
        assert(!run.order.contains(outcomes.len() as int));
    }
}

/// In a parallel run every target is invoked at the start, before any
/// outcome is known.
pub proof fn lemma_parallel_invokes_all(targets: Seq<DeployTargetView>)
    ensures
        initial(targets, Mode::Parallel).well_formed(),
        initial(targets, Mode::Parallel).first_invocations() == Seq::new(
            targets.len(),
            |i: int| i,
        ),
{
}

/// In a parallel run the report of any target that has not reported yet is
/// accepted, in whatever order the targets finish, and what the driver is
/// told next does not depend on what was reported.
pub proof fn lemma_parallel_report(
    run: CoordinatorView,
    index: int,
    one: Option<Seq<char>>,
    other: Option<Seq<char>>,
)
    requires
        run.well_formed(),
        run.mode == Mode::Parallel,
        0 <= index < run.targets.len(),
        !run.has_reported(index),
    ensures
        run.refusal(index) is None,
        run.record(index, one).well_formed(),
        run.record(index, one).next_action() == run.record(index, other).next_action(),
        run.record(index, one).summary().total() == run.summary().total() + 1,
{
    let after = run.record(index, one);
    assert(after.order.drop_last() =~= run.order);
    assert(after.errors.drop_last() =~= run.errors);
    assert forall|a: int, b: int|
        0 <= a < after.order.len() && 0 <= b < after.order.len() && a != b implies after.order[a]
        != after.order[b] by {
        if a < run.order.len() && b < run.order.len() {
            assert(run.order[a] != run.order[b]);
        } else if a < run.order.len() {
            assert(run.order.contains(run.order[a]));
        } else {
            assert(run.order.contains(run.order[b]));
        }
    }
    lemma_reports_partition(run.targets, run.order, run.errors);
    lemma_reports_partition(after.targets, after.order, after.errors);
}

/// Whatever the mode and the order of the reports, the summary counts each
/// report once; when every target has reported, the succeeded and the failed
/// together are as many as the targets.
pub proof fn lemma_summary_accounts_for_all(run: CoordinatorView)
    requires
        run.well_formed(),
    ensures
        run.summary().succeeded.len() + run.summary().failed.len() == run.order.len(),
        run.order.len() <= run.targets.len(),
        run.finished() ==> run.summary().succeeded.len() + run.summary().failed.len()
            == run.targets.len(),
        run.finished() ==> forall|i: int| 0 <= i < run.targets.len() ==> run.has_reported(i),
{
    lemma_reports_partition(run.targets, run.order, run.errors);
    lemma_distinct_indices_bounded(run.order, run.targets.len() as int);
}

/// A finished run takes no further report: the driver is told to finish
/// once, with the report that completes the run, and the deployment record
/// is therefore written once.
pub proof fn lemma_finish_is_final(run: CoordinatorView, index: int)
    requires
        run.well_formed(),
        run.finished(),
    ensures
        run.refusal(index) is Some,
        run.next_action() == Action::Finish,
{
    lemma_summary_accounts_for_all(run);
}

} // verus!
