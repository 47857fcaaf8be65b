//! The deployment pipeline: the ordered steps run against one resolved
//! target over one open remote session.
//!
//! The pipeline decides which step comes next; its driver performs the step
//! over the session and hands the outcome back with `advance`.

use crate::config::OpsToml;
use vstd::prelude::*;

verus! {

/// The steps of the pipeline, in their fixed order.
#[derive(Debug, Clone, Copy, PartialEq, Eq, Structural)]
pub enum Step {
    /// Ensure the remote deploy path exists; look at what already runs.
    Preflight,
    /// Copy environment files and auxiliary directories.
    SyncFiles,
    /// Bring the code, or pull the images.
    SyncCode,
    /// Build and start, or restart, the services.
    BuildStart,
    /// Write the routing fragments and reload the edge proxy.
    Routes,
    /// Poll the declared health checks.
    HealthChecks,
}

impl Step {
    /// The place of the step in the fixed order, from 1.
    pub open spec fn number(self) -> int {
        match self {
            Step::Preflight => 1,
            Step::SyncFiles => 2,
            Step::SyncCode => 3,
            Step::BuildStart => 4,
            Step::Routes => 5,
            Step::HealthChecks => 6,
        }
    }

    /// Whether an error in this step fails the pipeline. Health checks are
    /// informational: the service may still be warming up.
    pub open spec fn is_fatal(self) -> bool {
        self != Step::HealthChecks
    }

    pub fn ordinal(self) -> (n: u8)
        ensures
            n == self.number(),
    {
        match self {
            Step::Preflight => 1,
            Step::SyncFiles => 2,
            Step::SyncCode => 3,
            Step::BuildStart => 4,
            Step::Routes => 5,
            Step::HealthChecks => 6,
        }
    }

    pub fn fatal(self) -> (r: bool)
        ensures
            r == self.is_fatal(),
    {
        match self {
            Step::HealthChecks => false,
            _ => true,
        }
    }
}

/// The steps enabled for one run, in order. Files are always synced, also on
/// a plain restart, because image-mode startup may read them. Code is not
/// synced and routes are not touched on a plain restart. Routes and health
/// checks are skipped when none are declared.
pub open spec fn plan_of(restart_only: bool, has_routes: bool, has_checks: bool) -> Seq<Step> {
    seq![Step::Preflight, Step::SyncFiles] + (if restart_only {
        Seq::<Step>::empty()
    } else {
        seq![Step::SyncCode]
    }) + seq![Step::BuildStart] + (if !restart_only && has_routes {
        seq![Step::Routes]
    } else {
        Seq::<Step>::empty()
    }) + (if has_checks {
        seq![Step::HealthChecks]
    } else {
        Seq::<Step>::empty()
    })
}

/// Whether the steps stand in the fixed order, none twice.
pub open spec fn in_fixed_order(plan: Seq<Step>) -> bool {
    forall|i: int, j: int| 0 <= i < j < plan.len() ==> plan[i].number() < plan[j].number()
}

/// Whatever is enabled, the enabled steps stand in the fixed order.
pub proof fn lemma_plan_in_fixed_order(restart_only: bool, has_routes: bool, has_checks: bool)
    ensures
        in_fixed_order(plan_of(restart_only, has_routes, has_checks)),
        plan_of(restart_only, has_routes, has_checks).len() >= 3,
        plan_of(restart_only, has_routes, has_checks)[0] == Step::Preflight,
{
}

/// Whether a description declares routes for the application being
/// deployed: a `[[routes]]` entry, or a port on an `[[apps]]` entry that the
/// application filter lets through.
pub open spec fn declares_routes(config: &OpsToml, app_filter: Option<Seq<char>>) -> bool {
    config.routes@.len() > 0 || exists|i: int|
        0 <= i < config.apps@.len() && #[trigger] app_has_route(config.apps@[i], app_filter)
}

pub open spec fn app_has_route(app: crate::config::AppDef, app_filter: Option<Seq<char>>) -> bool {
    app.port is Some && match app_filter {
        Some(name) => app.name@ == name,
        None => true,
    }
}

pub fn has_routes(config: &OpsToml, app_filter: &Option<String>) -> (r: bool)
    ensures
        r == declares_routes(config, crate::text::opt_text(*app_filter)),
{
    if config.routes.len() > 0 {
        return true;
    }
    let mut i: usize = 0;
    while i < config.apps.len()
        invariant
            i <= config.apps.len(),
            config.routes@.len() == 0,
            forall|j: int|
                0 <= j < i ==> !#[trigger] app_has_route(
                    config.apps@[j],
                    crate::text::opt_text(*app_filter),
                ),
        decreases config.apps.len() - i,
    {
        let app = &config.apps[i];
        let passes = match app_filter {
            Some(name) => crate::text::same_text(app.name.as_str(), name.as_str()),
            None => true,
        };
        if app.port.is_some() && passes {
            assert(app_has_route(config.apps@[i as int], crate::text::opt_text(*app_filter)));
            return true;
        }
        i += 1;
    }
    false
}

/// The plan of one run.
pub fn plan(config: &OpsToml, app_filter: &Option<String>, restart_only: bool) -> (steps: Vec<Step>)
    ensures
        steps@ == plan_of(
            restart_only,
            declares_routes(config, crate::text::opt_text(*app_filter)),
            config.healthchecks@.len() > 0,
        ),
{
    let mut steps: Vec<Step> = Vec::new();
    steps.push(Step::Preflight);
    steps.push(Step::SyncFiles);
    if !restart_only {
        steps.push(Step::SyncCode);
    }
    steps.push(Step::BuildStart);
    if !restart_only && has_routes(config, app_filter) {
        steps.push(Step::Routes);
    }
    if config.healthchecks.len() > 0 {
        steps.push(Step::HealthChecks);
    }
    assert(steps@ =~= plan_of(
        restart_only,
        declares_routes(config, crate::text::opt_text(*app_filter)),
        config.healthchecks@.len() > 0,
    ));
    steps
}

// ---------------------------------------------------------------------------
// Running a plan
// ---------------------------------------------------------------------------

/// The error of a pipeline: the step that failed, and on what.
#[derive(Debug)]
pub struct PipelineError {
    pub step: Step,
    pub message: String,
}

pub struct PipelineErrorView {
    pub step: Step,
    pub message: Seq<char>,
}

impl View for PipelineError {
    type V = PipelineErrorView;

    open spec fn view(&self) -> PipelineErrorView {
        PipelineErrorView { step: self.step, message: self.message@ }
    }
}

/// What the driver does next.
#[derive(Debug, Clone, Copy, PartialEq, Eq, Structural)]
pub enum Next {
    /// Perform this step and report its outcome.
    Run(Step),
    /// The pipeline is over; `succeeded` is its result.
    Done { succeeded: bool },
}

/// One run of a plan: the steps performed so far and the error that ended
/// it, if one did.
#[derive(Debug)]
pub struct Pipeline {
    pub plan: Vec<Step>,
    pub performed: usize,
    pub failure: Option<PipelineError>,
    pub warnings: usize,
}

pub struct PipelineView {
    pub plan: Seq<Step>,
    pub performed: nat,
    pub failure: Option<PipelineErrorView>,
    pub warnings: nat,
}

impl View for Pipeline {
    type V = PipelineView;

    open spec fn view(&self) -> PipelineView {
        PipelineView {
            plan: self.plan@,
            performed: self.performed as nat,
            failure: match self.failure {
                Some(e) => Some(e@),
                None => None,
            },
            warnings: self.warnings as nat,
        }
    }
}

impl PipelineView {
    pub open spec fn well_formed(self) -> bool {
        &&& self.performed <= self.plan.len()
        &&& self.warnings <= self.performed
        &&& self.failure matches Some(e) ==> self.performed > 0 && e.step == self.plan[
            self.performed - 1] && e.step.is_fatal()
    }

    /// The steps performed so far: always a prefix of the plan.
    pub open spec fn steps_performed(self) -> Seq<Step> {
        self.plan.take(self.performed as int)
    }

    /// The step the driver is to perform, if the run is not over.
    pub open spec fn current(self) -> Option<Step> {
        if self.failure is None && self.performed < self.plan.len() {
            Some(self.plan[self.performed as int])
        } else {
            None
        }
    }

    pub open spec fn next(self) -> Next {
        match self.current() {
            Some(step) => Next::Run(step),
            None => Next::Done { succeeded: self.failure is None },
        }
    }

    /// The run after the current step reported `outcome` (`None` for
    /// success). An error in a fatal step ends the run with that error; an
    /// error in the health checks is counted and the run goes on. A report
    /// after the end changes nothing.
    pub open spec fn advance(self, outcome: Option<Seq<char>>) -> PipelineView {
        match self.current() {
            None => self,
            Some(step) => match outcome {
                None => PipelineView { performed: self.performed + 1, ..self },
                Some(message) => if step.is_fatal() {
                    PipelineView {
                        performed: self.performed + 1,
                        failure: Some(PipelineErrorView { step, message }),
                        ..self
                    }
                } else {
                    PipelineView {
                        performed: self.performed + 1,
                        warnings: self.warnings + 1,
                        ..self
                    }
                },
            },
        }
    }
}

impl Pipeline {
    /// A run of `plan` in which no step has been performed.
    pub fn new(plan: Vec<Step>) -> (p: Pipeline)
        ensures
            p@.well_formed(),
            p@ == (PipelineView { plan: plan@, performed: 0, failure: None, warnings: 0 }),
    {
        Pipeline { plan, performed: 0, failure: None, warnings: 0 }
    }

    /// Checks the invariant of a run, for a state that was put together
    /// outside this module.
    pub fn validate(&self) -> (ok: bool)
        ensures
            ok == self@.well_formed(),
    {
        if self.performed > self.plan.len() || self.warnings > self.performed {
            return false;
        }
        match &self.failure {
            Some(e) => {
                if self.performed == 0 {
                    return false;
                }
                let last = self.plan[self.performed - 1];
                e.step.ordinal() == last.ordinal() && e.step.fatal()
            },
            None => true,
        }
    }

    /// What the driver does next.
    pub fn next(&self) -> (n: Next)
        requires
            self@.well_formed(),
        ensures
            n == self@.next(),
    {
        if self.failure.is_none() && self.performed < self.plan.len() {
            Next::Run(self.plan[self.performed])
        } else {
            Next::Done { succeeded: self.failure.is_none() }
        }
    }

    /// Takes the outcome of the current step and says what comes next.
    pub fn advance(&mut self, outcome: Option<String>) -> (n: Next)
        requires
            old(self)@.well_formed(),
        ensures
            final(self)@.well_formed(),
            final(self)@ == old(self)@.advance(crate::text::opt_text(outcome)),
            n == final(self)@.next(),
    {
        if self.failure.is_none() && self.performed < self.plan.len() {
            let step = self.plan[self.performed];
            self.performed = self.performed + 1;
            match outcome {
                None => {},
                Some(message) => {
                    if step.fatal() {
                        self.failure = Some(PipelineError { step, message });
                    } else {
                        self.warnings = self.warnings + 1;
                    }
                },
            }
        }
        self.next()
    }

    /// The result of a run that is over.
    pub fn result(self) -> (r: Result<(), PipelineError>)
        ensures
            match self@.failure {
                Some(e) => r matches Err(err) && err@ == e,
                None => r is Ok,
            },
    {
        match self.failure {
            Some(e) => Err(e),
            None => Ok(()),
        }
    }
}

// ---------------------------------------------------------------------------
// Laws
// ---------------------------------------------------------------------------

/// The position of the first step of the plan that is fatal and fails under
/// `outcomes`, where `outcomes[k]` is what step `k` reports if it is
/// performed; `plan.len()` when there is none.
pub open spec fn first_fatal_failure(plan: Seq<Step>, outcomes: Seq<Option<Seq<char>>>) -> int
    decreases plan.len(),
{
    if plan.len() == 0 || outcomes.len() == 0 {
        0
    } else if plan[0].is_fatal() && outcomes[0] is Some {
        0
    } else {
        1 + first_fatal_failure(plan.skip(1), outcomes.skip(1))
    }
}

/// The run of `plan` after the driver reported the first `count` of
/// `outcomes`.
pub open spec fn after_outcomes(
    plan: Seq<Step>,
    outcomes: Seq<Option<Seq<char>>>,
    count: nat,
) -> PipelineView
    decreases count,
{
    if count == 0 {
        PipelineView { plan, performed: 0, failure: None, warnings: 0 }
    } else {
        let before = after_outcomes(plan, outcomes, (count - 1) as nat);
        if before.current() is Some {
            before.advance(outcomes[before.performed as int])
        } else {
            before
        }
    }
}

pub proof fn lemma_first_fatal_failure(plan: Seq<Step>, outcomes: Seq<Option<Seq<char>>>)
    requires
        outcomes.len() == plan.len(),
    ensures
        0 <= first_fatal_failure(plan, outcomes) <= plan.len(),
        forall|k: int|
            0 <= k < first_fatal_failure(plan, outcomes) ==> !(plan[k].is_fatal()
                && outcomes[k] is Some),
        first_fatal_failure(plan, outcomes) < plan.len() ==> plan[first_fatal_failure(
            plan,
            outcomes,
        )].is_fatal() && outcomes[first_fatal_failure(plan, outcomes)] is Some,
    decreases plan.len(),
{
    if plan.len() > 0 && !(plan[0].is_fatal() && outcomes[0] is Some) {
        let p = plan.skip(1);
        let o = outcomes.skip(1);
        lemma_first_fatal_failure(p, o);
        let f = first_fatal_failure(p, o);
        assert forall|k: int| 0 <= k < f + 1 implies !(plan[k].is_fatal() && outcomes[k] is Some) by {
            if k > 0 {
                assert(p[k - 1] == plan[k] && o[k - 1] == outcomes[k]);
            }
        }
        if f < p.len() {
            assert(p[f] == plan[f + 1] && o[f] == outcomes[f + 1]);
        }
    }
}

/// The steps of a plan are performed in plan order, which is the fixed
/// order. A failure of a fatal step is the last step performed: no later step
/// runs, and the pipeline fails with that step's error. Where no fatal step
/// fails, every step of the plan is performed and the pipeline succeeds,
/// whatever the health checks report.
pub proof fn lemma_pipeline_run(plan: Seq<Step>, outcomes: Seq<Option<Seq<char>>>, count: nat)
    requires
        outcomes.len() == plan.len(),
    ensures
        ({
            let run = after_outcomes(plan, outcomes, count);
            let stop = first_fatal_failure(plan, outcomes);
            &&& run.well_formed()
            &&& run.plan == plan
            &&& run.steps_performed() == plan.take(run.performed as int)
            &&& run.performed == (if count <= stop {
                count as int
            } else if stop < plan.len() {
                stop + 1
            } else {
                plan.len() as int
            })
            &&& run.failure is Some <==> stop < count && stop < plan.len()
            &&& run.failure matches Some(e) ==> e.step == plan[stop] && outcomes[stop] == Some(
                e.message,
            )
            &&& count >= plan.len() ==> run.next() == (Next::Done { succeeded: stop == plan.len() })
        }),
    decreases count,
{
    lemma_first_fatal_failure(plan, outcomes);
    if count > 0 {
        lemma_pipeline_run(plan, outcomes, (count - 1) as nat);
    }
}

} // verus!
