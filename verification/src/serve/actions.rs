//! The actions of the node daemon on the services of a compose directory.
//!
//! An action is a command to run and a reading of how it ended. Running it
//! is left to the caller.

use crate::text::views;
use vstd::prelude::*;

verus! {

/// How an action ended, as the daemon answers it.
#[derive(Debug)]
pub struct ActionResult {
    pub success: bool,
    pub message: String,
}

/// A command of the container engine, run in a directory.
#[derive(Debug)]
pub struct ComposeCall {
    pub dir: String,
    pub args: Vec<String>,
    pub action: String,
}

/// The compose call of a verb on one service.
pub open spec fn is_service_call(
    call: &ComposeCall,
    dir: Seq<char>,
    verb: Seq<char>,
    service: Seq<char>,
) -> bool {
    &&& call.dir@ == dir
    &&& views(call.args@) == seq!["compose"@, verb, service]
    &&& call.action@ == verb
}

fn service_call(compose_dir: &str, verb: &str, service: &str) -> (call: ComposeCall)
    ensures
        is_service_call(&call, compose_dir@, verb@, service@),
{
    let mut args: Vec<String> = Vec::new();
    args.push("compose".to_owned());
    args.push(verb.to_owned());
    args.push(service.to_owned());
    assert(views(args@) =~= seq!["compose"@, verb@, service@]);
    ComposeCall { dir: compose_dir.to_owned(), args, action: verb.to_owned() }
}

pub fn restart_service(compose_dir: &str, service: &str) -> (call: ComposeCall)
    ensures
        is_service_call(&call, compose_dir@, "restart"@, service@),
{
    service_call(compose_dir, "restart", service)
}

pub fn stop_service(compose_dir: &str, service: &str) -> (call: ComposeCall)
    ensures
        is_service_call(&call, compose_dir@, "stop"@, service@),
{
    service_call(compose_dir, "stop", service)
}

pub fn start_service(compose_dir: &str, service: &str) -> (call: ComposeCall)
    ensures
        is_service_call(&call, compose_dir@, "start"@, service@),
{
    service_call(compose_dir, "start", service)
}

/// What is answered for a command that ended: that the action completed, or
/// that it failed and what the command wrote to its error stream.
pub open spec fn result_message(action: Seq<char>, success: bool, stderr: Seq<char>) -> Seq<char> {
    if success {
        action + " completed"@
    } else {
        action + " failed: "@ + stderr
    }
}

pub fn command_result(action: &str, success: bool, stderr: &str) -> (r: ActionResult)
    ensures
        r.success == success,
        r.message@ == result_message(action@, success, stderr@),
{
    let mut message = action.to_owned();
    if success {
        message.append(" completed");
    } else {
        message.append(" failed: ");
        message.append(stderr);
    }
    ActionResult { success, message }
}

// ---------------------------------------------------------------------------
// Deploying on the node itself
// ---------------------------------------------------------------------------

/// What a deploy on the node does next.
#[derive(Debug)]
pub enum DeployStep {
    /// Clone `repo` at `branch` into `path`.
    Clone { branch: String, repo: String, path: String },
    /// Update the repository in `dir`.
    Pull { dir: String },
    /// Build and start the services in `dir`.
    Up { dir: String },
    /// The deploy is over.
    Done(ActionResult),
}

pub enum DeployStepView {
    Clone { branch: Seq<char>, repo: Seq<char>, path: Seq<char> },
    Pull { dir: Seq<char> },
    Up { dir: Seq<char> },
    Done { success: bool, message: Seq<char> },
}

impl View for DeployStep {
    type V = DeployStepView;

    open spec fn view(&self) -> DeployStepView {
        match self {
            DeployStep::Clone { branch, repo, path } => DeployStepView::Clone {
                branch: branch@,
                repo: repo@,
                path: path@,
            },
            DeployStep::Pull { dir } => DeployStepView::Pull { dir: dir@ },
            DeployStep::Up { dir } => DeployStepView::Up { dir: dir@ },
            DeployStep::Done(r) => DeployStepView::Done { success: r.success, message: r.message@ },
        }
    }
}

/// The first step of a deploy. Where the path holds a repository it is
/// updated. Where it holds none, the repository is cloned, at the branch
/// asked for or at `main`; without a repository to clone the deploy fails.
pub open spec fn first_step(
    deploy_path: Seq<char>,
    git_repo: Option<Seq<char>>,
    branch: Option<Seq<char>>,
    has_repo: bool,
) -> DeployStepView {
    if has_repo {
        DeployStepView::Pull { dir: deploy_path }
    } else {
        match git_repo {
            Some(repo) => DeployStepView::Clone {
                branch: match branch {
                    Some(b) => b,
                    None => "main"@,
                },
                repo,
                path: deploy_path,
            },
            None => DeployStepView::Done {
                success: false,
                message: "No git repository at "@ + deploy_path + " and no repo URL provided"@,
            },
        }
    }
}

pub fn deploy_with_repo(
    deploy_path: &str,
    git_repo: Option<&str>,
    branch: Option<&str>,
    has_repo: bool,
) -> (step: DeployStep)
    ensures
        step@ == first_step(
            deploy_path@,
            match git_repo {
                Some(r) => Some(r@),
                None => None,
            },
            match branch {
                Some(b) => Some(b@),
                None => None,
            },
            has_repo,
        ),
{
    if has_repo {
        return DeployStep::Pull { dir: deploy_path.to_owned() };
    }
    match git_repo {
        Some(repo) => {
            let branch = match branch {
                Some(b) => b.to_owned(),
                None => "main".to_owned(),
            };
            DeployStep::Clone { branch, repo: repo.to_owned(), path: deploy_path.to_owned() }
        },
        None => {
            let mut message = "No git repository at ".to_owned();
            message.append(deploy_path);
            message.append(" and no repo URL provided");
            DeployStep::Done(ActionResult { success: false, message })
        },
    }
}

/// The first step of a deploy of a compose directory that names no
/// repository to clone.
pub fn deploy(compose_dir: &str, has_repo: bool) -> (step: DeployStep)
    ensures
        step@ == first_step(compose_dir@, None, None, has_repo),
{
    deploy_with_repo(compose_dir, None, None, has_repo)
}

/// The step after the repository was cloned or updated: the services are
/// built and started, unless the command failed, which ends the deploy.
pub open spec fn step_after_git(
    deploy_path: Seq<char>,
    cloned: bool,
    success: bool,
    stderr: Seq<char>,
) -> DeployStepView {
    if success {
        DeployStepView::Up { dir: deploy_path }
    } else {
        DeployStepView::Done {
            success: false,
            message: (if cloned {
                "git clone failed: "@
            } else {
                "git pull failed: "@
            }) + stderr,
        }
    }
}

pub fn after_git(deploy_path: &str, cloned: bool, success: bool, stderr: &str) -> (step: DeployStep)
    ensures
        step@ == step_after_git(deploy_path@, cloned, success, stderr@),
{
    if success {
        DeployStep::Up { dir: deploy_path.to_owned() }
    } else {
        let mut message = if cloned {
            "git clone failed: ".to_owned()
        } else {
            "git pull failed: ".to_owned()
        };
        message.append(stderr);
        DeployStep::Done(ActionResult { success: false, message })
    }
}

/// How the deploy ended, given how building and starting went.
pub open spec fn result_after_up(success: bool, stderr: Seq<char>) -> Seq<char> {
    if success {
        "Deploy completed successfully"@
    } else {
        "docker compose up failed: "@ + stderr
    }
}

pub fn after_up(success: bool, stderr: &str) -> (r: ActionResult)
    ensures
        r.success == success,
        r.message@ == result_after_up(success, stderr@),
{
    if success {
        ActionResult { success: true, message: "Deploy completed successfully".to_owned() }
    } else {
        let mut message = "docker compose up failed: ".to_owned();
        message.append(stderr);
        ActionResult { success: false, message }
    }
}

/// The answer for the deploys of several directories: success where each
/// succeeded, and the messages of all, separated by semicolons.
pub fn combined_result(results: &Vec<ActionResult>) -> (r: ActionResult)
    ensures
        r.success == (forall|i: int| 0 <= i < results@.len() ==> (#[trigger] results@[i]).success),
        r.message@ == crate::text::joined(messages_of(results@), "; "@),
{
    let mut all = true;
    let mut messages: Vec<String> = Vec::new();
    let mut i: usize = 0;
    while i < results.len()
        invariant
            i <= results.len(),
            all == (forall|j: int| 0 <= j < i ==> (#[trigger] results@[j]).success),
            messages.len() == i,
            forall|j: int| 0 <= j < i ==> messages@[j]@ == results@[j].message@,
        decreases results.len() - i,
    {
        if !results[i].success {
            all = false;
        }
        messages.push(results[i].message.clone());
        i += 1;
    }
    assert(views(messages@) =~= messages_of(results@));
    ActionResult { success: all, message: crate::text::join(&messages, "; ") }
}

pub open spec fn messages_of(results: Seq<ActionResult>) -> Seq<Seq<char>> {
    Seq::new(results.len(), |i: int| results[i].message@)
}

} // verus!
