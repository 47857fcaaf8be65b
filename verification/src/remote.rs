//! The command lines that the pipeline sends over a remote session, and the
//! reading of what comes back.
//!
//! A remote session runs a command and returns its output; nothing here
//! opens one. Every function is a pure map from the description and the
//! options of the run to the text of a command.

use crate::config::{AppDef, ConfigError, OpsToml};
use crate::text::{
    decimal, format_decimal, from_chars_range, join, joined, lines, lines_of, opt_text, owned,
    replace_char, replaced, same_text, to_chars, trim, trimmed, views,
};
use vstd::prelude::*;

verus! {

// ---------------------------------------------------------------------------
// Arguments shared by the compose commands
// ---------------------------------------------------------------------------

/// Each compose file as a `-f` argument.
pub open spec fn file_flags(files: Seq<Seq<char>>) -> Seq<Seq<char>> {
    Seq::new(files.len(), |i: int| "-f "@ + files[i])
}

/// The `-f` arguments of the compose files of a description, separated by
/// spaces; empty where none are configured.
pub open spec fn compose_args_of(config: &OpsToml) -> Seq<char> {
    match config.deploy.compose_files {
        Some(files) => joined(file_flags(views(files@)), " "@),
        None => Seq::empty(),
    }
}

pub fn compose_file_args(config: &OpsToml) -> (args: String)
    ensures
        args@ == compose_args_of(config),
{
    match &config.deploy.compose_files {
        Some(files) => {
            let mut flags: Vec<String> = Vec::new();
            let mut i: usize = 0;
            while i < files.len()
                invariant
                    i <= files.len(),
                    views(flags@) == file_flags(views(files@)).take(i as int),
                decreases files.len() - i,
            {
                let mut flag = "-f ".to_owned();
                flag.append(files[i].as_str());
                let ghost before = views(flags@);
                flags.push(flag);
                assert(views(flags@) =~= before.push("-f "@ + files@[i as int]@));
                assert(views(flags@) =~= file_flags(views(files@)).take(i + 1));
                i += 1;
            }
            assert(file_flags(views(files@)).take(files.len() as int) =~= file_flags(
                views(files@),
            ));
            join(&flags, " ")
        },
        None => String::new(),
    }
}

/// The environment assignments put in front of a command: each followed by
/// a space; empty where there are none.
pub open spec fn env_prefix_of(env_vars: Seq<Seq<char>>) -> Seq<char> {
    if env_vars.len() == 0 {
        Seq::empty()
    } else {
        joined(env_vars, " "@) + " "@
    }
}

pub fn env_prefix(env_vars: &Vec<String>) -> (prefix: String)
    ensures
        prefix@ == env_prefix_of(views(env_vars@)),
{
    if env_vars.len() == 0 {
        return String::new();
    }
    let mut prefix = join(env_vars, " ");
    prefix.append(" ");
    prefix
}

/// The position of the first application named `name`, or `apps.len()`.
pub open spec fn app_position(apps: Seq<AppDef>, name: Seq<char>) -> int
    decreases apps.len(),
{
    if apps.len() == 0 {
        0
    } else if apps[0].name@ == name {
        0
    } else {
        1 + app_position(apps.skip(1), name)
    }
}

/// Finds the first application named `name`.
pub fn find_app(apps: &Vec<AppDef>, name: &str) -> (i: usize)
    ensures
        i == app_position(apps@, name@),
        i <= apps.len(),
        i < apps.len() ==> apps@[i as int].name@ == name@,
{
    let mut i: usize = 0;
    assert(apps@.skip(0) =~= apps@);
    while i < apps.len() && !same_text(apps[i].name.as_str(), name)
        invariant
            i <= apps.len(),
            app_position(apps@, name@) == i + app_position(apps@.skip(i as int), name@),
        decreases apps.len() - i,
    {
        proof {
            let t = apps@.skip(i as int);
            assert(t[0] == apps@[i as int]);
            assert(t.skip(1) =~= apps@.skip(i + 1));
        }
        i += 1;
    }
    proof {
        let t = apps@.skip(i as int);
        if i < apps.len() {
            assert(t[0] == apps@[i as int]);
        }
    }
    i
}

/// The services a run addresses, separated by spaces: the one service asked
/// for; else the services of the application asked for, when the description
/// knows it; else none, which stands for all.
pub open spec fn services_of(
    config: &OpsToml,
    app: Option<Seq<char>>,
    service: Option<Seq<char>>,
) -> Seq<char> {
    match service {
        Some(svc) => svc,
        None => match app {
            Some(name) => {
                let i = app_position(config.apps@, name);
                if i < config.apps@.len() {
                    joined(views(config.apps@[i].services@), " "@)
                } else {
                    Seq::empty()
                }
            },
            None => Seq::empty(),
        },
    }
}

pub fn resolve_services(config: &OpsToml, app: &Option<String>, service: &Option<String>) -> (svcs:
    String)
    ensures
        svcs@ == services_of(config, opt_text(*app), opt_text(*service)),
{
    match service {
        Some(svc) => svc.clone(),
        None => match app {
            Some(name) => {
                let i = find_app(&config.apps, name.as_str());
                if i < config.apps.len() {
                    join(&config.apps[i].services, " ")
                } else {
                    String::new()
                }
            },
            None => String::new(),
        },
    }
}

/// `s` with a space in front, or nothing where `s` is empty.
pub open spec fn spaced(s: Seq<char>) -> Seq<char> {
    if s.len() == 0 {
        s
    } else {
        " "@ + s
    }
}

fn with_space(s: &str) -> (r: String)
    ensures
        r@ == spaced(s@),
{
    let mut r = String::new();
    if s.unicode_len() > 0 {
        r.append(" ");
        r.append(s);
    }
    assert(r@ =~= spaced(s@));
    r
}

// ---------------------------------------------------------------------------
// Step 1: pre-flight
// ---------------------------------------------------------------------------

/// Creates the deploy path if it is not there.
pub open spec fn mkdir_of(deploy_path: Seq<char>) -> Seq<char> {
    "mkdir -p "@ + deploy_path
}

pub fn mkdir_command(deploy_path: &str) -> (cmd: String)
    ensures
        cmd@ == mkdir_of(deploy_path@),
{
    let mut cmd = "mkdir -p ".to_owned();
    cmd.append(deploy_path);
    cmd
}

/// `cd <path> && <env>docker compose<files>`: the start of every compose
/// command of a run.
pub open spec fn compose_base(config: &OpsToml, env_vars: Seq<Seq<char>>) -> Seq<char> {
    "cd "@ + config.deploy_path@ + " && "@ + env_prefix_of(env_vars) + "docker compose"@ + spaced(
        compose_args_of(config),
    )
}

fn compose_command(config: &OpsToml, env_vars: &Vec<String>) -> (cmd: String)
    ensures
        cmd@ == compose_base(config, views(env_vars@)),
{
    let mut cmd = "cd ".to_owned();
    cmd.append(config.deploy_path.as_str());
    cmd.append(" && ");
    cmd.append(env_prefix(env_vars).as_str());
    cmd.append("docker compose");
    cmd.append(with_space(compose_file_args(config).as_str()).as_str());
    cmd
}

/// Lists the services that the compose files declare.
pub open spec fn list_services_of(config: &OpsToml, env_vars: Seq<Seq<char>>) -> Seq<char> {
    compose_base(config, env_vars) + " config --services 2>/dev/null"@
}

pub fn list_services_command(config: &OpsToml, env_vars: &Vec<String>) -> (cmd: String)
    ensures
        cmd@ == list_services_of(config, views(env_vars@)),
{
    let mut cmd = compose_command(config, env_vars);
    cmd.append(" config --services 2>/dev/null");
    cmd
}

/// Lists every container on the node, running or not, under a header line.
pub fn list_containers_command() -> (cmd: &'static str)
    ensures
        cmd@ == "docker ps -a --format 'table {{.Names}}\t{{.Status}}\t{{.Image}}' 2>/dev/null"@,
{
    "docker ps -a --format 'table {{.Names}}\t{{.Status}}\t{{.Image}}' 2>/dev/null"
}

/// Stops and removes what the compose files started; never fails.
pub open spec fn clean_of(config: &OpsToml, env_vars: Seq<Seq<char>>) -> Seq<char> {
    compose_base(config, env_vars) + " down --remove-orphans 2>/dev/null; true"@
}

pub fn clean_command(config: &OpsToml, env_vars: &Vec<String>) -> (cmd: String)
    ensures
        cmd@ == clean_of(config, views(env_vars@)),
{
    let mut cmd = compose_command(config, env_vars);
    cmd.append(" down --remove-orphans 2>/dev/null; true");
    cmd
}

/// The services that a service listing names: the lines of the listing
/// without the white space around it.
pub fn listed_services(output: &str) -> (services: Vec<String>)
    ensures
        views(services@) == lines_of(trimmed(output@)),
{
    lines(trim(output).as_str())
}

/// Whether a service belongs to one of the applications.
pub open spec fn is_grouped(apps: Seq<AppDef>, service: Seq<char>) -> bool {
    exists|i: int, j: int|
        0 <= i < apps.len() && 0 <= j < apps[i].services@.len() && #[trigger] apps[i].services@[j]@
            == service
}

pub fn grouped(apps: &Vec<AppDef>, service: &str) -> (r: bool)
    ensures
        r == is_grouped(apps@, service@),
{
    let mut i: usize = 0;
    while i < apps.len()
        invariant
            i <= apps.len(),
            forall|a: int, b: int|
                0 <= a < i && 0 <= b < apps@[a].services@.len() ==> #[trigger] apps@[a].services@[b]@
                    != service@,
        decreases apps.len() - i,
    {
        let services = &apps[i].services;
        let mut j: usize = 0;
        while j < services.len()
            invariant
                i < apps.len(),
                j <= services.len(),
                services@ == apps@[i as int].services@,
                forall|b: int| 0 <= b < j ==> #[trigger] apps@[i as int].services@[b]@ != service@,
            decreases services.len() - j,
        {
            if same_text(services[j].as_str(), service) {
                assert(apps@[i as int].services@[j as int]@ == service@);
                return true;
            }
            j += 1;
        }
        i += 1;
    }
    false
}

/// The services that belong to no application, in order.
pub open spec fn ungrouped_of(services: Seq<Seq<char>>, apps: Seq<AppDef>) -> Seq<Seq<char>>
    decreases services.len(),
{
    if services.len() == 0 {
        Seq::empty()
    } else {
        let before = ungrouped_of(services.drop_last(), apps);
        if is_grouped(apps, services.last()) {
            before
        } else {
            before.push(services.last())
        }
    }
}

pub fn ungrouped_services(services: &Vec<String>, apps: &Vec<AppDef>) -> (rest: Vec<String>)
    ensures
        views(rest@) == ungrouped_of(views(services@), apps@),
{
    let mut rest: Vec<String> = Vec::new();
    let mut i: usize = 0;
    while i < services.len()
        invariant
            i <= services.len(),
            views(rest@) == ungrouped_of(views(services@).take(i as int), apps@),
        decreases services.len() - i,
    {
        proof {
            let t = views(services@).take(i + 1);
            assert(t.drop_last() =~= views(services@).take(i as int));
            assert(t.last() == services@[i as int]@);
        }
        if !grouped(apps, services[i].as_str()) {
            let ghost before = views(rest@);
            rest.push(services[i].clone());
            assert(views(rest@) =~= before.push(services@[i as int]@));
        }
        i += 1;
    }
    assert(views(services@).take(services.len() as int) =~= views(services@));
    rest
}

/// Whether pre-flight looks at what runs on a node: on the first target of
/// a run only, where the operator can be asked once for all targets, and
/// never on a plain restart, which leaves what runs as it is.
pub fn inspects_containers(restart_only: bool, first_target: bool) -> (r: bool)
    ensures
        r == (first_target && !restart_only),
{
    first_target && !restart_only
}

/// What pre-flight does about the containers it finds.
#[derive(Debug, Clone, Copy, PartialEq, Eq, Structural)]
pub enum Preflight {
    /// Go on with the deploy.
    Proceed,
    /// Remove the old containers, then go on.
    Clean,
    /// Ask the operator.
    Ask,
}

/// Whether a container listing shows a container: more than its header
/// line.
pub open spec fn shows_containers(listing: Seq<char>) -> bool {
    lines_of(trimmed(listing)).len() > 1
}

/// Without containers there is nothing to decide. With containers, `force`
/// cleans without asking; otherwise the operator is asked.
pub open spec fn preflight_of(listing: Seq<char>, force: bool) -> Preflight {
    if !shows_containers(listing) {
        Preflight::Proceed
    } else if force {
        Preflight::Clean
    } else {
        Preflight::Ask
    }
}

pub fn preflight(listing: &str, force: bool) -> (p: Preflight)
    ensures
        p == preflight_of(listing@, force),
{
    let shown = lines(trim(listing).as_str());
    if shown.len() <= 1 {
        Preflight::Proceed
    } else if force {
        Preflight::Clean
    } else {
        Preflight::Ask
    }
}

/// What the operator chose.
#[derive(Debug, Clone, Copy, PartialEq, Eq, Structural)]
pub enum Decision {
    Proceed,
    CleanThenProceed,
    Abort,
}

/// The three answers, in the order in which they are offered. A run that is
/// not interactive takes the first.
pub open spec fn decision_of(choice: nat) -> Decision {
    if choice == 1 {
        Decision::CleanThenProceed
    } else if choice == 2 {
        Decision::Abort
    } else {
        Decision::Proceed
    }
}

pub fn decide(choice: usize) -> (d: Decision)
    ensures
        d == decision_of(choice as nat),
{
    if choice == 1 {
        Decision::CleanThenProceed
    } else if choice == 2 {
        Decision::Abort
    } else {
        Decision::Proceed
    }
}

// ---------------------------------------------------------------------------
// Step 2: files
// ---------------------------------------------------------------------------

/// Where a mapped file lands on the node.
pub open spec fn remote_path_of(deploy_path: Seq<char>, remote: Seq<char>) -> Seq<char> {
    deploy_path + "/"@ + remote
}

pub fn remote_path(deploy_path: &str, remote: &str) -> (path: String)
    ensures
        path@ == remote_path_of(deploy_path@, remote@),
{
    let mut path = deploy_path.to_owned();
    path.append("/");
    path.append(remote);
    path
}

/// Writes what it reads on its input to a remote file.
pub open spec fn write_file_of(path: Seq<char>) -> Seq<char> {
    "cat > "@ + path
}

pub fn write_file_command(path: &str) -> (cmd: String)
    ensures
        cmd@ == write_file_of(path@),
{
    let mut cmd = "cat > ".to_owned();
    cmd.append(path);
    cmd
}

/// Where a mapped directory is copied to: host, deploy path and mapping.
pub open spec fn copy_destination_of(host: Seq<char>, deploy_path: Seq<char>, remote: Seq<char>) -> Seq<
    char,
> {
    host + ":"@ + deploy_path + "/"@ + remote
}

pub fn copy_destination(host: &str, deploy_path: &str, remote: &str) -> (dest: String)
    ensures
        dest@ == copy_destination_of(host@, deploy_path@, remote@),
{
    let mut dest = host.to_owned();
    dest.append(":");
    dest.append(deploy_path);
    dest.append("/");
    dest.append(remote);
    dest
}

// ---------------------------------------------------------------------------
// Step 3: code or images
// ---------------------------------------------------------------------------

/// The branch a git deploy follows: the configured one, `main` otherwise.
pub open spec fn branch_of(config: &OpsToml) -> Seq<char> {
    match config.deploy.branch {
        Some(branch) => branch@,
        None => "main"@,
    }
}

pub fn deploy_branch(config: &OpsToml) -> (branch: String)
    ensures
        branch@ == branch_of(config),
{
    match &config.deploy.branch {
        Some(branch) => branch.clone(),
        None => "main".to_owned(),
    }
}

/// Prints `exists` where the deploy path holds a repository, `missing`
/// where not.
pub open spec fn repo_check_of(deploy_path: Seq<char>) -> Seq<char> {
    "test -d "@ + deploy_path + "/.git && echo 'exists' || echo 'missing'"@
}

pub fn repo_check_command(deploy_path: &str) -> (cmd: String)
    ensures
        cmd@ == repo_check_of(deploy_path@),
{
    let mut cmd = "test -d ".to_owned();
    cmd.append(deploy_path);
    cmd.append("/.git && echo 'exists' || echo 'missing'");
    cmd
}

/// Whether the answer to the repository check says that one is there.
pub fn repo_exists(answer: &str) -> (r: bool)
    ensures
        r == (trimmed(answer@) == "exists"@),
{
    same_text(trim(answer).as_str(), "exists")
}

/// Updates a repository that is there.
pub open spec fn git_pull_of(config: &OpsToml) -> Seq<char> {
    "cd "@ + config.deploy_path@ + " && git pull origin "@ + branch_of(config)
}

/// Clones the repository on first deploy.
pub open spec fn git_clone_of(config: &OpsToml, repo: Seq<char>) -> Seq<char> {
    "GIT_SSH_COMMAND='ssh -o StrictHostKeyChecking=no' git clone -b "@ + branch_of(config) + " "@
        + repo + " "@ + config.deploy_path@
}

/// The command that brings the code of a git deploy: a pull where the
/// repository exists on the node, a clone where not. A description without a
/// `[deploy.git]` section cannot be deployed from git.
pub fn git_sync_command(config: &OpsToml, exists: bool) -> (r: Result<String, ConfigError>)
    ensures
        match config.deploy.git {
            Some(git) => r matches Ok(cmd) && cmd@ == (if exists {
                git_pull_of(config)
            } else {
                git_clone_of(config, git.repo@)
            }),
            None => r == Err::<String, ConfigError>(ConfigError::MissingGitSection),
        },
{
    match &config.deploy.git {
        None => Err(ConfigError::MissingGitSection),
        Some(git) => {
            let branch = deploy_branch(config);
            if exists {
                let mut cmd = "cd ".to_owned();
                cmd.append(config.deploy_path.as_str());
                cmd.append(" && git pull origin ");
                cmd.append(branch.as_str());
                Ok(cmd)
            } else {
                let mut cmd = "GIT_SSH_COMMAND='ssh -o StrictHostKeyChecking=no' git clone -b ".to_owned();
                cmd.append(branch.as_str());
                cmd.append(" ");
                cmd.append(git.repo.as_str());
                cmd.append(" ");
                cmd.append(config.deploy_path.as_str());
                Ok(cmd)
            }
        },
    }
}

/// Logs the node's container engine in to a registry.
pub open spec fn registry_login_of(token: Seq<char>, url: Seq<char>, user: Seq<char>) -> Seq<char> {
    "echo '"@ + token + "' | docker login "@ + url + " -u "@ + user + " --password-stdin"@
}

pub fn registry_login_command(token: &str, url: &str, user: &str) -> (cmd: String)
    ensures
        cmd@ == registry_login_of(token@, url@, user@),
{
    let mut cmd = "echo '".to_owned();
    cmd.append(token);
    cmd.append("' | docker login ");
    cmd.append(url);
    cmd.append(" -u ");
    cmd.append(user);
    cmd.append(" --password-stdin");
    cmd
}

/// Pulls the images of the services of a run.
pub open spec fn image_pull_of(
    config: &OpsToml,
    app: Option<Seq<char>>,
    service: Option<Seq<char>>,
    env_vars: Seq<Seq<char>>,
) -> Seq<char> {
    "cd "@ + config.deploy_path@ + " && "@ + env_prefix_of(env_vars) + "docker compose "@
        + compose_args_of(config) + " pull "@ + services_of(config, app, service)
}

pub fn image_pull_command(
    config: &OpsToml,
    app: &Option<String>,
    service: &Option<String>,
    env_vars: &Vec<String>,
) -> (cmd: String)
    ensures
        cmd@ == image_pull_of(config, opt_text(*app), opt_text(*service), views(env_vars@)),
{
    let mut cmd = "cd ".to_owned();
    cmd.append(config.deploy_path.as_str());
    cmd.append(" && ");
    cmd.append(env_prefix(env_vars).as_str());
    cmd.append("docker compose ");
    cmd.append(compose_file_args(config).as_str());
    cmd.append(" pull ");
    cmd.append(resolve_services(config, app, service).as_str());
    cmd
}

/// What tilde expansion may turn `path` into. A path that does not begin
/// with a tilde, or in which the tilde is followed by anything but a
/// separator, stays as it is. Any other path stays as it is where no home
/// directory is known, and has the home directory put in place of the tilde
/// where one is.
pub open spec fn expands_to(path: Seq<char>, expanded: Seq<char>) -> bool {
    if path.len() == 0 || path[0] != '~' {
        expanded == path
    } else if path.len() > 1 && path[1] != '/' && path[1] != '\\' {
        expanded == path
    } else {
        expanded == path || exists|home: Seq<char>| expanded == home + path.skip(1)
    }
}

/// `shellexpand::tilde` replaces a leading `~` that stands alone or before a
/// path separator by the home directory of the current user, and returns
/// every other input unchanged. Which directory that is depends on the
/// machine, so the contract only says what holds of every outcome.
#[verifier::external_body]
fn expand_tilde(path: &str) -> (expanded: String)
    ensures
        expands_to(path@, expanded@),
{
    shellexpand::tilde(path).to_string()
}

/// The local deploy key to provision before a first clone: the configured
/// key path with its tilde expanded. No key is provisioned where the
/// repository exists on the node already, nor where none is configured.
pub fn deploy_key_path(config: &OpsToml, repo_exists: bool) -> (key: Option<String>)
    ensures
        match config.deploy.git {
            Some(git) => match git.ssh_key {
                Some(path) => if repo_exists {
                    key is None
                } else {
                    key matches Some(expanded) && expands_to(path@, expanded@)
                },
                None => key is None,
            },
            None => key is None,
        },
{
    if repo_exists {
        return None;
    }
    match &config.deploy.git {
        Some(git) => match &git.ssh_key {
            Some(path) => Some(expand_tilde(path.as_str())),
            None => None,
        },
        None => None,
    }
}

/// Where the deploy key of a project is kept on a node: a directory per
/// project, so that the keys of two projects never meet.
pub open spec fn key_dir_of(project: Seq<char>) -> Seq<char> {
    "~/.ssh/"@ + project
}

pub open spec fn key_path_of(project: Seq<char>, file_name: Seq<char>) -> Seq<char> {
    key_dir_of(project) + "/"@ + file_name
}

pub fn remote_key_path(project: &str, file_name: &str) -> (path: String)
    ensures
        path@ == key_path_of(project@, file_name@),
{
    let mut path = "~/.ssh/".to_owned();
    path.append(project);
    path.append("/");
    path.append(file_name);
    path
}

/// Stores the key it reads on its input, readable by its owner only.
pub open spec fn store_key_of(project: Seq<char>, file_name: Seq<char>) -> Seq<char> {
    "mkdir -p "@ + key_dir_of(project) + " && cat > "@ + key_path_of(project, file_name)
        + " && chmod 600 "@ + key_path_of(project, file_name)
}

pub fn store_key_command(project: &str, file_name: &str) -> (cmd: String)
    ensures
        cmd@ == store_key_of(project@, file_name@),
{
    let path = remote_key_path(project, file_name);
    let mut cmd = "mkdir -p ~/.ssh/".to_owned();
    cmd.append(project);
    cmd.append(" && cat > ");
    cmd.append(path.as_str());
    cmd.append(" && chmod 600 ");
    cmd.append(path.as_str());
    proof {
        reveal_strlit("mkdir -p ~/.ssh/");
        reveal_strlit("mkdir -p ");
        reveal_strlit("~/.ssh/");
        assert("mkdir -p ~/.ssh/"@ =~= "mkdir -p "@ + "~/.ssh/"@);
        assert(cmd@ =~= store_key_of(project@, file_name@));
    }
    cmd
}

/// Makes the node use the stored key for the code host, unless it does so
/// already.
pub open spec fn use_key_of(key_path: Seq<char>) -> Seq<char> {
    "grep -q '"@ + key_path
        + "' ~/.ssh/config 2>/dev/null || cat >> ~/.ssh/config << 'SSHEOF'\nHost github.com\n  Hostname ssh.github.com\n  Port 443\n  User git\n  IdentityFile "@
        + key_path
        + "\n  IdentitiesOnly yes\n  StrictHostKeyChecking no\nSSHEOF\nchmod 600 ~/.ssh/config"@
}

pub fn use_key_command(key_path: &str) -> (cmd: String)
    ensures
        cmd@ == use_key_of(key_path@),
{
    let mut cmd = "grep -q '".to_owned();
    cmd.append(key_path);
    cmd.append(
        "' ~/.ssh/config 2>/dev/null || cat >> ~/.ssh/config << 'SSHEOF'\nHost github.com\n  Hostname ssh.github.com\n  Port 443\n  User git\n  IdentityFile ",
    );
    cmd.append(key_path);
    cmd.append("\n  IdentitiesOnly yes\n  StrictHostKeyChecking no\nSSHEOF\nchmod 600 ~/.ssh/config");
    cmd
}

// ---------------------------------------------------------------------------
// Step 4: build and start
// ---------------------------------------------------------------------------

/// The command that starts the services of a run. A plain restart restarts
/// what runs. An image deploy starts without building. Any other deploy
/// builds, then starts.
pub open spec fn start_of(
    config: &OpsToml,
    service: Option<Seq<char>>,
    app: Option<Seq<char>>,
    restart_only: bool,
    env_vars: Seq<Seq<char>>,
) -> Seq<char> {
    let base = compose_base(config, env_vars);
    let svcs = spaced(services_of(config, app, service));
    if restart_only {
        base + " restart"@ + svcs
    } else if config.deploy.source@ == "image"@ {
        base + " up -d --remove-orphans"@ + svcs
    } else {
        base + " build"@ + svcs + " && "@ + env_prefix_of(env_vars) + "docker compose"@ + spaced(
            compose_args_of(config),
        ) + " up -d --remove-orphans"@ + svcs
    }
}

pub fn start_command(
    config: &OpsToml,
    service: &Option<String>,
    app: &Option<String>,
    restart_only: bool,
    env_vars: &Vec<String>,
) -> (cmd: String)
    ensures
        cmd@ == start_of(config, opt_text(*service), opt_text(*app), restart_only, views(env_vars@)),
{
    let svcs = with_space(resolve_services(config, app, service).as_str());
    let mut cmd = compose_command(config, env_vars);
    if restart_only {
        cmd.append(" restart");
        cmd.append(svcs.as_str());
    } else if same_text(config.deploy.source.as_str(), "image") {
        cmd.append(" up -d --remove-orphans");
        cmd.append(svcs.as_str());
    } else {
        cmd.append(" build");
        cmd.append(svcs.as_str());
        cmd.append(" && ");
        cmd.append(env_prefix(env_vars).as_str());
        cmd.append("docker compose");
        cmd.append(with_space(compose_file_args(config).as_str()).as_str());
        cmd.append(" up -d --remove-orphans");
        cmd.append(svcs.as_str());
    }
    cmd
}

/// Whether old images are pruned after start: after an image deploy that is
/// no plain restart. A failure of the pruning is ignored.
pub fn prunes_images(config: &OpsToml, restart_only: bool) -> (r: bool)
    ensures
        r == (!restart_only && config.deploy.source@ == "image"@),
{
    !restart_only && same_text(config.deploy.source.as_str(), "image")
}

/// Removes images that no container uses.
pub fn prune_command() -> (cmd: &'static str)
    ensures
        cmd@ == "docker image prune -f"@,
{
    "docker image prune -f"
}

// ---------------------------------------------------------------------------
// Step 5: routes
// ---------------------------------------------------------------------------

/// A routing fragment: the file it is written to, what the file holds, and
/// what the operator is shown.
#[derive(Debug)]
pub struct RouteFile {
    pub name: String,
    pub content: String,
    pub label: String,
    pub port: u16,
}

pub struct RouteFileView {
    pub name: Seq<char>,
    pub content: Seq<char>,
    pub label: Seq<char>,
    pub port: nat,
}

impl View for RouteFile {
    type V = RouteFileView;

    open spec fn view(&self) -> RouteFileView {
        RouteFileView {
            name: self.name@,
            content: self.content@,
            label: self.label@,
            port: self.port as nat,
        }
    }
}

impl DeepView for RouteFile {
    type V = RouteFileView;

    open spec fn deep_view(&self) -> RouteFileView {
        self.view()
    }
}

/// A fragment that hands the requests whose header `header` is `value` to
/// the local port.
pub open spec fn proxy_block(
    value: Seq<char>,
    matcher: Seq<char>,
    header: Seq<char>,
    port: nat,
) -> Seq<char> {
    "# "@ + value + "\n@"@ + matcher + " header "@ + header + " "@ + value + "\nhandle @"@ + matcher
        + " {\n    reverse_proxy 127.0.0.1:"@ + decimal(port) + "\n}\n"@
}

fn write_proxy_block(value: &str, matcher: &str, header: &str, port: u16) -> (block: String)
    ensures
        block@ == proxy_block(value@, matcher@, header@, port as nat),
{
    let mut block = "# ".to_owned();
    block.append(value);
    block.append("\n@");
    block.append(matcher);
    block.append(" header ");
    block.append(header);
    block.append(" ");
    block.append(value);
    block.append("\nhandle @");
    block.append(matcher);
    block.append(" {\n    reverse_proxy 127.0.0.1:");
    block.append(format_decimal(port as u64).as_str());
    block.append("\n}\n");
    block
}

/// The fragment of an application of a project, matched by the target
/// header.
pub open spec fn app_route_of(app: Seq<char>, project: Seq<char>, port: nat) -> RouteFileView {
    let target = app + "."@ + project;
    RouteFileView {
        name: "ops-"@ + app + "-"@ + project + ".caddy"@,
        content: proxy_block(
            target,
            replaced("ops_"@ + app + "_"@ + project, '-', '_'),
            "X-OPS-Target"@,
            port,
        ),
        label: target,
        port,
    }
}

pub fn app_route(app: &str, project: &str, port: u16) -> (file: RouteFile)
    ensures
        file@ == app_route_of(app@, project@, port as nat),
{
    let mut target = app.to_owned();
    target.append(".");
    target.append(project);
    let mut raw = "ops_".to_owned();
    raw.append(app);
    raw.append("_");
    raw.append(project);
    let matcher = replace_char(raw.as_str(), '-', '_');
    let mut name = "ops-".to_owned();
    name.append(app);
    name.append("-");
    name.append(project);
    name.append(".caddy");
    let content = write_proxy_block(target.as_str(), matcher.as_str(), "X-OPS-Target", port);
    RouteFile { name, content, label: target, port }
}

/// A domain with dots and dashes turned into underscores.
pub open spec fn safe_domain(domain: Seq<char>) -> Seq<char> {
    replaced(replaced(domain, '.', '_'), '-', '_')
}

/// The fragment of a routed domain, matched by the forwarded host.
pub open spec fn domain_route_of(domain: Seq<char>, port: nat) -> RouteFileView {
    RouteFileView {
        name: "ops-route-"@ + safe_domain(domain) + ".caddy"@,
        content: proxy_block(
            domain,
            "ops_route_"@ + safe_domain(domain),
            "X-Forwarded-Host"@,
            port,
        ),
        label: domain,
        port,
    }
}

pub fn domain_route(domain: &str, port: u16) -> (file: RouteFile)
    ensures
        file@ == domain_route_of(domain@, port as nat),
{
    let safe = replace_char(replace_char(domain, '.', '_').as_str(), '-', '_');
    let mut matcher = "ops_route_".to_owned();
    matcher.append(safe.as_str());
    let mut name = "ops-route-".to_owned();
    name.append(safe.as_str());
    name.append(".caddy");
    let content = write_proxy_block(domain, matcher.as_str(), "X-Forwarded-Host", port);
    RouteFile { name, content, label: domain.to_owned(), port }
}

/// Whether every route goes to the same port.
pub open spec fn one_port(routes: Seq<crate::config::Route>) -> bool {
    forall|i: int| 0 <= i < routes.len() ==> (#[trigger] routes[i]).port == routes[0].port
}

/// The fragments of the `[[routes]]` entries. Where every route goes to one
/// port, a single fragment for the deployed application; where the ports
/// differ, one fragment per domain.
pub open spec fn legacy_routes_of(config: &OpsToml, app_filter: Option<Seq<char>>) -> Seq<
    RouteFileView,
> {
    let routes = config.routes@;
    if routes.len() == 0 {
        Seq::empty()
    } else if one_port(routes) {
        seq![
            app_route_of(
                match app_filter {
                    Some(name) => name,
                    None => crate::config::app_name_of(config),
                },
                config.project@,
                routes[0].port as nat,
            ),
        ]
    } else {
        Seq::new(routes.len(), |i: int| domain_route_of(routes[i].domain@, routes[i].port as nat))
    }
}

/// The fragments of the `[[apps]]` entries that have a port and that the
/// application filter lets through, in order.
pub open spec fn app_routes_of(
    apps: Seq<AppDef>,
    project: Seq<char>,
    app_filter: Option<Seq<char>>,
) -> Seq<RouteFileView>
    decreases apps.len(),
{
    if apps.len() == 0 {
        Seq::empty()
    } else {
        let before = app_routes_of(apps.drop_last(), project, app_filter);
        let app = apps.last();
        if crate::pipeline::app_has_route(app, app_filter) {
            before.push(app_route_of(app.name@, project, app.port->0 as nat))
        } else {
            before
        }
    }
}

/// Every routing fragment of a run: those of the routes, then those of the
/// applications.
pub open spec fn route_files_of(config: &OpsToml, app_filter: Option<Seq<char>>) -> Seq<
    RouteFileView,
> {
    legacy_routes_of(config, app_filter) + app_routes_of(config.apps@, config.project@, app_filter)
}

fn same_port(routes: &Vec<crate::config::Route>) -> (r: bool)
    requires
        routes.len() > 0,
    ensures
        r == one_port(routes@),
{
    let first = routes[0].port;
    let mut i: usize = 0;
    while i < routes.len()
        invariant
            i <= routes.len(),
            routes.len() > 0,
            first == routes@[0].port,
            forall|j: int| 0 <= j < i ==> (#[trigger] routes@[j]).port == first,
        decreases routes.len() - i,
    {
        if routes[i].port != first {
            return false;
        }
        i += 1;
    }
    true
}

/// The routing fragments to write for a run.
pub fn route_files(config: &OpsToml, app_filter: &Option<String>) -> (files: Vec<RouteFile>)
    ensures
        files.deep_view() == route_files_of(config, opt_text(*app_filter)),
{
    let mut files: Vec<RouteFile> = Vec::new();
    let ghost filter = opt_text(*app_filter);
    if config.routes.len() > 0 {
        if same_port(&config.routes) {
            let deployed = match app_filter {
                Some(name) => name.clone(),
                None => crate::config::resolve_app_name(config),
            };
            files.push(app_route(deployed.as_str(), config.project.as_str(), config.routes[0].port));
        } else {
            let mut i: usize = 0;
            while i < config.routes.len()
                invariant
                    i <= config.routes.len(),
                    files.len() == i,
                    forall|j: int|
                        0 <= j < i ==> files@[j]@ == domain_route_of(
                            config.routes@[j].domain@,
                            config.routes@[j].port as nat,
                        ),
                decreases config.routes.len() - i,
            {
                let route = &config.routes[i];
                files.push(domain_route(route.domain.as_str(), route.port));
                i += 1;
            }
        }
    }
    assert(files.deep_view() =~= legacy_routes_of(config, filter));
    let ghost legacy = files.deep_view();
    let mut k: usize = 0;
    while k < config.apps.len()
        invariant
            k <= config.apps.len(),
            filter == opt_text(*app_filter),
            files.deep_view() == legacy + app_routes_of(
                config.apps@.take(k as int),
                config.project@,
                filter,
            ),
        decreases config.apps.len() - k,
    {
        proof {
            let t = config.apps@.take(k + 1);
            assert(t.drop_last() =~= config.apps@.take(k as int));
            assert(t.last() == config.apps@[k as int]);
        }
        let app = &config.apps[k];
        let passes = match app_filter {
            Some(name) => same_text(app.name.as_str(), name.as_str()),
            None => true,
        };
        match app.port {
            Some(port) => {
                if passes {
                    let ghost before = files.deep_view();
                    let file = app_route(app.name.as_str(), config.project.as_str(), port);
                    files.push(file);
                    assert(files.deep_view() =~= before.push(
                        app_route_of(app.name@, config.project@, port as nat),
                    ));
                }
            },
            None => {},
        }
        k += 1;
    }
    assert(config.apps@.take(config.apps.len() as int) =~= config.apps@);
    files
}

/// Creates the directory of the routing fragments.
pub fn routes_dir_command() -> (cmd: &'static str)
    ensures
        cmd@ == "mkdir -p /etc/caddy/routes.d"@,
{
    "mkdir -p /etc/caddy/routes.d"
}

/// Writes a routing fragment from its input.
pub open spec fn write_route_of(name: Seq<char>) -> Seq<char> {
    "cat > /etc/caddy/routes.d/"@ + name
}

pub fn write_route_command(name: &str) -> (cmd: String)
    ensures
        cmd@ == write_route_of(name@),
{
    let mut cmd = "cat > /etc/caddy/routes.d/".to_owned();
    cmd.append(name);
    cmd
}

/// Checks the proxy configuration and, if it is valid, reloads the proxy.
pub fn reload_proxy_command() -> (cmd: &'static str)
    ensures
        cmd@ == "caddy validate --config /etc/caddy/Caddyfile && systemctl reload caddy"@,
{
    "caddy validate --config /etc/caddy/Caddyfile && systemctl reload caddy"
}

// ---------------------------------------------------------------------------
// Step 6: health checks
// ---------------------------------------------------------------------------

/// Polls a URL up to ten times, two seconds apart; prints `OK` on the first
/// answer and `FAIL` when none came.
pub open spec fn health_of(url: Seq<char>) -> Seq<char> {
    "for i in 1 2 3 4 5 6 7 8 9 10; do curl -sf "@ + url
        + " > /dev/null && echo 'OK' && exit 0; sleep 2; done; echo 'FAIL'; exit 1"@
}

pub fn health_command(url: &str) -> (cmd: String)
    ensures
        cmd@ == health_of(url@),
{
    let mut cmd = "for i in 1 2 3 4 5 6 7 8 9 10; do curl -sf ".to_owned();
    cmd.append(url);
    cmd.append(" > /dev/null && echo 'OK' && exit 0; sleep 2; done; echo 'FAIL'; exit 1");
    cmd
}

/// Whether a health check passed: the command ran and printed `OK`. Anything
/// else counts as failed.
pub fn health_passed(output: &Option<String>) -> (r: bool)
    ensures
        r == (output matches Some(text) && trimmed(text@) == "OK"@),
{
    match output {
        Some(text) => same_text(trim(text.as_str()).as_str(), "OK"),
        None => false,
    }
}

// ---------------------------------------------------------------------------
// Status and logs
// ---------------------------------------------------------------------------

/// Shows the state of the services of a deploy path.
pub open spec fn status_of(deploy_path: Seq<char>) -> Seq<char> {
    "cd "@ + deploy_path + " && docker compose ps"@
}

pub fn status_command(deploy_path: &str) -> (cmd: String)
    ensures
        cmd@ == status_of(deploy_path@),
{
    let mut cmd = "cd ".to_owned();
    cmd.append(deploy_path);
    cmd.append(" && docker compose ps");
    cmd
}

/// Shows the state of the services of a deploy path, one per line, for the
/// status of several nodes.
pub open spec fn brief_status_of(deploy_path: Seq<char>) -> Seq<char> {
    "cd "@ + deploy_path + " && docker compose ps --format '  {{.Name}}\\t{{.Status}}'"@
}

pub fn brief_status_command(deploy_path: &str) -> (cmd: String)
    ensures
        cmd@ == brief_status_of(deploy_path@),
{
    let mut cmd = "cd ".to_owned();
    cmd.append(deploy_path);
    cmd.append(" && docker compose ps --format '  {{.Name}}\\t{{.Status}}'");
    cmd
}

/// Shows the last lines of the log of a service, and goes on showing it
/// where asked to follow.
pub open spec fn logs_of(deploy_path: Seq<char>, service: Seq<char>, tail: nat, follow: bool) -> Seq<
    char,
> {
    "cd "@ + deploy_path + " && docker compose logs --tail="@ + decimal(tail) + (if follow {
        " -f"@
    } else {
        Seq::<char>::empty()
    }) + " "@ + service
}

pub fn logs_command(deploy_path: &str, service: &str, tail: u32, follow: bool) -> (cmd: String)
    ensures
        cmd@ == logs_of(deploy_path@, service@, tail as nat, follow),
{
    let mut cmd = "cd ".to_owned();
    cmd.append(deploy_path);
    cmd.append(" && docker compose logs --tail=");
    cmd.append(format_decimal(tail as u64).as_str());
    if follow {
        cmd.append(" -f");
    }
    cmd.append(" ");
    cmd.append(service);
    cmd
}

// ---------------------------------------------------------------------------
// Transfers
// ---------------------------------------------------------------------------

/// The name of the environment variable that a value refers to: what
/// follows the dollar sign with which it begins. A value that does not begin
/// with one stands for itself.
pub open spec fn env_reference_of(value: Seq<char>) -> Option<Seq<char>> {
    if value.len() > 0 && value[0] == '$' {
        Some(value.skip(1))
    } else {
        None
    }
}

pub fn env_reference(value: &str) -> (name: Option<String>)
    ensures
        opt_text(name) == env_reference_of(value@),
{
    let v = to_chars(value);
    if v.len() > 0 && v[0] == '$' {
        assert(v@.subrange(1, v.len() as int) =~= v@.skip(1));
        Some(from_chars_range(&v, 1, v.len()))
    } else {
        None
    }
}

/// What is said where a value refers to a variable that is not set.
pub open spec fn unset_variable_of(value: Seq<char>) -> Seq<char> {
    "Environment variable "@ + value + " not set"@
}

pub fn unset_variable(value: &str) -> (m: String)
    ensures
        m@ == unset_variable_of(value@),
{
    let mut m = "Environment variable ".to_owned();
    m.append(value);
    m.append(" not set");
    m
}

/// The remote shell of a transfer: it uses the credential of the session
/// and trusts the host it is given.
pub open spec fn transfer_shell_of(key_path: Seq<char>) -> Seq<char> {
    "ssh -i "@ + key_path
        + " -o StrictHostKeyChecking=no -o UserKnownHostsFile=/dev/null -o LogLevel=ERROR"@
}

pub fn transfer_shell(key_path: &str) -> (cmd: String)
    ensures
        cmd@ == transfer_shell_of(key_path@),
{
    let mut cmd = "ssh -i ".to_owned();
    cmd.append(key_path);
    cmd.append(" -o StrictHostKeyChecking=no -o UserKnownHostsFile=/dev/null -o LogLevel=ERROR");
    cmd
}

/// Where a push of the working directory lands.
pub open spec fn push_destination_of(host: Seq<char>, deploy_path: Seq<char>) -> Seq<char> {
    "root@"@ + host + ":"@ + deploy_path + "/"@
}

pub fn push_destination(host: &str, deploy_path: &str) -> (dest: String)
    ensures
        dest@ == push_destination_of(host@, deploy_path@),
{
    let mut dest = "root@".to_owned();
    dest.append(host);
    dest.append(":");
    dest.append(deploy_path);
    dest.append("/");
    dest
}

/// The arguments of a push of the working directory: an archive copy that
/// deletes what is gone, over the given shell, leaving out build output,
/// dependencies, history and secrets.
pub open spec fn push_args_of(shell: Seq<char>, destination: Seq<char>) -> Seq<Seq<char>> {
    seq![
        "-az"@,
        "--delete"@,
        "-e"@,
        shell,
        "--exclude"@,
        "target/"@,
        "--exclude"@,
        "node_modules/"@,
        "--exclude"@,
        ".git/"@,
        "--exclude"@,
        ".env"@,
        "--exclude"@,
        ".env.deploy"@,
        "./"@,
        destination,
    ]
}

pub fn push_args(shell: &str, destination: &str) -> (args: Vec<String>)
    ensures
        views(args@) == push_args_of(shell@, destination@),
{
    let mut args = owned(&vec!["-az", "--delete", "-e"]);
    let ghost first = views(args@);
    assert(first =~= seq!["-az"@, "--delete"@, "-e"@]);
    args.push(shell.to_owned());
    let ghost head = views(args@);
    assert(head =~= first.push(shell@));
    let mut rest = owned(
        &vec![
            "--exclude",
            "target/",
            "--exclude",
            "node_modules/",
            "--exclude",
            ".git/",
            "--exclude",
            ".env",
            "--exclude",
            ".env.deploy",
            "./",
        ],
    );
    let ghost tail = views(rest@);
    assert(tail =~= seq![
        "--exclude"@,
        "target/"@,
        "--exclude"@,
        "node_modules/"@,
        "--exclude"@,
        ".git/"@,
        "--exclude"@,
        ".env"@,
        "--exclude"@,
        ".env.deploy"@,
        "./"@,
    ]);
    args.append(&mut rest);
    assert(views(args@) =~= head + tail);
    args.push(destination.to_owned());
    assert(views(args@) =~= (head + tail).push(destination@));
    assert((head + tail).push(destination@) =~= push_args_of(shell@, destination@));
    args
}

/// The administrator's login at a place.
pub fn with_login(place: &str) -> (login: String)
    ensures
        login@ == "root@"@ + place@,
{
    let mut login = "root@".to_owned();
    login.append(place);
    login
}

/// Where a copy to a target lands: the path of the target, the home of the
/// administrator where it names none.
pub open spec fn copy_target_of(domain: Seq<char>, path: Option<Seq<char>>) -> Seq<char> {
    "root@"@ + domain + ":"@ + (match path {
        Some(p) => p,
        None => "/root/"@,
    })
}

pub fn copy_target(domain: &str, path: Option<&String>) -> (dest: String)
    ensures
        dest@ == copy_target_of(
            domain@,
            match path {
                Some(p) => Some(p@),
                None => None,
            },
        ),
{
    let mut dest = "root@".to_owned();
    dest.append(domain);
    dest.append(":");
    match path {
        Some(p) => dest.append(p.as_str()),
        None => dest.append("/root/"),
    }
    dest
}

// ---------------------------------------------------------------------------
// The environment file of a server
// ---------------------------------------------------------------------------

/// Where the environment file of a server is kept.
pub open spec fn env_file_path() -> Seq<char> {
    "/opt/judge/.env"@
}

/// Writes the environment file from its input, as the administrator.
pub fn upload_env_command() -> (cmd: String)
    ensures
        cmd@ == "sudo tee "@ + env_file_path(),
{
    let mut cmd = "sudo tee ".to_owned();
    cmd.append("/opt/judge/.env");
    cmd
}

/// Prints the environment file, as the administrator.
pub fn download_env_command() -> (cmd: String)
    ensures
        cmd@ == "sudo cat "@ + env_file_path(),
{
    let mut cmd = "sudo cat ".to_owned();
    cmd.append("/opt/judge/.env");
    cmd
}

/// What is reported when some of the declared health checks failed; nothing
/// where none did.
pub open spec fn health_warning_of(failed: nat) -> Option<Seq<char>> {
    if failed > 0 {
        Some(decimal(failed) + " health check(s) failed"@)
    } else {
        None
    }
}

pub fn health_warning(failed: usize) -> (warning: Option<String>)
    ensures
        crate::text::opt_text(warning) == health_warning_of(failed as nat),
{
    if failed > 0 {
        let mut text = crate::text::format_decimal_wide(failed as u128);
        text.append(" health check(s) failed");
        Some(text)
    } else {
        None
    }
}

} // verus!
