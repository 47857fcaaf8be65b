//! Remote builds: the commands that build and push the images of the
//! services of a project on a build node, one after the other or in batches
//! of background jobs.

use crate::text::{
    decimal, format_decimal, join, joined, opt_text, replace_text, replaced_text,
    trim_start_matches, views, without_leading,
};
use vstd::prelude::*;

verus! {

/// Where and how images are built and pushed.
#[derive(Debug)]
pub struct BuildImageConfig {
    pub services: Vec<String>,
    pub registry: String,
    pub username: String,
    pub token: String,
    pub prefix: String,
    pub dockerfile: String,
    pub binary_arg: String,
}

/// The tag of the images of a build: the one asked for, `latest` otherwise.
pub open spec fn tag_of(tag: Option<Seq<char>>) -> Seq<char> {
    match tag {
        Some(t) => t,
        None => "latest"@,
    }
}

pub fn image_tag(tag: &Option<String>) -> (t: String)
    ensures
        t@ == tag_of(opt_text(*tag)),
{
    match tag {
        Some(t) => t.clone(),
        None => "latest".to_owned(),
    }
}

/// The services to build: the one asked for, all configured ones otherwise.
pub fn services_to_build(image: &BuildImageConfig, service_filter: &Option<String>) -> (services:
    Vec<String>)
    ensures
        views(services@) == (match service_filter {
            Some(name) => seq![name@],
            None => views(image.services@),
        }),
{
    match service_filter {
        Some(name) => {
            let mut services: Vec<String> = Vec::new();
            services.push(name.clone());
            assert(views(services@) =~= seq![name@]);
            services
        },
        None => crate::text::copy_all(&image.services),
    }
}

/// Logs the build node in to the registry, quietly.
pub open spec fn login_of(image: &BuildImageConfig, token: Seq<char>) -> Seq<char> {
    "echo '"@ + token + "' | docker login "@ + image.registry@ + " -u "@ + image.username@
        + " --password-stdin 2>/dev/null"@
}

pub fn login_command(image: &BuildImageConfig, token: &str) -> (cmd: String)
    ensures
        cmd@ == login_of(image, token@),
{
    let mut cmd = "echo '".to_owned();
    cmd.append(token);
    cmd.append("' | docker login ");
    cmd.append(image.registry.as_str());
    cmd.append(" -u ");
    cmd.append(image.username.as_str());
    cmd.append(" --password-stdin 2>/dev/null");
    cmd
}

/// Builds the image of one service, tagged with the tag of the build and as
/// `latest`.
pub open spec fn build_of(
    path: Seq<char>,
    image: &BuildImageConfig,
    service: Seq<char>,
    tag: Seq<char>,
) -> Seq<char> {
    "cd "@ + path + " && docker build -f "@ + image.dockerfile@ + " --build-arg "@
        + image.binary_arg@ + "="@ + service + " -t "@ + image.prefix@ + "/"@ + service + ":"@ + tag
        + " -t "@ + image.prefix@ + "/"@ + service + ":latest ."@
}

pub fn build_command(path: &str, image: &BuildImageConfig, service: &str, tag: &str) -> (cmd: String)
    ensures
        cmd@ == build_of(path@, image, service@, tag@),
{
    let mut cmd = "cd ".to_owned();
    cmd.append(path);
    cmd.append(" && docker build -f ");
    cmd.append(image.dockerfile.as_str());
    cmd.append(" --build-arg ");
    cmd.append(image.binary_arg.as_str());
    cmd.append("=");
    cmd.append(service);
    cmd.append(" -t ");
    cmd.append(image.prefix.as_str());
    cmd.append("/");
    cmd.append(service);
    cmd.append(":");
    cmd.append(tag);
    cmd.append(" -t ");
    cmd.append(image.prefix.as_str());
    cmd.append("/");
    cmd.append(service);
    cmd.append(":latest .");
    cmd
}

/// Pushes both tags of the image of one service.
pub open spec fn push_of(image: &BuildImageConfig, service: Seq<char>, tag: Seq<char>) -> Seq<char> {
    "docker push "@ + image.prefix@ + "/"@ + service + ":"@ + tag + " && docker push "@
        + image.prefix@ + "/"@ + service + ":latest"@
}

pub fn push_command(image: &BuildImageConfig, service: &str, tag: &str) -> (cmd: String)
    ensures
        cmd@ == push_of(image, service@, tag@),
{
    let mut cmd = "docker push ".to_owned();
    cmd.append(image.prefix.as_str());
    cmd.append("/");
    cmd.append(service);
    cmd.append(":");
    cmd.append(tag);
    cmd.append(" && docker push ");
    cmd.append(image.prefix.as_str());
    cmd.append("/");
    cmd.append(service);
    cmd.append(":latest");
    cmd
}

/// A command as a background job of kind `kind` (`build` or `push`) for a
/// service: its output goes to a log and its exit status to a marker.
pub open spec fn job_of(command: Seq<char>, kind: Seq<char>, service: Seq<char>) -> Seq<char> {
    "("@ + command + " > /tmp/ops_"@ + kind + "_"@ + service + ".log 2>&1; echo $? > /tmp/ops_"@
        + kind + "_"@ + service + ".exit) &"@
}

pub fn background_job(command: &str, kind: &str, service: &str) -> (job: String)
    ensures
        job@ == job_of(command@, kind@, service@),
{
    let mut job = "(".to_owned();
    job.append(command);
    job.append(" > /tmp/ops_");
    job.append(kind);
    job.append("_");
    job.append(service);
    job.append(".log 2>&1; echo $? > /tmp/ops_");
    job.append(kind);
    job.append("_");
    job.append(service);
    job.append(".exit) &");
    job
}

/// The jobs of one batch, each on its line, and the wait for all of them.
pub open spec fn batch_script_of(jobs: Seq<Seq<char>>) -> Seq<char> {
    joined(jobs.push("wait"@), "\n"@)
}

pub fn batch_script(jobs: &Vec<String>) -> (script: String)
    ensures
        script@ == batch_script_of(views(jobs@)),
{
    let mut all = crate::text::copy_all(jobs);
    let ghost before = views(all@);
    all.push("wait".to_owned());
    assert(views(all@) =~= before.push("wait"@));
    join(&all, "\n")
}

/// Prints the marker of one job as `service:status`.
pub open spec fn marker_of(kind: Seq<char>, service: Seq<char>) -> Seq<char> {
    "echo -n \""@ + service + ":\"; cat /tmp/ops_"@ + kind + "_"@ + service + ".exit"@
}

pub open spec fn markers_of(kind: Seq<char>, services: Seq<Seq<char>>) -> Seq<Seq<char>> {
    Seq::new(services.len(), |i: int| marker_of(kind, services[i]))
}

/// Prints the markers of the jobs of a batch, one after the other.
pub fn status_command(kind: &str, services: &Vec<String>) -> (cmd: String)
    ensures
        cmd@ == joined(markers_of(kind@, views(services@)), "; "@),
{
    let mut markers: Vec<String> = Vec::new();
    let mut i: usize = 0;
    while i < services.len()
        invariant
            i <= services.len(),
            markers.len() == i,
            forall|j: int| 0 <= j < i ==> markers@[j]@ == marker_of(kind@, services@[j]@),
        decreases services.len() - i,
    {
        let mut m = "echo -n \"".to_owned();
        m.append(services[i].as_str());
        m.append(":\"; cat /tmp/ops_");
        m.append(kind);
        m.append("_");
        m.append(services[i].as_str());
        m.append(".exit");
        markers.push(m);
        i += 1;
    }
    assert(views(markers@) =~= markers_of(kind@, views(services@)));
    join(&markers, "; ")
}

/// Shows the end of the log of a job.
pub open spec fn log_tail_of(kind: Seq<char>, service: Seq<char>) -> Seq<char> {
    "tail -30 /tmp/ops_"@ + kind + "_"@ + service + ".log"@
}

pub fn log_tail_command(kind: &str, service: &str) -> (cmd: String)
    ensures
        cmd@ == log_tail_of(kind@, service@),
{
    let mut cmd = "tail -30 /tmp/ops_".to_owned();
    cmd.append(kind);
    cmd.append("_");
    cmd.append(service);
    cmd.append(".log");
    cmd
}

/// The error of a batch in which builds failed.
pub open spec fn build_failure_of(failed: Seq<Seq<char>>) -> Seq<char> {
    "Build failed for: "@ + joined(failed, ", "@)
}

pub fn build_failure(failed: &Vec<String>) -> (text: String)
    ensures
        text@ == build_failure_of(views(failed@)),
{
    let mut text = "Build failed for: ".to_owned();
    text.append(join(failed, ", ").as_str());
    text
}

/// A duration in seconds, as minutes and seconds from one minute on.
pub open spec fn duration_of(secs: nat) -> Seq<char> {
    if secs < 60 {
        decimal(secs) + "s"@
    } else {
        decimal(secs / 60) + "m"@ + decimal(secs % 60) + "s"@
    }
}

pub fn format_duration(secs: u64) -> (text: String)
    ensures
        text@ == duration_of(secs as nat),
{
    if secs < 60 {
        let mut text = format_decimal(secs);
        text.append("s");
        text
    } else {
        let mut text = format_decimal(secs / 60);
        text.append("m");
        text.append(format_decimal(secs % 60).as_str());
        text.append("s");
        text
    }
}

/// The build node, by priority: the node the build names, else the target
/// the description pins, else the first node bound to the project.
pub open spec fn build_node_of(
    node: Option<u64>,
    pinned: Option<Seq<char>>,
    bound: Option<Seq<char>>,
) -> Option<Seq<char>> {
    match node {
        Some(id) => Some(decimal(id as nat)),
        None => match pinned {
            Some(t) => Some(t),
            None => bound,
        },
    }
}

pub fn resolve_build_node(node: Option<u64>, pinned: &Option<String>, bound: &Option<String>) -> (r:
    Option<String>)
    ensures
        opt_text(r) == build_node_of(node, opt_text(*pinned), opt_text(*bound)),
{
    match node {
        Some(id) => Some(format_decimal(id)),
        None => match pinned {
            Some(t) => Some(t.clone()),
            None => crate::text::copy_opt(bound),
        },
    }
}

// ---------------------------------------------------------------------------
// The code of a build
// ---------------------------------------------------------------------------

/// What a build checks out: the reference asked for, else the configured
/// branch, else `main`.
pub open spec fn build_ref_of(git_ref: Option<Seq<char>>, branch: Option<Seq<char>>) -> Seq<char> {
    match git_ref {
        Some(r) => r,
        None => match branch {
            Some(b) => b,
            None => "main"@,
        },
    }
}

pub fn build_ref(git_ref: &Option<String>, branch: &Option<String>) -> (r: String)
    ensures
        r@ == build_ref_of(opt_text(*git_ref), opt_text(*branch)),
{
    match git_ref {
        Some(r) => r.clone(),
        None => match branch {
            Some(b) => b.clone(),
            None => "main".to_owned(),
        },
    }
}

/// The address from which a repository is cloned with an access token: the
/// address of the repository over HTTPS, without the `.git`, with the token
/// as the password of the access user.
pub open spec fn token_url_of(repo: Seq<char>, token: Seq<char>) -> Seq<char> {
    "https://x-access-token:"@ + token + "@"@ + without_leading(
        replaced_text(
            replaced_text(repo, "git@github.com:"@, "https://github.com/"@),
            ".git"@,
            Seq::empty(),
        ),
        "https://"@,
    )
}

pub fn token_url(repo: &str, token: &str) -> (url: String)
    ensures
        url@ == token_url_of(repo@, token@),
{
    let https = replace_text(repo, "git@github.com:", "https://github.com/");
    let empty = String::new();
    let bare = replace_text(https.as_str(), ".git", empty.as_str());
    let mut url = "https://x-access-token:".to_owned();
    url.append(token);
    url.append("@");
    url.append(trim_start_matches(bare.as_str(), "https://").as_str());
    url
}

/// Brings a repository that is there to a reference: a reference that was
/// asked for is pinned, a branch is followed.
pub open spec fn update_repo_of(path: Seq<char>, reference: Seq<char>, pinned: bool) -> Seq<char> {
    "cd "@ + path + " && git fetch origin && git checkout "@ + reference + (if pinned {
        " && git reset --hard "@
    } else {
        " && git pull origin "@
    }) + reference
}

pub fn update_repo_command(path: &str, reference: &str, pinned: bool) -> (cmd: String)
    ensures
        cmd@ == update_repo_of(path@, reference@, pinned),
{
    let mut cmd = "cd ".to_owned();
    cmd.append(path);
    cmd.append(" && git fetch origin && git checkout ");
    cmd.append(reference);
    if pinned {
        cmd.append(" && git reset --hard ");
    } else {
        cmd.append(" && git pull origin ");
    }
    cmd.append(reference);
    cmd
}

/// Clones a repository and checks a reference out. A clone with a token
/// goes over HTTPS; any other goes over a shell that trusts the host.
pub open spec fn clone_repo_of(
    url: Seq<char>,
    path: Seq<char>,
    reference: Seq<char>,
    with_token: bool,
) -> Seq<char> {
    (if with_token {
        Seq::<char>::empty()
    } else {
        "GIT_SSH_COMMAND='ssh -o StrictHostKeyChecking=no' "@
    }) + "git clone "@ + url + " "@ + path + " && cd "@ + path + " && git checkout "@ + reference
}

pub fn clone_repo_command(url: &str, path: &str, reference: &str, with_token: bool) -> (cmd: String)
    ensures
        cmd@ == clone_repo_of(url@, path@, reference@, with_token),
{
    let mut cmd = if with_token {
        String::new()
    } else {
        "GIT_SSH_COMMAND='ssh -o StrictHostKeyChecking=no' ".to_owned()
    };
    cmd.append("git clone ");
    cmd.append(url);
    cmd.append(" ");
    cmd.append(path);
    cmd.append(" && cd ");
    cmd.append(path);
    cmd.append(" && git checkout ");
    cmd.append(reference);
    cmd
}

/// Runs the build command in the build path, with the toolchain of the
/// build user on the path.
pub open spec fn run_build_of(path: Seq<char>, command: Seq<char>) -> Seq<char> {
    "source $HOME/.cargo/env 2>/dev/null; cd "@ + path + " && "@ + command
}

pub fn run_build_command(path: &str, command: &str) -> (cmd: String)
    ensures
        cmd@ == run_build_of(path@, command@),
{
    let mut cmd = "source $HOME/.cargo/env 2>/dev/null; cd ".to_owned();
    cmd.append(path);
    cmd.append(" && ");
    cmd.append(command);
    cmd
}

/// Removes images that no container uses, quietly.
pub fn prune_command() -> (cmd: &'static str)
    ensures
        cmd@ == "docker image prune -f 2>/dev/null"@,
{
    "docker image prune -f 2>/dev/null"
}

/// The error of a push that failed.
pub fn push_failure(service: &str) -> (text: String)
    ensures
        text@ == "Push failed for: "@ + service@,
{
    let mut text = "Push failed for: ".to_owned();
    text.append(service);
    text
}

} // verus!
