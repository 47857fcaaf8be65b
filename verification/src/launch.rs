//! The launch wizard: what it detects in a project directory, what it
//! suggests, and the description it writes.

use crate::scanner::Snapshot;
use crate::text::{join, joined, opt_text, same_text, views};
use vstd::prelude::*;

verus! {

/// What the wizard found in the project directory.
#[derive(Debug)]
pub struct ProjectScan {
    pub dir_name: String,
    pub compose_files: Vec<String>,
    pub has_dockerfile: bool,
    pub has_git: bool,
    pub git_remote: Option<String>,
    pub language: Option<String>,
    pub has_env_file: bool,
    pub sync_candidates: Vec<String>,
}

/// The names under which a compose file is looked for, in order.
pub open spec fn compose_names() -> Seq<Seq<char>> {
    seq![
        "docker-compose.yml"@,
        "docker-compose.yaml"@,
        "docker-compose.prod.yml"@,
        "docker-compose.prod.yaml"@,
        "docker-compose.base.yml"@,
        "docker-compose.base.yaml"@,
        "docker-compose.override.yml"@,
        "docker-compose.override.yaml"@,
    ]
}

/// The names of the configuration files that may have to be synced.
pub open spec fn config_names() -> Seq<Seq<char>> {
    seq!["Config.toml"@, "config.yaml"@, "config.yml"@, "config.json"@, "nginx.conf"@]
}

/// Those of `names` that the directory holds, in order.
pub open spec fn present_of(dir: &Snapshot, names: Seq<Seq<char>>) -> Seq<Seq<char>>
    decreases names.len(),
{
    if names.len() == 0 {
        Seq::empty()
    } else {
        let before = present_of(dir, names.drop_last());
        if dir.holds(names.last()) {
            before.push(names.last())
        } else {
            before
        }
    }
}

fn present(dir: &Snapshot, names: &Vec<String>) -> (found: Vec<String>)
    ensures
        views(found@) == present_of(dir, views(names@)),
{
    let mut found: Vec<String> = Vec::new();
    let mut i: usize = 0;
    while i < names.len()
        invariant
            i <= names.len(),
            views(found@) == present_of(dir, views(names@).take(i as int)),
        decreases names.len() - i,
    {
        proof {
            let t = views(names@).take(i + 1);
            assert(t.drop_last() =~= views(names@).take(i as int));
            assert(t.last() == names@[i as int]@);
        }
        if dir.has_file(names[i].as_str()) {
            let ghost before = views(found@);
            found.push(names[i].clone());
            assert(views(found@) =~= before.push(names@[i as int]@));
        }
        i += 1;
    }
    assert(views(names@).take(names.len() as int) =~= views(names@));
    found
}

/// The language of a project, by the first marker file found.
pub open spec fn language_of(dir: &Snapshot) -> Option<Seq<char>> {
    if dir.holds("Cargo.toml"@) {
        Some("rust"@)
    } else if dir.holds("package.json"@) {
        Some("node"@)
    } else if dir.holds("go.mod"@) {
        Some("go"@)
    } else if dir.holds("requirements.txt"@) || dir.holds("pyproject.toml"@) {
        Some("python"@)
    } else {
        None
    }
}

pub fn detect_language(dir: &Snapshot) -> (language: Option<String>)
    ensures
        opt_text(language) == language_of(dir),
{
    if dir.has_file("Cargo.toml") {
        Some("rust".to_owned())
    } else if dir.has_file("package.json") {
        Some("node".to_owned())
    } else if dir.has_file("go.mod") {
        Some("go".to_owned())
    } else if dir.has_file("requirements.txt") || dir.has_file("pyproject.toml") {
        Some("python".to_owned())
    } else {
        None
    }
}

/// What the wizard detects, given what the directory holds, the name of the
/// directory and the remote of its repository. A remote counts only where
/// the directory is a repository.
pub fn scan_project(dir: &Snapshot, dir_name: &str, git_remote: Option<String>) -> (scan:
    ProjectScan)
    ensures
        scan.dir_name@ == dir_name@,
        views(scan.compose_files@) == present_of(dir, compose_names()),
        scan.has_dockerfile == dir.holds("Dockerfile"@),
        scan.has_git == dir.holds(".git"@),
        opt_text(scan.git_remote) == (if dir.holds(".git"@) {
            opt_text(git_remote)
        } else {
            None
        }),
        opt_text(scan.language) == language_of(dir),
        scan.has_env_file == dir.holds(".env"@),
        views(scan.sync_candidates@) == present_of(dir, config_names()),
{
    let mut names: Vec<String> = Vec::new();
    names.push("docker-compose.yml".to_owned());
    names.push("docker-compose.yaml".to_owned());
    names.push("docker-compose.prod.yml".to_owned());
    names.push("docker-compose.prod.yaml".to_owned());
    names.push("docker-compose.base.yml".to_owned());
    names.push("docker-compose.base.yaml".to_owned());
    names.push("docker-compose.override.yml".to_owned());
    names.push("docker-compose.override.yaml".to_owned());
    assert(views(names@) =~= compose_names());
    let compose_files = present(dir, &names);
    let mut configs: Vec<String> = Vec::new();
    configs.push("Config.toml".to_owned());
    configs.push("config.yaml".to_owned());
    configs.push("config.yml".to_owned());
    configs.push("config.json".to_owned());
    configs.push("nginx.conf".to_owned());
    assert(views(configs@) =~= config_names());
    let sync_candidates = present(dir, &configs);
    let has_git = dir.has_file(".git");
    ProjectScan {
        dir_name: dir_name.to_owned(),
        compose_files,
        has_dockerfile: dir.has_file("Dockerfile"),
        has_git,
        git_remote: if has_git {
            git_remote
        } else {
            None
        },
        language: detect_language(dir),
        has_env_file: dir.has_file(".env"),
        sync_candidates,
    }
}

/// The deploy source suggested for a project: images where there are
/// compose files and nothing to build; a push where there is something to
/// build; git where there is only a remote; a push otherwise.
pub open spec fn suggested_source(scan: &ProjectScan) -> Seq<char> {
    if scan.compose_files@.len() > 0 && !scan.has_dockerfile {
        "image"@
    } else if scan.has_dockerfile {
        "push"@
    } else if scan.git_remote is Some {
        "git"@
    } else {
        "push"@
    }
}

pub fn suggest_source(scan: &ProjectScan) -> (source: &'static str)
    ensures
        source@ == suggested_source(scan),
{
    if scan.compose_files.len() > 0 && !scan.has_dockerfile {
        "image"
    } else if scan.has_dockerfile {
        "push"
    } else if scan.git_remote.is_some() {
        "git"
    } else {
        "push"
    }
}

/// The deploy path suggested for an application.
pub fn default_deploy_path(app_name: &str) -> (path: String)
    ensures
        path@ == "/opt/"@ + app_name@,
{
    let mut path = "/opt/".to_owned();
    path.append(app_name);
    path
}

/// What the operator settled on.
#[derive(Debug)]
pub struct LaunchConfig {
    pub app_name: String,
    pub target: String,
    pub deploy_path: String,
    pub source: String,
    pub git_repo: Option<String>,
    pub git_branch: Option<String>,
    pub compose_files: Vec<String>,
    pub use_registry: bool,
    pub env_files: Vec<(String, String)>,
    pub sync_files: Vec<(String, String)>,
    pub health_url: Option<String>,
}

/// Each name between double quotes.
pub open spec fn quoted_names(names: Seq<Seq<char>>) -> Seq<Seq<char>> {
    Seq::new(names.len(), |i: int| "\""@ + names[i] + "\""@)
}

/// The line that lists the compose files.
pub open spec fn compose_line(files: Seq<Seq<char>>) -> Seq<char> {
    "compose_files = ["@ + joined(quoted_names(files), ", "@) + "]\n"@
}

fn write_compose_line(files: &Vec<String>) -> (line: String)
    ensures
        line@ == compose_line(views(files@)),
{
    let mut quoted: Vec<String> = Vec::new();
    let mut i: usize = 0;
    while i < files.len()
        invariant
            i <= files.len(),
            quoted.len() == i,
            forall|j: int| 0 <= j < i ==> quoted@[j]@ == "\""@ + files@[j]@ + "\""@,
        decreases files.len() - i,
    {
        let mut q = "\"".to_owned();
        q.append(files[i].as_str());
        q.append("\"");
        quoted.push(q);
        i += 1;
    }
    assert(views(quoted@) =~= quoted_names(views(files@)));
    let mut line = "compose_files = [".to_owned();
    line.append(join(&quoted, ", ").as_str());
    line.append("]\n");
    line
}

/// The head of the description: application, target if any, deploy path.
pub open spec fn head_text(cfg: &LaunchConfig) -> Seq<char> {
    "app = \""@ + cfg.app_name@ + "\"\n"@ + (if cfg.target@.len() > 0 {
        "target = \""@ + cfg.target@ + "\"\n"@
    } else {
        Seq::<char>::empty()
    }) + "deploy_path = \""@ + cfg.deploy_path@ + "\"\n"@
}

fn write_head(cfg: &LaunchConfig) -> (out: String)
    ensures
        out@ == head_text(cfg),
{
    let mut out = "app = \"".to_owned();
    out.append(cfg.app_name.as_str());
    out.append("\"\n");
    if cfg.target.as_str().unicode_len() > 0 {
        out.append("target = \"");
        out.append(cfg.target.as_str());
        out.append("\"\n");
    }
    out.append("deploy_path = \"");
    out.append(cfg.deploy_path.as_str());
    out.append("\"\n");
    out
}

/// The `[deploy]` section: the source; for git the branch and repository;
/// for images the compose files and the registry, commented out unless it is
/// to be used; for any other source the compose files, if there are any.
pub open spec fn deploy_text(cfg: &LaunchConfig) -> Seq<char> {
    let is_git = cfg.source@ == "git"@;
    let is_image = cfg.source@ == "image"@;
    let has_files = cfg.compose_files@.len() > 0;
    "\n[deploy]\nsource = \""@ + cfg.source@ + "\"\n"@ + (if is_git && cfg.git_repo is Some {
        "branch = \""@ + (match cfg.git_branch {
            Some(branch) => branch@,
            None => "main"@,
        }) + "\"\n"@ + "\n[deploy.git]\nrepo = \""@ + cfg.git_repo->0@ + "\"\n"@
            + "# ssh_key = \"~/.ssh/deploy_key\"\n"@
    } else {
        Seq::<char>::empty()
    }) + (if is_image && has_files {
        compose_line(views(cfg.compose_files@))
    } else {
        Seq::<char>::empty()
    }) + (if is_image && cfg.use_registry {
        "\n[deploy.registry]\nurl = \"ghcr.io\"\ntoken = \"$GHCR_PAT\"\n"@
    } else if is_image {
        "\n# [deploy.registry]\n# url = \"ghcr.io\"\n# token = \"$GHCR_PAT\"\n"@
    } else {
        Seq::<char>::empty()
    }) + (if !is_image && has_files {
        compose_line(views(cfg.compose_files@))
    } else {
        Seq::<char>::empty()
    })
}

fn write_deploy(cfg: &LaunchConfig) -> (out: String)
    ensures
        out@ == deploy_text(cfg),
{
    let is_git = same_text(cfg.source.as_str(), "git");
    let is_image = same_text(cfg.source.as_str(), "image");
    let has_files = cfg.compose_files.len() > 0;
    let mut out = "\n[deploy]\nsource = \"".to_owned();
    out.append(cfg.source.as_str());
    out.append("\"\n");
    if is_git {
        match &cfg.git_repo {
            Some(repo) => {
                out.append("branch = \"");
                match &cfg.git_branch {
                    Some(branch) => out.append(branch.as_str()),
                    None => out.append("main"),
                }
                out.append("\"\n");
                out.append("\n[deploy.git]\nrepo = \"");
                out.append(repo.as_str());
                out.append("\"\n");
                out.append("# ssh_key = \"~/.ssh/deploy_key\"\n");
            },
            None => {},
        }
    }
    if is_image && has_files {
        out.append(write_compose_line(&cfg.compose_files).as_str());
    }
    if is_image && cfg.use_registry {
        out.append("\n[deploy.registry]\nurl = \"ghcr.io\"\ntoken = \"$GHCR_PAT\"\n");
    } else if is_image {
        out.append("\n# [deploy.registry]\n# url = \"ghcr.io\"\n# token = \"$GHCR_PAT\"\n");
    }
    if !is_image && has_files {
        out.append(write_compose_line(&cfg.compose_files).as_str());
    }
    assert(out@ =~= deploy_text(cfg));
    out
}

/// One table per mapping, under the given table name.
pub open spec fn mappings_text(table: Seq<char>, files: Seq<(String, String)>) -> Seq<char>
    decreases files.len(),
{
    if files.len() == 0 {
        Seq::empty()
    } else {
        mappings_text(table, files.drop_last()) + "\n[["@ + table + "]]\nlocal = \""@
            + files.last().0@ + "\"\nremote = \""@ + files.last().1@ + "\"\n"@
    }
}

fn write_mappings(table: &str, files: &Vec<(String, String)>) -> (out: String)
    ensures
        out@ == mappings_text(table@, files@),
{
    let mut out = String::new();
    let mut i: usize = 0;
    while i < files.len()
        invariant
            i <= files.len(),
            out@ == mappings_text(table@, files@.take(i as int)),
        decreases files.len() - i,
    {
        proof {
            let t = files@.take(i + 1);
            assert(t.drop_last() =~= files@.take(i as int));
            assert(t.last() == files@[i as int]);
        }
        out.append("\n[[");
        out.append(table);
        out.append("]]\nlocal = \"");
        out.append(files[i].0.as_str());
        out.append("\"\nremote = \"");
        out.append(files[i].1.as_str());
        out.append("\"\n");
        i += 1;
    }
    assert(files@.take(files.len() as int) =~= files@);
    out
}

/// Whether a file is among the local sides of the sync mappings.
pub open spec fn is_synced(sync_files: Seq<(String, String)>, file: Seq<char>) -> bool {
    exists|i: int| 0 <= i < sync_files.len() && (#[trigger] sync_files[i]).0@ == file
}

/// The sync tables of the compose files of an image deploy, for those files
/// that are not synced already.
pub open spec fn compose_sync_text(files: Seq<String>, sync_files: Seq<(String, String)>) -> Seq<
    char,
>
    decreases files.len(),
{
    if files.len() == 0 {
        Seq::empty()
    } else {
        let before = compose_sync_text(files.drop_last(), sync_files);
        let f = files.last()@;
        if is_synced(sync_files, f) {
            before
        } else {
            before + "\n[[sync]]\nlocal = \"./"@ + f + "\"\nremote = \""@ + f + "\"\n"@
        }
    }
}

fn synced(sync_files: &Vec<(String, String)>, file: &str) -> (r: bool)
    ensures
        r == is_synced(sync_files@, file@),
{
    let mut i: usize = 0;
    while i < sync_files.len()
        invariant
            i <= sync_files.len(),
            forall|j: int| 0 <= j < i ==> (#[trigger] sync_files@[j]).0@ != file@,
        decreases sync_files.len() - i,
    {
        if same_text(sync_files[i].0.as_str(), file) {
            return true;
        }
        i += 1;
    }
    false
}

fn write_compose_sync(cfg: &LaunchConfig) -> (out: String)
    ensures
        out@ == compose_sync_text(cfg.compose_files@, cfg.sync_files@),
{
    let mut out = String::new();
    let mut i: usize = 0;
    while i < cfg.compose_files.len()
        invariant
            i <= cfg.compose_files.len(),
            out@ == compose_sync_text(cfg.compose_files@.take(i as int), cfg.sync_files@),
        decreases cfg.compose_files.len() - i,
    {
        proof {
            let t = cfg.compose_files@.take(i + 1);
            assert(t.drop_last() =~= cfg.compose_files@.take(i as int));
            assert(t.last() == cfg.compose_files@[i as int]);
        }
        let f = cfg.compose_files[i].as_str();
        if !synced(&cfg.sync_files, f) {
            out.append("\n[[sync]]\nlocal = \"./");
            out.append(f);
            out.append("\"\nremote = \"");
            out.append(f);
            out.append("\"\n");
        }
        i += 1;
    }
    assert(cfg.compose_files@.take(cfg.compose_files.len() as int) =~= cfg.compose_files@);
    out
}

/// The health check of the description, or a commented example.
pub open spec fn health_text(url: Option<Seq<char>>) -> Seq<char> {
    match url {
        Some(u) => "\n[[healthchecks]]\nname = \"Health\"\nurl = \""@ + u + "\"\n"@,
        None =>
            "\n# [[healthchecks]]\n# name = \"Health\"\n# url = \"http://localhost:8000/health\"\n"@,
    }
}

fn write_health(url: &Option<String>) -> (out: String)
    ensures
        out@ == health_text(opt_text(*url)),
{
    match url {
        Some(u) => {
            let mut out = "\n[[healthchecks]]\nname = \"Health\"\nurl = \"".to_owned();
            out.append(u.as_str());
            out.append("\"\n");
            out
        },
        None => {
            "\n# [[healthchecks]]\n# name = \"Health\"\n# url = \"http://localhost:8000/health\"\n".to_owned()
        },
    }
}

/// The description that the wizard writes.
pub open spec fn toml_text(cfg: &LaunchConfig) -> Seq<char> {
    head_text(cfg) + deploy_text(cfg) + mappings_text("env_files"@, cfg.env_files@) + mappings_text(
        "sync"@,
        cfg.sync_files@,
    ) + (if cfg.source@ == "image"@ {
        compose_sync_text(cfg.compose_files@, cfg.sync_files@)
    } else {
        Seq::<char>::empty()
    }) + health_text(opt_text(cfg.health_url))
}

/// Writes the description of what the operator settled on.
pub fn generate_toml(cfg: &LaunchConfig) -> (out: String)
    ensures
        out@ == toml_text(cfg),
{
    let mut out = write_head(cfg);
    out.append(write_deploy(cfg).as_str());
    out.append(write_mappings("env_files", &cfg.env_files).as_str());
    out.append(write_mappings("sync", &cfg.sync_files).as_str());
    if same_text(cfg.source.as_str(), "image") {
        out.append(write_compose_sync(cfg).as_str());
    }
    out.append(write_health(&cfg.health_url).as_str());
    out
}

} // verus!
