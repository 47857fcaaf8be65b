//! The fallback scanner: a directory with an `index.html` and no marker of
//! a known language is a static site, served by a web server.

use super::{
    common_ignores, matches_info, DockerStage, DockerStageView, Framework, Snapshot, SourceInfo,
    SourceInfoView,
};
use crate::text::{owned, views};
use vstd::prelude::*;

verus! {

/// Whether a directory is taken for a static site.
pub open spec fn is_static_site(dir: &Snapshot) -> bool {
    &&& dir.holds("index.html"@)
    &&& !dir.holds("package.json"@)
    &&& !dir.holds("Cargo.toml"@)
    &&& !dir.holds("go.mod"@)
    &&& !dir.holds("requirements.txt"@)
    &&& !dir.holds("pyproject.toml"@)
}

/// The single stage of a static site: the files, copied into the document
/// root of a web server that stays in the foreground.
pub open spec fn web_server_stage(source: Seq<char>) -> DockerStageView {
    DockerStageView {
        name: None,
        base_image: "nginx:alpine"@,
        workdir: "/usr/share/nginx/html"@,
        instructions: seq![source],
        expose: Some(80u16),
        cmd: Some(seq!["nginx"@, "-g"@, "daemon off;"@]),
    }
}

/// What a scan says of a static site.
pub open spec fn static_site_info(dir: &Snapshot) -> Option<SourceInfoView> {
    if is_static_site(dir) {
        Some(
            SourceInfoView {
                family: "Static Site"@,
                framework: Framework::StaticSite,
                version: None,
                port: 80,
                env_vars: Seq::empty(),
                build_args: Seq::empty(),
                install_cmd: Seq::empty(),
                build_cmd: None,
                start_cmd: "nginx -g 'daemon off;'"@,
                binary_name: None,
                entry_point: None,
                package_manager: None,
                has_lockfile: false,
                dockerfile_stages: seq![web_server_stage("COPY . ."@)],
                dockerignore_entries: common_ignores(),
                notes: Seq::empty(),
            },
        )
    } else {
        None
    }
}

/// The stage that serves what `source` copies.
pub fn serve_stage(source: &str) -> (stage: DockerStage)
    ensures
        stage@ == web_server_stage(source@),
{
    let mut instructions: Vec<String> = Vec::new();
    instructions.push(source.to_owned());
    assert(views(instructions@) =~= seq![source@]);
    let cmd = owned(&vec!["nginx", "-g", "daemon off;"]);
    assert(views(cmd@) =~= seq!["nginx"@, "-g"@, "daemon off;"@]);
    DockerStage {
        name: None,
        base_image: "nginx:alpine".to_owned(),
        workdir: "/usr/share/nginx/html".to_owned(),
        instructions,
        expose: Some(80),
        cmd: Some(cmd),
    }
}

/// The ignore entries that every project shares.
pub fn shared_ignores() -> (entries: Vec<String>)
    ensures
        views(entries@) == common_ignores(),
{
    let entries = owned(&vec![".git", "*.md", ".env*", ".vscode", ".idea"]);
    assert(views(entries@) =~= common_ignores());
    entries
}

pub fn scan(dir: &Snapshot) -> (info: Option<SourceInfo>)
    ensures
        matches_info(info, static_site_info(dir)),
{
    if !dir.has_file("index.html") {
        return None;
    }
    if dir.has_file("package.json") || dir.has_file("Cargo.toml") || dir.has_file("go.mod")
        || dir.has_file("requirements.txt") || dir.has_file("pyproject.toml") {
        return None;
    }
    let mut stages: Vec<DockerStage> = Vec::new();
    stages.push(serve_stage("COPY . ."));
    assert(stages.deep_view() =~= seq![web_server_stage("COPY . ."@)]);
    let info = SourceInfo {
        family: "Static Site".to_owned(),
        framework: Framework::StaticSite,
        version: None,
        port: 80,
        env_vars: Vec::new(),
        build_args: Vec::new(),
        install_cmd: String::new(),
        build_cmd: None,
        start_cmd: "nginx -g 'daemon off;'".to_owned(),
        binary_name: None,
        entry_point: None,
        package_manager: None,
        has_lockfile: false,
        dockerfile_stages: stages,
        dockerignore_entries: shared_ignores(),
        notes: Vec::new(),
    };
    proof {
        assert(info@.env_vars =~= Seq::empty());
        assert(info@.build_args =~= Seq::empty());
        assert(info@.notes =~= Seq::empty());
    }
    Some(info)
}

} // verus!
