//! Project scanning: what a source directory holds decides how the project
//! is containerised.

pub mod dockerfile;
pub mod gomod;
pub mod node;
pub mod python;
pub mod rust;
pub mod static_site;

use crate::text::{opt_text, same_text, views};
use vstd::prelude::*;

verus! {

/// Detected framework.
#[derive(Debug, Clone, Copy, PartialEq, Eq, Structural)]
pub enum Framework {
    NextJs,
    NuxtJs,
    ViteSpa,
    RemixJs,
    NodeApi,
    GenericNode,
    FastApi,
    Django,
    Flask,
    GenericPython,
    Go,
    Rust,
    StaticSite,
}

impl Framework {
    pub open spec fn name(self) -> Seq<char> {
        match self {
            Framework::NextJs => "Next.js"@,
            Framework::NuxtJs => "Nuxt"@,
            Framework::ViteSpa => "Vite SPA"@,
            Framework::RemixJs => "Remix"@,
            Framework::NodeApi => "Node.js API"@,
            Framework::GenericNode => "Node.js"@,
            Framework::FastApi => "FastAPI"@,
            Framework::Django => "Django"@,
            Framework::Flask => "Flask"@,
            Framework::GenericPython => "Python"@,
            Framework::Go => "Go"@,
            Framework::Rust => "Rust"@,
            Framework::StaticSite => "Static Site"@,
        }
    }

    /// The port a project of this framework listens on unless it says
    /// otherwise.
    pub open spec fn port(self) -> int {
        match self {
            Framework::NextJs | Framework::NuxtJs | Framework::RemixJs => 3000,
            Framework::NodeApi | Framework::GenericNode => 3000,
            Framework::ViteSpa | Framework::StaticSite => 80,
            Framework::FastApi | Framework::Django | Framework::GenericPython => 8000,
            Framework::Flask => 5000,
            Framework::Go | Framework::Rust => 8080,
        }
    }

    pub fn display_name(&self) -> (name: &'static str)
        ensures
            name@ == self.name(),
    {
        match self {
            Framework::NextJs => "Next.js",
            Framework::NuxtJs => "Nuxt",
            Framework::ViteSpa => "Vite SPA",
            Framework::RemixJs => "Remix",
            Framework::NodeApi => "Node.js API",
            Framework::GenericNode => "Node.js",
            Framework::FastApi => "FastAPI",
            Framework::Django => "Django",
            Framework::Flask => "Flask",
            Framework::GenericPython => "Python",
            Framework::Go => "Go",
            Framework::Rust => "Rust",
            Framework::StaticSite => "Static Site",
        }
    }

    pub fn default_port(&self) -> (port: u16)
        ensures
            port == self.port(),
    {
        match self {
            Framework::NextJs => 3000,
            Framework::NuxtJs => 3000,
            Framework::ViteSpa => 80,
            Framework::RemixJs => 3000,
            Framework::NodeApi | Framework::GenericNode => 3000,
            Framework::FastApi => 8000,
            Framework::Django => 8000,
            Framework::Flask => 5000,
            Framework::GenericPython => 8000,
            Framework::Go => 8080,
            Framework::Rust => 8080,
            Framework::StaticSite => 80,
        }
    }
}

/// A single stage in a multi-stage Dockerfile.
#[derive(Debug)]
pub struct DockerStage {
    pub name: Option<String>,
    pub base_image: String,
    pub workdir: String,
    pub instructions: Vec<String>,
    pub expose: Option<u16>,
    pub cmd: Option<Vec<String>>,
}

/// Full project scan result: everything needed to generate the Dockerfile
/// and the application description.
#[derive(Debug)]
pub struct SourceInfo {
    pub family: String,
    pub framework: Framework,
    pub version: Option<String>,
    pub port: u16,
    pub env_vars: Vec<(String, String)>,
    pub build_args: Vec<(String, String)>,
    pub install_cmd: String,
    pub build_cmd: Option<String>,
    pub start_cmd: String,
    pub binary_name: Option<String>,
    pub entry_point: Option<String>,
    pub package_manager: Option<String>,
    pub has_lockfile: bool,
    pub dockerfile_stages: Vec<DockerStage>,
    pub dockerignore_entries: Vec<String>,
    pub notes: Vec<String>,
}

/// The mathematical content of a `DockerStage`.
pub struct DockerStageView {
    pub name: Option<Seq<char>>,
    pub base_image: Seq<char>,
    pub workdir: Seq<char>,
    pub instructions: Seq<Seq<char>>,
    pub expose: Option<u16>,
    pub cmd: Option<Seq<Seq<char>>>,
}

impl View for DockerStage {
    type V = DockerStageView;

    open spec fn view(&self) -> DockerStageView {
        DockerStageView {
            name: opt_text(self.name),
            base_image: self.base_image@,
            workdir: self.workdir@,
            instructions: views(self.instructions@),
            expose: self.expose,
            cmd: match self.cmd {
                Some(parts) => Some(views(parts@)),
                None => None,
            },
        }
    }
}

impl DeepView for DockerStage {
    type V = DockerStageView;

    open spec fn deep_view(&self) -> DockerStageView {
        self.view()
    }
}

/// The views of a list of pairs of texts.
pub open spec fn pair_views(pairs: Seq<(String, String)>) -> Seq<(Seq<char>, Seq<char>)> {
    Seq::new(pairs.len(), |i: int| (pairs[i].0@, pairs[i].1@))
}

/// The mathematical content of a `SourceInfo`.
pub struct SourceInfoView {
    pub family: Seq<char>,
    pub framework: Framework,
    pub version: Option<Seq<char>>,
    pub port: u16,
    pub env_vars: Seq<(Seq<char>, Seq<char>)>,
    pub build_args: Seq<(Seq<char>, Seq<char>)>,
    pub install_cmd: Seq<char>,
    pub build_cmd: Option<Seq<char>>,
    pub start_cmd: Seq<char>,
    pub binary_name: Option<Seq<char>>,
    pub entry_point: Option<Seq<char>>,
    pub package_manager: Option<Seq<char>>,
    pub has_lockfile: bool,
    pub dockerfile_stages: Seq<DockerStageView>,
    pub dockerignore_entries: Seq<Seq<char>>,
    pub notes: Seq<Seq<char>>,
}

impl View for SourceInfo {
    type V = SourceInfoView;

    open spec fn view(&self) -> SourceInfoView {
        SourceInfoView {
            family: self.family@,
            framework: self.framework,
            version: opt_text(self.version),
            port: self.port,
            env_vars: pair_views(self.env_vars@),
            build_args: pair_views(self.build_args@),
            install_cmd: self.install_cmd@,
            build_cmd: opt_text(self.build_cmd),
            start_cmd: self.start_cmd@,
            binary_name: opt_text(self.binary_name),
            entry_point: opt_text(self.entry_point),
            package_manager: opt_text(self.package_manager),
            has_lockfile: self.has_lockfile,
            dockerfile_stages: self.dockerfile_stages.deep_view(),
            dockerignore_entries: views(self.dockerignore_entries@),
            notes: views(self.notes@),
        }
    }
}

/// A file that a scan read.
#[derive(Debug)]
pub struct FileText {
    pub name: String,
    pub text: String,
}

/// What a scan saw of a source directory: the names of the files that
/// exist, among those the scanners ask for, and the text of those that
/// could be read.
#[derive(Debug)]
pub struct Snapshot {
    pub files: Vec<String>,
    pub texts: Vec<FileText>,
}

/// The position of the first text named `name`, or `texts.len()`.
pub open spec fn text_position(texts: Seq<FileText>, name: Seq<char>) -> int
    decreases texts.len(),
{
    if texts.len() == 0 {
        0
    } else if texts[0].name@ == name {
        0
    } else {
        1 + text_position(texts.skip(1), name)
    }
}

impl Snapshot {
    /// Whether the directory holds a file of this name.
    pub open spec fn holds(&self, name: Seq<char>) -> bool {
        views(self.files@).contains(name)
    }

    /// The text of the file of this name, if it was read.
    pub open spec fn text_of(&self, name: Seq<char>) -> Option<Seq<char>> {
        let i = text_position(self.texts@, name);
        if i < self.texts@.len() {
            Some(self.texts@[i].text@)
        } else {
            None
        }
    }

    pub fn has_file(&self, name: &str) -> (r: bool)
        ensures
            r == self.holds(name@),
    {
        let mut i: usize = 0;
        while i < self.files.len()
            invariant
                i <= self.files.len(),
                forall|j: int| 0 <= j < i ==> views(self.files@)[j] != name@,
            decreases self.files.len() - i,
        {
            if same_text(self.files[i].as_str(), name) {
                assert(views(self.files@)[i as int] == name@);
                return true;
            }
            i += 1;
        }
        false
    }

    /// The text of a file, if it was read.
    pub fn read(&self, name: &str) -> (r: Option<&String>)
        ensures
            match r {
                Some(text) => self.text_of(name@) == Some(text@),
                None => self.text_of(name@) is None,
            },
    {
        let mut i: usize = 0;
        assert(self.texts@.skip(0) =~= self.texts@);
        while i < self.texts.len() && !same_text(self.texts[i].name.as_str(), name)
            invariant
                i <= self.texts.len(),
                text_position(self.texts@, name@) == i + text_position(
                    self.texts@.skip(i as int),
                    name@,
                ),
            decreases self.texts.len() - i,
        {
            proof {
                let t = self.texts@.skip(i as int);
                assert(t[0] == self.texts@[i as int]);
                assert(t.skip(1) =~= self.texts@.skip(i + 1));
            }
            i += 1;
        }
        proof {
            let t = self.texts@.skip(i as int);
            if i < self.texts.len() {
                assert(t[0] == self.texts@[i as int]);
            }
        }
        if i < self.texts.len() {
            Some(&self.texts[i].text)
        } else {
            None
        }
    }
}

/// A file that a scanner needs is there and could not be read.
#[derive(Debug)]
pub struct Unreadable {
    pub file: String,
}

impl Unreadable {
    pub fn message(&self) -> (m: String)
        ensures
            m@ == "Cannot read "@ + self.file@,
    {
        let mut m = "Cannot read ".to_owned();
        m.append(self.file.as_str());
        m
    }
}

/// Whether the outcome of a scan is the expected one.
pub open spec fn matches_scan(
    found: Result<Option<SourceInfo>, Unreadable>,
    expected: Result<Option<SourceInfoView>, Seq<char>>,
) -> bool {
    match expected {
        Ok(Some(info)) => found matches Ok(Some(f)) && f@ == info,
        Ok(None) => found matches Ok(None),
        Err(file) => found matches Err(e) && e.file@ == file,
    }
}

/// Whether what a scanner found is the expected description.
pub open spec fn matches_info(found: Option<SourceInfo>, expected: Option<SourceInfoView>) -> bool {
    match expected {
        Some(info) => found matches Some(f) && f@ == info,
        None => found is None,
    }
}

/// What the scanners before the Go scanner say, in priority order: the
/// frameworks first, then the plain languages.
pub open spec fn framework_scan_of(dir: &Snapshot) -> Option<SourceInfoView> {
    if node::nextjs_info(dir) is Some {
        node::nextjs_info(dir)
    } else if node::nuxtjs_info(dir) is Some {
        node::nuxtjs_info(dir)
    } else if node::remix_info(dir) is Some {
        node::remix_info(dir)
    } else if node::vite_spa_info(dir) is Some {
        node::vite_spa_info(dir)
    } else if python::django_info(dir) is Some {
        python::django_info(dir)
    } else if python::flask_info(dir) is Some {
        python::flask_info(dir)
    } else if python::fastapi_info(dir) is Some {
        python::fastapi_info(dir)
    } else if node::generic_info(dir) is Some {
        node::generic_info(dir)
    } else {
        python::generic_info(dir)
    }
}

/// The outcome of the first scanner, in priority order, that recognises the
/// directory or fails on it: frameworks before plain languages, a static
/// site last.
pub open spec fn scan_of(dir: &Snapshot) -> Result<Option<SourceInfoView>, Seq<char>> {
    if framework_scan_of(dir) is Some {
        Ok(framework_scan_of(dir))
    } else if !(gomod::go_info(dir) matches Ok(None)) {
        gomod::go_info(dir)
    } else if !(rust::rust_info(dir) matches Ok(None)) {
        rust::rust_info(dir)
    } else {
        Ok(static_site::static_site_info(dir))
    }
}

fn scan_frameworks(dir: &Snapshot) -> (info: Option<SourceInfo>)
    ensures
        matches_info(info, framework_scan_of(dir)),
{
    match node::scan_nextjs(dir) {
        Some(info) => {
            return Some(info);
        },
        None => {},
    }
    match node::scan_nuxtjs(dir) {
        Some(info) => {
            return Some(info);
        },
        None => {},
    }
    match node::scan_remix(dir) {
        Some(info) => {
            return Some(info);
        },
        None => {},
    }
    match node::scan_vite_spa(dir) {
        Some(info) => {
            return Some(info);
        },
        None => {},
    }
    match python::scan_django(dir) {
        Some(info) => {
            return Some(info);
        },
        None => {},
    }
    match python::scan_flask(dir) {
        Some(info) => {
            return Some(info);
        },
        None => {},
    }
    match python::scan_fastapi(dir) {
        Some(info) => {
            return Some(info);
        },
        None => {},
    }
    match node::scan_generic(dir) {
        Some(info) => {
            return Some(info);
        },
        None => {},
    }
    python::scan_generic(dir)
}

/// Runs the scanners in priority order and returns the first match.
pub fn scan(source_dir: &Snapshot) -> (info: Result<Option<SourceInfo>, Unreadable>)
    ensures
        matches_scan(info, scan_of(source_dir)),
{
    match scan_frameworks(source_dir) {
        Some(info) => {
            return Ok(Some(info));
        },
        None => {},
    }
    match gomod::scan(source_dir) {
        Ok(None) => {},
        other => {
            return other;
        },
    }
    match rust::scan(source_dir) {
        Ok(None) => {},
        other => {
            return other;
        },
    }
    Ok(static_site::scan(source_dir))
}

/// The ignore entries that every project shares.
pub open spec fn common_ignores() -> Seq<Seq<char>> {
    seq![".git"@, "*.md"@, ".env*"@, ".vscode"@, ".idea"@]
}

} // verus!
