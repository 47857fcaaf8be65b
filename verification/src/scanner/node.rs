//! The scanners of Node.js projects: four frameworks, and any other project
//! with a package file.

use super::{
    matches_info, pair_views, DockerStage, DockerStageView, Framework, Snapshot, SourceInfo,
    SourceInfoView,
};
use crate::json::{
    document, has_nested_key, json_document, nested_string, parse_json, string_member, Json,
};
use crate::text::{
    contains_text, first_digits, first_run, from_chars_range, has_prefix, has_substring, is_u32,
    opt_text, owned, parse_port, prefix_at, same_text, split, split_of, to_chars, trim,
    trim_start_matches, trimmed, views, without_leading, words, words_of, writes_at_most,
    written_number,
};
use vstd::prelude::*;

verus! {

// ---------------------------------------------------------------------------
// The package file
// ---------------------------------------------------------------------------

/// What the scanners read of a package file.
pub type PackageFacts = Json;

/// What the scanners read of a parsed package file.
pub open spec fn facts_of(value: serde_json::Value) -> PackageFacts {
    document(value)
}

/// The facts of the package file of a directory, where it is there, could
/// be read and is a JSON document.
pub open spec fn package_of(dir: &Snapshot) -> Option<PackageFacts> {
    if !dir.holds("package.json"@) {
        None
    } else {
        match dir.text_of("package.json"@) {
            Some(text) => json_document(text),
            None => None,
        }
    }
}

fn read_package_json(dir: &Snapshot) -> (pkg: Option<serde_json::Value>)
    ensures
        match package_of(dir) {
            Some(facts) => pkg matches Some(value) && facts_of(value) == facts,
            None => pkg is None,
        },
{
    if !dir.has_file("package.json") {
        return None;
    }
    match dir.read("package.json") {
        Some(text) => parse_json(text.as_str()),
        None => None,
    }
}

impl Json {
    pub open spec fn has_dep(self, name: Seq<char>) -> bool {
        self.has_nested("dependencies"@, name)
    }

    pub open spec fn has_dev_dep(self, name: Seq<char>) -> bool {
        self.has_nested("devDependencies"@, name)
    }

    pub open spec fn has_script(self, name: Seq<char>) -> bool {
        self.has_nested("scripts"@, name)
    }

    pub open spec fn script(self, name: Seq<char>) -> Option<Seq<char>> {
        self.nested_string("scripts"@, name)
    }

    pub open spec fn main_file(self) -> Option<Seq<char>> {
        self.string_at("main"@)
    }

    pub open spec fn engine(self) -> Option<Seq<char>> {
        self.nested_string("engines"@, "node"@)
    }
}

fn has_dep(pkg: &serde_json::Value, name: &str) -> (r: bool)
    ensures
        r == facts_of(*pkg).has_dep(name@),
{
    has_nested_key(pkg, "dependencies", name)
}

fn has_dev_dep(pkg: &serde_json::Value, name: &str) -> (r: bool)
    ensures
        r == facts_of(*pkg).has_dev_dep(name@),
{
    has_nested_key(pkg, "devDependencies", name)
}

// ---------------------------------------------------------------------------
// Package manager, version, port
// ---------------------------------------------------------------------------

/// The package manager of a project, by its lock file.
pub open spec fn package_manager_of(dir: &Snapshot) -> Seq<char> {
    if dir.holds("bun.lockb"@) || dir.holds("bun.lock"@) {
        "bun"@
    } else if dir.holds("pnpm-lock.yaml"@) {
        "pnpm"@
    } else if dir.holds("yarn.lock"@) {
        "yarn"@
    } else {
        "npm"@
    }
}

/// The command that installs exactly what the lock file names.
pub open spec fn install_of(dir: &Snapshot) -> Seq<char> {
    if dir.holds("bun.lockb"@) || dir.holds("bun.lock"@) {
        "bun install --frozen-lockfile"@
    } else if dir.holds("pnpm-lock.yaml"@) {
        "pnpm install --frozen-lockfile"@
    } else if dir.holds("yarn.lock"@) {
        "yarn install --frozen-lockfile"@
    } else {
        "npm ci"@
    }
}

pub fn detect_package_manager(dir: &Snapshot) -> (r: (String, String))
    ensures
        r.0@ == package_manager_of(dir),
        r.1@ == install_of(dir),
{
    if dir.has_file("bun.lockb") || dir.has_file("bun.lock") {
        ("bun".to_owned(), "bun install --frozen-lockfile".to_owned())
    } else if dir.has_file("pnpm-lock.yaml") {
        ("pnpm".to_owned(), "pnpm install --frozen-lockfile".to_owned())
    } else if dir.has_file("yarn.lock") {
        ("yarn".to_owned(), "yarn install --frozen-lockfile".to_owned())
    } else {
        ("npm".to_owned(), "npm ci".to_owned())
    }
}

/// The major version that a version file names: what stands before the
/// first dot, after any leading `v`, where that is a number.
pub open spec fn major_in(text: Seq<char>) -> Option<Seq<char>> {
    let major = split_of(without_leading(trimmed(text), "v"@), '.')[0];
    if writes_at_most(major, u32::MAX as nat) {
        Some(major)
    } else {
        None
    }
}

fn major_of(text: &str) -> (major: Option<String>)
    ensures
        opt_text(major) == major_in(text@),
{
    let v = trim_start_matches(trim(text).as_str(), "v");
    let mut parts = split(v.as_str(), '.');
    proof {
        super::gomod::lemma_split_not_empty(v@, '.');
    }
    let first = parts.swap_remove(0);
    if is_u32(first.as_str()) {
        Some(first)
    } else {
        None
    }
}

/// The major version named by the file `name` of a directory.
pub open spec fn major_from(dir: &Snapshot, name: Seq<char>) -> Option<Seq<char>> {
    match dir.text_of(name) {
        Some(text) => major_in(text),
        None => None,
    }
}

/// The Node.js version of a project: from `.nvmrc`, else from
/// `.node-version`, else the first number in the engine requirement of the
/// package file, else 22.
pub open spec fn node_version_of(dir: &Snapshot, pkg: PackageFacts) -> Seq<char> {
    if major_from(dir, ".nvmrc"@) is Some {
        major_from(dir, ".nvmrc"@)->0
    } else if major_from(dir, ".node-version"@) is Some {
        major_from(dir, ".node-version"@)->0
    } else if pkg.engine() is Some && first_run(pkg.engine()->0, false).len() > 0 {
        first_run(pkg.engine()->0, false)
    } else {
        "22"@
    }
}

fn detect_node_version(dir: &Snapshot, pkg: &serde_json::Value) -> (version: String)
    ensures
        version@ == node_version_of(dir, facts_of(*pkg)),
{
    match dir.read(".nvmrc") {
        Some(text) => match major_of(text.as_str()) {
            Some(major) => {
                return major;
            },
            None => {},
        },
        None => {},
    }
    match dir.read(".node-version") {
        Some(text) => match major_of(text.as_str()) {
            Some(major) => {
                return major;
            },
            None => {},
        },
        None => {},
    }
    match nested_string(pkg, "engines", "node") {
        Some(requirement) => {
            let digits = first_digits(requirement.as_str(), false);
            if digits.as_str().unicode_len() > 0 {
                return digits;
            }
        },
        None => {},
    }
    "22".to_owned()
}

/// The port that the words of a command name: the number after `--port` or
/// `-p`, or in `--port=`, at the first word from position `from` on where
/// one of these names a port.
pub open spec fn port_in(parts: Seq<Seq<char>>, from: int) -> Option<u16>
    decreases parts.len() - from,
{
    if from < 0 || from >= parts.len() {
        None
    } else {
        let part = parts[from];
        if (part == "--port"@ || part == "-p"@) && from + 1 < parts.len() && writes_at_most(
            parts[from + 1],
            u16::MAX as nat,
        ) {
            Some(written_number(parts[from + 1])->0 as u16)
        } else if has_prefix(part, "--port="@) && writes_at_most(
            part.skip("--port="@.len() as int),
            u16::MAX as nat,
        ) {
            Some(written_number(part.skip("--port="@.len() as int))->0 as u16)
        } else {
            port_in(parts, from + 1)
        }
    }
}

fn port_of_command(command: &str) -> (port: Option<u16>)
    ensures
        port == port_in(words_of(command@), 0),
{
    let parts = words(command);
    let flag = to_chars("--port=");
    let mut i: usize = 0;
    while i < parts.len()
        invariant
            i <= parts.len(),
            flag@ == "--port="@,
            views(parts@) == words_of(command@),
            port_in(views(parts@), 0) == port_in(views(parts@), i as int),
        decreases parts.len() - i,
    {
        let part = parts[i].as_str();
        if (same_text(part, "--port") || same_text(part, "-p")) && i + 1 < parts.len() {
            match parse_port(parts[i + 1].as_str()) {
                Some(port) => {
                    return Some(port);
                },
                None => {},
            }
        }
        let v = to_chars(part);
        assert(v@.skip(0) =~= v@);
        if prefix_at(&v, 0, &flag) {
            assert(v@.subrange(flag.len() as int, v.len() as int) =~= v@.skip(flag.len() as int));
            let value = from_chars_range(&v, flag.len(), v.len());
            match parse_port(value.as_str()) {
                Some(port) => {
                    return Some(port);
                },
                None => {},
            }
        }
        i += 1;
    }
    None
}

/// The port named by the script `name`, if the script is there and names
/// one.
pub open spec fn script_port(pkg: PackageFacts, name: Seq<char>) -> Option<u16> {
    match pkg.script(name) {
        Some(command) => port_in(words_of(command), 0),
        None => None,
    }
}

/// The port named by the scripts of a package: by `start`, else by `dev`,
/// else by `serve`.
pub open spec fn port_from_scripts(pkg: PackageFacts) -> Option<u16> {
    if script_port(pkg, "start"@) is Some {
        script_port(pkg, "start"@)
    } else if script_port(pkg, "dev"@) is Some {
        script_port(pkg, "dev"@)
    } else {
        script_port(pkg, "serve"@)
    }
}

fn port_of_script(pkg: &serde_json::Value, name: &str) -> (port: Option<u16>)
    ensures
        port == script_port(facts_of(*pkg), name@),
{
    match nested_string(pkg, "scripts", name) {
        Some(command) => port_of_command(command.as_str()),
        None => None,
    }
}

fn detect_port_from_scripts(pkg: &serde_json::Value) -> (port: Option<u16>)
    ensures
        port == port_from_scripts(facts_of(*pkg)),
{
    match port_of_script(pkg, "start") {
        Some(port) => Some(port),
        None => match port_of_script(pkg, "dev") {
            Some(port) => Some(port),
            None => port_of_script(pkg, "serve"),
        },
    }
}

/// The port on which a server project listens: the one its scripts name,
/// 3000 otherwise.
pub open spec fn server_port(pkg: PackageFacts) -> u16 {
    match port_from_scripts(pkg) {
        Some(port) => port,
        None => 3000,
    }
}

fn detect_port(pkg: &serde_json::Value) -> (port: u16)
    ensures
        port == server_port(facts_of(*pkg)),
{
    match detect_port_from_scripts(pkg) {
        Some(port) => port,
        None => 3000,
    }
}

// ---------------------------------------------------------------------------
// Shared parts of the descriptions
// ---------------------------------------------------------------------------

/// The instruction that copies the package file and the lock file of a
/// package manager.
pub open spec fn lockfile_copy_of(pm: Seq<char>) -> Seq<char> {
    if pm == "bun"@ {
        "COPY package.json bun.lockb* bun.lock* ./"@
    } else if pm == "pnpm"@ {
        "COPY package.json pnpm-lock.yaml* ./"@
    } else if pm == "yarn"@ {
        "COPY package.json yarn.lock* ./"@
    } else {
        "COPY package.json package-lock.json* ./"@
    }
}

pub fn lockfile_copy(pm: &str) -> (line: &'static str)
    ensures
        line@ == lockfile_copy_of(pm@),
{
    if same_text(pm, "bun") {
        "COPY package.json bun.lockb* bun.lock* ./"
    } else if same_text(pm, "pnpm") {
        "COPY package.json pnpm-lock.yaml* ./"
    } else if same_text(pm, "yarn") {
        "COPY package.json yarn.lock* ./"
    } else {
        "COPY package.json package-lock.json* ./"
    }
}

/// The ignore entries of a Node.js project.
pub open spec fn node_ignores() -> Seq<Seq<char>> {
    seq![
        "node_modules"@,
        ".next"@,
        ".nuxt"@,
        ".output"@,
        "dist"@,
        ".git"@,
        ".env*"@,
        "*.md"@,
        ".vscode"@,
        ".idea"@,
    ]
}

pub fn node_dockerignore() -> (entries: Vec<String>)
    ensures
        views(entries@) == node_ignores(),
{
    let entries = owned(
        &vec![
            "node_modules",
            ".next",
            ".nuxt",
            ".output",
            "dist",
            ".git",
            ".env*",
            "*.md",
            ".vscode",
            ".idea",
        ],
    );
    assert(views(entries@) =~= node_ignores());
    entries
}

/// The image of a Node.js version.
pub open spec fn node_image(version: Seq<char>) -> Seq<char> {
    "node:"@ + version + "-alpine"@
}

/// The command that runs the build script.
pub open spec fn build_script(pm: Seq<char>) -> Seq<char> {
    pm + " run build"@
}

/// The command that runs the start script.
pub open spec fn start_script(pm: Seq<char>) -> Seq<char> {
    pm + " run start"@
}

/// The production environment of a server.
pub open spec fn production_env() -> Seq<(Seq<char>, Seq<char>)> {
    seq![("NODE_ENV"@, "production"@)]
}

/// A stage in the working directory `/app`.
pub open spec fn app_stage(
    name: Option<Seq<char>>,
    base_image: Seq<char>,
    instructions: Seq<Seq<char>>,
    expose: Option<u16>,
    cmd: Option<Seq<Seq<char>>>,
) -> DockerStageView {
    DockerStageView { name, base_image, workdir: "/app"@, instructions, expose, cmd }
}

pub(crate) fn make_stage(
    name: Option<&str>,
    base_image: &str,
    instructions: Vec<String>,
    expose: Option<u16>,
    cmd: Option<Vec<String>>,
) -> (stage: DockerStage)
    ensures
        stage@ == app_stage(
            match name {
                Some(n) => Some(n@),
                None => None,
            },
            base_image@,
            views(instructions@),
            expose,
            match cmd {
                Some(parts) => Some(views(parts@)),
                None => None,
            },
        ),
{
    DockerStage {
        name: match name {
            Some(n) => Some(n.to_owned()),
            None => None,
        },
        base_image: base_image.to_owned(),
        workdir: "/app".to_owned(),
        instructions,
        expose,
        cmd,
    }
}

/// What every description of a Node.js project shares.
pub open spec fn node_source(
    family: Seq<char>,
    framework: Framework,
    version: Seq<char>,
    port: u16,
    env_vars: Seq<(Seq<char>, Seq<char>)>,
    install_cmd: Seq<char>,
    build_cmd: Option<Seq<char>>,
    start_cmd: Seq<char>,
    pm: Seq<char>,
    stages: Seq<DockerStageView>,
    notes: Seq<Seq<char>>,
) -> SourceInfoView {
    SourceInfoView {
        family,
        framework,
        version: Some(version),
        port,
        env_vars,
        build_args: Seq::empty(),
        install_cmd,
        build_cmd,
        start_cmd,
        binary_name: None,
        entry_point: None,
        package_manager: Some(pm),
        has_lockfile: true,
        dockerfile_stages: stages,
        dockerignore_entries: node_ignores(),
        notes,
    }
}

fn production() -> (env: Vec<(String, String)>)
    ensures
        pair_views(env@) == production_env(),
{
    let mut env: Vec<(String, String)> = Vec::new();
    env.push(("NODE_ENV".to_owned(), "production".to_owned()));
    assert(pair_views(env@) =~= production_env());
    env
}

fn describe(
    family: &str,
    framework: Framework,
    version: String,
    port: u16,
    env_vars: Vec<(String, String)>,
    install_cmd: String,
    build_cmd: Option<String>,
    start_cmd: String,
    pm: String,
    stages: Vec<DockerStage>,
    notes: Vec<String>,
) -> (info: SourceInfo)
    ensures
        info@ == node_source(
            family@,
            framework,
            version@,
            port,
            pair_views(env_vars@),
            install_cmd@,
            opt_text(build_cmd),
            start_cmd@,
            pm@,
            stages.deep_view(),
            views(notes@),
        ),
{
    let info = SourceInfo {
        family: family.to_owned(),
        framework,
        version: Some(version),
        port,
        env_vars,
        build_args: Vec::new(),
        install_cmd,
        build_cmd,
        start_cmd,
        binary_name: None,
        entry_point: None,
        package_manager: Some(pm),
        has_lockfile: true,
        dockerfile_stages: stages,
        dockerignore_entries: node_dockerignore(),
        notes,
    };
    assert(info@.build_args =~= Seq::empty());
    info
}

fn image_of(version: &str) -> (image: String)
    ensures
        image@ == node_image(version@),
{
    let mut image = "node:".to_owned();
    image.append(version);
    image.append("-alpine");
    image
}

fn run_line(command: &str) -> (line: String)
    ensures
        line@ == "RUN "@ + command@,
{
    let mut line = "RUN ".to_owned();
    line.append(command);
    line
}

fn build_of(pm: &str) -> (command: String)
    ensures
        command@ == build_script(pm@),
{
    let mut command = pm.to_owned();
    command.append(" run build");
    command
}

fn start_of(pm: &str) -> (command: String)
    ensures
        command@ == start_script(pm@),
{
    let mut command = pm.to_owned();
    command.append(" run start");
    command
}

/// The stage that installs the dependencies.
pub open spec fn deps_stage(image: Seq<char>, pm: Seq<char>, install: Seq<char>) -> DockerStageView {
    app_stage(Some("deps"@), image, seq![lockfile_copy_of(pm), "RUN "@ + install], None, None)
}

fn make_deps_stage(image: &str, pm: &str, install: &str) -> (stage: DockerStage)
    ensures
        stage@ == deps_stage(image@, pm@, install@),
{
    let mut instructions: Vec<String> = Vec::new();
    instructions.push(lockfile_copy(pm).to_owned());
    instructions.push(run_line(install));
    assert(views(instructions@) =~= seq![lockfile_copy_of(pm@), "RUN "@ + install@]);
    make_stage(Some("deps"), image, instructions, None, None)
}

/// The stage that builds on top of the installed dependencies.
pub open spec fn build_on_deps_stage(image: Seq<char>, pm: Seq<char>) -> DockerStageView {
    app_stage(
        Some("builder"@),
        image,
        seq![
            "COPY --from=deps /app/node_modules ./node_modules"@,
            "COPY . ."@,
            "RUN "@ + build_script(pm),
        ],
        None,
        None,
    )
}

fn make_build_on_deps_stage(image: &str, pm: &str) -> (stage: DockerStage)
    ensures
        stage@ == build_on_deps_stage(image@, pm@),
{
    let mut instructions: Vec<String> = Vec::new();
    instructions.push("COPY --from=deps /app/node_modules ./node_modules".to_owned());
    instructions.push("COPY . .".to_owned());
    instructions.push(run_line(build_of(pm).as_str()));
    assert(views(instructions@) =~= build_on_deps_stage(image@, pm@).instructions);
    make_stage(Some("builder"), image, instructions, None, None)
}

/// The stage that installs and builds in one.
pub open spec fn install_and_build_stage(
    image: Seq<char>,
    pm: Seq<char>,
    install: Seq<char>,
) -> DockerStageView {
    app_stage(
        Some("builder"@),
        image,
        seq![lockfile_copy_of(pm), "RUN "@ + install, "COPY . ."@, "RUN "@ + build_script(pm)],
        None,
        None,
    )
}

fn make_install_and_build_stage(image: &str, pm: &str, install: &str) -> (stage: DockerStage)
    ensures
        stage@ == install_and_build_stage(image@, pm@, install@),
{
    let mut instructions: Vec<String> = Vec::new();
    instructions.push(lockfile_copy(pm).to_owned());
    instructions.push(run_line(install));
    instructions.push("COPY . .".to_owned());
    instructions.push(run_line(build_of(pm).as_str()));
    assert(views(instructions@) =~= install_and_build_stage(image@, pm@, install@).instructions);
    make_stage(Some("builder"), image, instructions, None, None)
}

// ---------------------------------------------------------------------------
// Next.js
// ---------------------------------------------------------------------------

/// Whether a configuration file of the framework mentions the standalone
/// output.
pub open spec fn mentions_standalone(dir: &Snapshot, name: Seq<char>) -> bool {
    dir.text_of(name) matches Some(text) && has_substring(text, "standalone"@)
}

pub open spec fn has_standalone(dir: &Snapshot) -> bool {
    mentions_standalone(dir, "next.config.js"@) || mentions_standalone(dir, "next.config.ts"@)
        || mentions_standalone(dir, "next.config.mjs"@)
}

fn mentions(dir: &Snapshot, name: &str) -> (r: bool)
    ensures
        r == mentions_standalone(dir, name@),
{
    match dir.read(name) {
        Some(text) => contains_text(text.as_str(), "standalone"),
        None => false,
    }
}

fn check_next_standalone(dir: &Snapshot) -> (r: bool)
    ensures
        r == has_standalone(dir),
{
    mentions(dir, "next.config.js") || mentions(dir, "next.config.ts") || mentions(
        dir,
        "next.config.mjs",
    )
}

/// The stage that runs the standalone server.
pub open spec fn next_runner(image: Seq<char>, port: u16) -> DockerStageView {
    app_stage(
        None,
        image,
        seq![
            "ENV NODE_ENV=production"@,
            "COPY --from=builder /app/public ./public"@,
            "COPY --from=builder /app/.next/standalone ./"@,
            "COPY --from=builder /app/.next/static ./.next/static"@,
        ],
        Some(port),
        Some(seq!["node"@, "server.js"@]),
    )
}

/// What is noted where the standalone output is not configured.
pub open spec fn next_notes(dir: &Snapshot) -> Seq<Seq<char>> {
    if has_standalone(dir) {
        Seq::empty()
    } else {
        seq!["Add `output: 'standalone'` to next.config.js/ts for optimal Docker builds"@]
    }
}

/// What a scan says of a directory as a Next.js project: a project whose
/// package file depends on `next`.
pub open spec fn nextjs_info(dir: &Snapshot) -> Option<SourceInfoView> {
    match package_of(dir) {
        None => None,
        Some(pkg) => if !pkg.has_dep("next"@) {
            None
        } else {
            let pm = package_manager_of(dir);
            let image = node_image(node_version_of(dir, pkg));
            let port = server_port(pkg);
            Some(
                node_source(
                    "Next.js"@,
                    Framework::NextJs,
                    node_version_of(dir, pkg),
                    port,
                    production_env(),
                    install_of(dir),
                    Some(build_script(pm)),
                    "node server.js"@,
                    pm,
                    seq![
                        deps_stage(image, pm, install_of(dir)),
                        build_on_deps_stage(image, pm),
                        next_runner(image, port),
                    ],
                    next_notes(dir),
                ),
            )
        },
    }
}

pub fn scan_nextjs(dir: &Snapshot) -> (info: Option<SourceInfo>)
    ensures
        matches_info(info, nextjs_info(dir)),
{
    let pkg = match read_package_json(dir) {
        Some(p) => p,
        None => {
            return None;
        },
    };
    if !has_dep(&pkg, "next") {
        return None;
    }
    let (pm, install_cmd) = detect_package_manager(dir);
    let version = detect_node_version(dir, &pkg);
    let image = image_of(version.as_str());
    let port = detect_port(&pkg);
    let mut run: Vec<String> = Vec::new();
    run.push("ENV NODE_ENV=production".to_owned());
    run.push("COPY --from=builder /app/public ./public".to_owned());
    run.push("COPY --from=builder /app/.next/standalone ./".to_owned());
    run.push("COPY --from=builder /app/.next/static ./.next/static".to_owned());
    assert(views(run@) =~= next_runner(image@, port).instructions);
    let cmd = owned(&vec!["node", "server.js"]);
    assert(views(cmd@) =~= seq!["node"@, "server.js"@]);
    let mut stages: Vec<DockerStage> = Vec::new();
    stages.push(make_deps_stage(image.as_str(), pm.as_str(), install_cmd.as_str()));
    stages.push(make_build_on_deps_stage(image.as_str(), pm.as_str()));
    stages.push(make_stage(None, image.as_str(), run, Some(port), Some(cmd)));
    assert(stages.deep_view() =~= seq![
        deps_stage(image@, pm@, install_cmd@),
        build_on_deps_stage(image@, pm@),
        next_runner(image@, port),
    ]);
    let mut notes: Vec<String> = Vec::new();
    if !check_next_standalone(dir) {
        notes.push(
            "Add `output: 'standalone'` to next.config.js/ts for optimal Docker builds".to_owned(),
        );
    }
    assert(views(notes@) =~= next_notes(dir));
    let build = build_of(pm.as_str());
    Some(
        describe(
            "Next.js",
            Framework::NextJs,
            version,
            port,
            production(),
            install_cmd,
            Some(build),
            "node server.js".to_owned(),
            pm,
            stages,
            notes,
        ),
    )
}

// ---------------------------------------------------------------------------
// Nuxt
// ---------------------------------------------------------------------------

/// The stage that runs the built output.
pub open spec fn nuxt_runner(image: Seq<char>, port: u16) -> DockerStageView {
    app_stage(
        None,
        image,
        seq!["COPY --from=builder /app/.output ./"@],
        Some(port),
        Some(seq!["node"@, "server/index.mjs"@]),
    )
}

/// What a scan says of a directory as a Nuxt project: a project whose
/// package file depends on `nuxt`.
pub open spec fn nuxtjs_info(dir: &Snapshot) -> Option<SourceInfoView> {
    match package_of(dir) {
        None => None,
        Some(pkg) => if !pkg.has_dep("nuxt"@) {
            None
        } else {
            let pm = package_manager_of(dir);
            let image = node_image(node_version_of(dir, pkg));
            let port = server_port(pkg);
            Some(
                node_source(
                    "Nuxt"@,
                    Framework::NuxtJs,
                    node_version_of(dir, pkg),
                    port,
                    production_env(),
                    install_of(dir),
                    Some(build_script(pm)),
                    "node server/index.mjs"@,
                    pm,
                    seq![
                        install_and_build_stage(image, pm, install_of(dir)),
                        nuxt_runner(image, port),
                    ],
                    Seq::empty(),
                ),
            )
        },
    }
}

pub fn scan_nuxtjs(dir: &Snapshot) -> (info: Option<SourceInfo>)
    ensures
        matches_info(info, nuxtjs_info(dir)),
{
    let pkg = match read_package_json(dir) {
        Some(p) => p,
        None => {
            return None;
        },
    };
    if !has_dep(&pkg, "nuxt") {
        return None;
    }
    let (pm, install_cmd) = detect_package_manager(dir);
    let version = detect_node_version(dir, &pkg);
    let image = image_of(version.as_str());
    let port = detect_port(&pkg);
    let run = owned(&vec!["COPY --from=builder /app/.output ./"]);
    assert(views(run@) =~= seq!["COPY --from=builder /app/.output ./"@]);
    let cmd = owned(&vec!["node", "server/index.mjs"]);
    assert(views(cmd@) =~= seq!["node"@, "server/index.mjs"@]);
    let mut stages: Vec<DockerStage> = Vec::new();
    stages.push(make_install_and_build_stage(image.as_str(), pm.as_str(), install_cmd.as_str()));
    stages.push(make_stage(None, image.as_str(), run, Some(port), Some(cmd)));
    assert(stages.deep_view() =~= seq![
        install_and_build_stage(image@, pm@, install_cmd@),
        nuxt_runner(image@, port),
    ]);
    let notes: Vec<String> = Vec::new();
    assert(views(notes@) =~= Seq::<Seq<char>>::empty());
    let build = build_of(pm.as_str());
    Some(
        describe(
            "Nuxt",
            Framework::NuxtJs,
            version,
            port,
            production(),
            install_cmd,
            Some(build),
            "node server/index.mjs".to_owned(),
            pm,
            stages,
            notes,
        ),
    )
}

// ---------------------------------------------------------------------------
// Remix
// ---------------------------------------------------------------------------

/// Whether a package depends on Remix.
pub open spec fn is_remix(pkg: PackageFacts) -> bool {
    pkg.has_dep("@remix-run/node"@) || pkg.has_dep("@remix-run/react"@) || pkg.has_dep("remix"@)
}

/// The stage that runs the start script over the build.
pub open spec fn remix_runner(image: Seq<char>, pm: Seq<char>, port: u16) -> DockerStageView {
    app_stage(
        None,
        image,
        seq![
            "ENV NODE_ENV=production"@,
            "COPY --from=deps /app/node_modules ./node_modules"@,
            "COPY --from=builder /app/build ./build"@,
            "COPY --from=builder /app/public ./public"@,
            "COPY --from=builder /app/package.json ./"@,
        ],
        Some(port),
        Some(seq![pm, "run"@, "start"@]),
    )
}

/// What a scan says of a directory as a Remix project.
pub open spec fn remix_info(dir: &Snapshot) -> Option<SourceInfoView> {
    match package_of(dir) {
        None => None,
        Some(pkg) => if !is_remix(pkg) {
            None
        } else {
            let pm = package_manager_of(dir);
            let image = node_image(node_version_of(dir, pkg));
            let port = server_port(pkg);
            Some(
                node_source(
                    "Remix"@,
                    Framework::RemixJs,
                    node_version_of(dir, pkg),
                    port,
                    production_env(),
                    install_of(dir),
                    Some(build_script(pm)),
                    start_script(pm),
                    pm,
                    seq![
                        deps_stage(image, pm, install_of(dir)),
                        build_on_deps_stage(image, pm),
                        remix_runner(image, pm, port),
                    ],
                    Seq::empty(),
                ),
            )
        },
    }
}

pub fn scan_remix(dir: &Snapshot) -> (info: Option<SourceInfo>)
    ensures
        matches_info(info, remix_info(dir)),
{
    let pkg = match read_package_json(dir) {
        Some(p) => p,
        None => {
            return None;
        },
    };
    let remix = has_dep(&pkg, "@remix-run/node") || has_dep(&pkg, "@remix-run/react") || has_dep(
        &pkg,
        "remix",
    );
    if !remix {
        return None;
    }
    let (pm, install_cmd) = detect_package_manager(dir);
    let version = detect_node_version(dir, &pkg);
    let image = image_of(version.as_str());
    let port = detect_port(&pkg);
    let run = owned(
        &vec![
            "ENV NODE_ENV=production",
            "COPY --from=deps /app/node_modules ./node_modules",
            "COPY --from=builder /app/build ./build",
            "COPY --from=builder /app/public ./public",
            "COPY --from=builder /app/package.json ./",
        ],
    );
    assert(views(run@) =~= remix_runner(image@, pm@, port).instructions);
    let mut cmd: Vec<String> = Vec::new();
    cmd.push(pm.clone());
    cmd.push("run".to_owned());
    cmd.push("start".to_owned());
    assert(views(cmd@) =~= seq![pm@, "run"@, "start"@]);
    let mut stages: Vec<DockerStage> = Vec::new();
    stages.push(make_deps_stage(image.as_str(), pm.as_str(), install_cmd.as_str()));
    stages.push(make_build_on_deps_stage(image.as_str(), pm.as_str()));
    stages.push(make_stage(None, image.as_str(), run, Some(port), Some(cmd)));
    assert(stages.deep_view() =~= seq![
        deps_stage(image@, pm@, install_cmd@),
        build_on_deps_stage(image@, pm@),
        remix_runner(image@, pm@, port),
    ]);
    let notes: Vec<String> = Vec::new();
    assert(views(notes@) =~= Seq::<Seq<char>>::empty());
    let build = build_of(pm.as_str());
    let start = start_of(pm.as_str());
    Some(
        describe(
            "Remix",
            Framework::RemixJs,
            version,
            port,
            production(),
            install_cmd,
            Some(build),
            start,
            pm,
            stages,
            notes,
        ),
    )
}

// ---------------------------------------------------------------------------
// Vite
// ---------------------------------------------------------------------------

/// Whether a package is a single-page application built with Vite: it
/// depends on `vite` and on no server framework.
pub open spec fn is_vite_spa(pkg: PackageFacts) -> bool {
    &&& pkg.has_dev_dep("vite"@) || pkg.has_dep("vite"@)
    &&& !pkg.has_dep("next"@)
    &&& !pkg.has_dep("nuxt"@)
    &&& !pkg.has_dep("@remix-run/node"@)
    &&& !pkg.has_dep("express"@)
    &&& !pkg.has_dep("fastify"@)
    &&& !pkg.has_dep("hono"@)
}

/// What a scan says of a directory as a Vite application: built with
/// Node.js, served as a static site.
pub open spec fn vite_spa_info(dir: &Snapshot) -> Option<SourceInfoView> {
    match package_of(dir) {
        None => None,
        Some(pkg) => if !is_vite_spa(pkg) {
            None
        } else {
            let pm = package_manager_of(dir);
            let image = node_image(node_version_of(dir, pkg));
            Some(
                node_source(
                    "Vite SPA"@,
                    Framework::ViteSpa,
                    node_version_of(dir, pkg),
                    80,
                    Seq::empty(),
                    install_of(dir),
                    Some(build_script(pm)),
                    "nginx -g 'daemon off;'"@,
                    pm,
                    seq![
                        install_and_build_stage(image, pm, install_of(dir)),
                        super::static_site::web_server_stage("COPY --from=builder /app/dist ."@),
                    ],
                    Seq::empty(),
                ),
            )
        },
    }
}

pub fn scan_vite_spa(dir: &Snapshot) -> (info: Option<SourceInfo>)
    ensures
        matches_info(info, vite_spa_info(dir)),
{
    let pkg = match read_package_json(dir) {
        Some(p) => p,
        None => {
            return None;
        },
    };
    let has_vite = has_dev_dep(&pkg, "vite") || has_dep(&pkg, "vite");
    if !has_vite {
        return None;
    }
    if has_dep(&pkg, "next") || has_dep(&pkg, "nuxt") || has_dep(&pkg, "@remix-run/node")
        || has_dep(&pkg, "express") || has_dep(&pkg, "fastify") || has_dep(&pkg, "hono") {
        return None;
    }
    let (pm, install_cmd) = detect_package_manager(dir);
    let version = detect_node_version(dir, &pkg);
    let image = image_of(version.as_str());
    let mut stages: Vec<DockerStage> = Vec::new();
    stages.push(make_install_and_build_stage(image.as_str(), pm.as_str(), install_cmd.as_str()));
    stages.push(super::static_site::serve_stage("COPY --from=builder /app/dist ."));
    assert(stages.deep_view() =~= seq![
        install_and_build_stage(image@, pm@, install_cmd@),
        super::static_site::web_server_stage("COPY --from=builder /app/dist ."@),
    ]);
    let notes: Vec<String> = Vec::new();
    assert(views(notes@) =~= Seq::<Seq<char>>::empty());
    let env: Vec<(String, String)> = Vec::new();
    assert(pair_views(env@) =~= Seq::<(Seq<char>, Seq<char>)>::empty());
    let build = build_of(pm.as_str());
    Some(
        describe(
            "Vite SPA",
            Framework::ViteSpa,
            version,
            80,
            env,
            install_cmd,
            Some(build),
            "nginx -g 'daemon off;'".to_owned(),
            pm,
            stages,
            notes,
        ),
    )
}

// ---------------------------------------------------------------------------
// Any other Node.js project
// ---------------------------------------------------------------------------

/// The command that starts a project: its start script, else its main
/// file, else `index.js`.
pub open spec fn generic_start(pkg: PackageFacts, pm: Seq<char>) -> Seq<char> {
    if pkg.has_script("start"@) {
        start_script(pm)
    } else {
        match pkg.main_file() {
            Some(file) => "node "@ + file,
            None => "node index.js"@,
        }
    }
}

/// The instructions of the single stage: install, copy, and build where
/// there is a build script.
pub open spec fn generic_instructions(pkg: PackageFacts, pm: Seq<char>, install: Seq<char>) -> Seq<
    Seq<char>,
> {
    seq![lockfile_copy_of(pm), "RUN "@ + install, "COPY . ."@] + (if pkg.has_script("build"@) {
        seq!["RUN "@ + build_script(pm)]
    } else {
        Seq::<Seq<char>>::empty()
    })
}

/// What a scan says of a directory as a Node.js project: any directory
/// with a package file.
pub open spec fn generic_info(dir: &Snapshot) -> Option<SourceInfoView> {
    match package_of(dir) {
        None => None,
        Some(pkg) => {
            let pm = package_manager_of(dir);
            let image = node_image(node_version_of(dir, pkg));
            let port = server_port(pkg);
            let start = generic_start(pkg, pm);
            Some(
                node_source(
                    "Node.js"@,
                    Framework::GenericNode,
                    node_version_of(dir, pkg),
                    port,
                    production_env(),
                    install_of(dir),
                    if pkg.has_script("build"@) {
                        Some(build_script(pm))
                    } else {
                        None
                    },
                    start,
                    pm,
                    seq![
                        app_stage(
                            None,
                            image,
                            generic_instructions(pkg, pm, install_of(dir)),
                            Some(port),
                            Some(words_of(start)),
                        ),
                    ],
                    Seq::empty(),
                ),
            )
        },
    }
}

pub fn scan_generic(dir: &Snapshot) -> (info: Option<SourceInfo>)
    ensures
        matches_info(info, generic_info(dir)),
{
    let pkg = match read_package_json(dir) {
        Some(p) => p,
        None => {
            return None;
        },
    };
    let (pm, install_cmd) = detect_package_manager(dir);
    let version = detect_node_version(dir, &pkg);
    let image = image_of(version.as_str());
    let port = detect_port(&pkg);
    let start_cmd = if has_nested_key(&pkg, "scripts", "start") {
        start_of(pm.as_str())
    } else {
        match string_member(&pkg, "main") {
            Some(file) => {
                let mut cmd = "node ".to_owned();
                cmd.append(file.as_str());
                cmd
            },
            None => "node index.js".to_owned(),
        }
    };
    let has_build = has_nested_key(&pkg, "scripts", "build");
    let mut instructions: Vec<String> = Vec::new();
    instructions.push(lockfile_copy(pm.as_str()).to_owned());
    instructions.push(run_line(install_cmd.as_str()));
    instructions.push("COPY . .".to_owned());
    if has_build {
        instructions.push(run_line(build_of(pm.as_str()).as_str()));
    }
    assert(views(instructions@) =~= generic_instructions(facts_of(pkg), pm@, install_cmd@));
    let cmd = words(start_cmd.as_str());
    let mut stages: Vec<DockerStage> = Vec::new();
    stages.push(make_stage(None, image.as_str(), instructions, Some(port), Some(cmd)));
    assert(stages.deep_view() =~= seq![
        app_stage(
            None,
            image@,
            generic_instructions(facts_of(pkg), pm@, install_cmd@),
            Some(port),
            Some(words_of(start_cmd@)),
        ),
    ]);
    let notes: Vec<String> = Vec::new();
    assert(views(notes@) =~= Seq::<Seq<char>>::empty());
    let build = if has_build {
        Some(build_of(pm.as_str()))
    } else {
        None
    };
    Some(
        describe(
            "Node.js",
            Framework::GenericNode,
            version,
            port,
            production(),
            install_cmd,
            build,
            start_cmd,
            pm,
            stages,
            notes,
        ),
    )
}

} // verus!
