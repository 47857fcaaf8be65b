//! The scanner of Rust packages.

use super::{
    matches_scan, DockerStage, DockerStageView, Framework, Snapshot, SourceInfo, SourceInfoView,
    Unreadable,
};
use crate::text::{
    has_prefix, lines, lines_of, owned, same_text, split, split_of, starts_with, trim,
    trim_matches, trimmed, views, without_char_around,
};
use vstd::prelude::*;

verus! {

/// The value of a line `key = "value"`: what stands between the first and
/// the second equals sign, without the white space and the quotes around
/// it; `None` for a line without an equals sign.
pub open spec fn toml_string_of(line: Seq<char>) -> Option<Seq<char>> {
    let parts = split_of(line, '=');
    if parts.len() >= 2 {
        Some(without_char_around(without_char_around(trimmed(parts[1]), '"'), '\''))
    } else {
        None
    }
}

pub fn extract_toml_string(line: &str) -> (value: Option<String>)
    ensures
        crate::text::opt_text(value) == toml_string_of(line@),
{
    let parts = split(line, '=');
    if parts.len() >= 2 {
        let val = trim(parts[1].as_str());
        let val = trim_matches(val.as_str(), '"');
        Some(trim_matches(val.as_str(), '\''))
    } else {
        None
    }
}

/// The name in the first section headed `header`: the value of the first
/// line that begins with `name` between a header line and the next line
/// that opens a table. `inside` says whether the lines begin within such a
/// section.
pub open spec fn name_in_section(lines: Seq<Seq<char>>, header: Seq<char>, inside: bool) -> Option<
    Seq<char>,
>
    decreases lines.len(),
{
    if lines.len() == 0 {
        None
    } else {
        let line = trimmed(lines[0]);
        if line == header {
            name_in_section(lines.skip(1), header, true)
        } else if inside && has_prefix(line, "name"@) && toml_string_of(line) is Some {
            toml_string_of(line)
        } else {
            name_in_section(lines.skip(1), header, inside && !has_prefix(line, "["@))
        }
    }
}

fn section_name(all: &Vec<String>, header: &str) -> (name: Option<String>)
    ensures
        crate::text::opt_text(name) == name_in_section(views(all@), header@, false),
{
    let mut inside = false;
    let mut i: usize = 0;
    assert(views(all@).skip(0) =~= views(all@));
    while i < all.len()
        invariant
            i <= all.len(),
            name_in_section(views(all@), header@, false) == name_in_section(
                views(all@).skip(i as int),
                header@,
                inside,
            ),
        decreases all.len() - i,
    {
        proof {
            let t = views(all@).skip(i as int);
            assert(t[0] == all@[i as int]@);
            assert(t.skip(1) =~= views(all@).skip(i + 1));
        }
        let line = trim(all[i].as_str());
        if same_text(line.as_str(), header) {
            inside = true;
        } else {
            if inside && starts_with(line.as_str(), "name") {
                match extract_toml_string(line.as_str()) {
                    Some(name) => {
                        return Some(name);
                    },
                    None => {},
                }
            }
            if starts_with(line.as_str(), "[") && inside {
                inside = false;
            }
        }
        i += 1;
    }
    None
}

/// The name of the binary of a package: that of its first `[[bin]]`
/// section, else that of its `[package]` section, else `app`.
pub open spec fn binary_name_of(cargo_toml: Seq<char>) -> Seq<char> {
    match name_in_section(lines_of(cargo_toml), "[[bin]]"@, false) {
        Some(name) => name,
        None => match name_in_section(lines_of(cargo_toml), "[package]"@, false) {
            Some(name) => name,
            None => "app"@,
        },
    }
}

pub fn detect_binary_name(cargo_toml: &str) -> (name: String)
    ensures
        name@ == binary_name_of(cargo_toml@),
{
    let all = lines(cargo_toml);
    match section_name(&all, "[[bin]]") {
        Some(name) => name,
        None => match section_name(&all, "[package]") {
            Some(name) => name,
            None => "app".to_owned(),
        },
    }
}

/// The stage that builds the package: the dependencies first, against an
/// empty program, so that they are cached; then the package itself.
pub open spec fn rust_builder(has_lock: bool) -> DockerStageView {
    DockerStageView {
        name: Some("builder"@),
        base_image: "rust:1-slim"@,
        workdir: "/app"@,
        instructions: seq![
            "COPY Cargo.toml Cargo.lock"@ + (if has_lock {
                Seq::<char>::empty()
            } else {
                "*"@
            }) + " ./"@,
            "RUN mkdir src && echo 'fn main(){}' > src/main.rs && cargo build --release && rm -rf src"@,
            "COPY . ."@,
            "RUN cargo build --release"@,
        ],
        expose: None,
        cmd: None,
    }
}

/// The stage that runs the binary.
pub open spec fn rust_runner(binary: Seq<char>) -> DockerStageView {
    DockerStageView {
        name: None,
        base_image: "debian:bookworm-slim"@,
        workdir: "/app"@,
        instructions: seq![
            "RUN apt-get update && apt-get install -y ca-certificates && rm -rf /var/lib/apt/lists/*"@,
            "COPY --from=builder /app/target/release/"@ + binary + " ."@,
        ],
        expose: Some(8080u16),
        cmd: Some(seq!["./"@ + binary]),
    }
}

/// What a scan says of a Rust package, given the text of its manifest and
/// whether its lock file is there.
pub open spec fn rust_info_of(cargo_toml: Seq<char>, has_lock: bool) -> SourceInfoView {
    let binary = binary_name_of(cargo_toml);
    SourceInfoView {
        family: "Rust"@,
        framework: Framework::Rust,
        version: None,
        port: 8080,
        env_vars: Seq::empty(),
        build_args: Seq::empty(),
        install_cmd: "cargo build --release"@,
        build_cmd: Some("cargo build --release"@),
        start_cmd: "./"@ + binary,
        binary_name: Some(binary),
        entry_point: None,
        package_manager: Some("cargo"@),
        has_lockfile: has_lock,
        dockerfile_stages: seq![rust_builder(has_lock), rust_runner(binary)],
        dockerignore_entries: seq![
            "target"@,
            ".git"@,
            "*.md"@,
            ".env*"@,
            ".vscode"@,
            ".idea"@,
        ],
        notes: Seq::empty(),
    }
}

/// A directory is a Rust package where its manifest is there. A manifest
/// that is there and cannot be read fails the scan.
pub open spec fn rust_info(dir: &Snapshot) -> Result<Option<SourceInfoView>, Seq<char>> {
    if !dir.holds("Cargo.toml"@) {
        Ok(None)
    } else {
        match dir.text_of("Cargo.toml"@) {
            Some(text) => Ok(Some(rust_info_of(text, dir.holds("Cargo.lock"@)))),
            None => Err("Cargo.toml"@),
        }
    }
}

fn builder_stage(has_lock: bool) -> (stage: DockerStage)
    ensures
        stage@ == rust_builder(has_lock),
{
    let mut copy = "COPY Cargo.toml Cargo.lock".to_owned();
    if !has_lock {
        copy.append("*");
    }
    copy.append(" ./");
    let mut instructions: Vec<String> = Vec::new();
    instructions.push(copy);
    instructions.push(
        "RUN mkdir src && echo 'fn main(){}' > src/main.rs && cargo build --release && rm -rf src".to_owned(),
    );
    instructions.push("COPY . .".to_owned());
    instructions.push("RUN cargo build --release".to_owned());
    assert(views(instructions@) =~= rust_builder(has_lock).instructions);
    DockerStage {
        name: Some("builder".to_owned()),
        base_image: "rust:1-slim".to_owned(),
        workdir: "/app".to_owned(),
        instructions,
        expose: None,
        cmd: None,
    }
}

fn runner_stage(binary: &str) -> (stage: DockerStage)
    ensures
        stage@ == rust_runner(binary@),
{
    let mut copy = "COPY --from=builder /app/target/release/".to_owned();
    copy.append(binary);
    copy.append(" .");
    let mut instructions: Vec<String> = Vec::new();
    instructions.push(
        "RUN apt-get update && apt-get install -y ca-certificates && rm -rf /var/lib/apt/lists/*".to_owned(),
    );
    instructions.push(copy);
    assert(views(instructions@) =~= rust_runner(binary@).instructions);
    let mut run = "./".to_owned();
    run.append(binary);
    let mut cmd: Vec<String> = Vec::new();
    cmd.push(run);
    assert(views(cmd@) =~= seq!["./"@ + binary@]);
    DockerStage {
        name: None,
        base_image: "debian:bookworm-slim".to_owned(),
        workdir: "/app".to_owned(),
        instructions,
        expose: Some(8080),
        cmd: Some(cmd),
    }
}

pub fn scan(dir: &Snapshot) -> (info: Result<Option<SourceInfo>, Unreadable>)
    ensures
        matches_scan(info, rust_info(dir)),
{
    if !dir.has_file("Cargo.toml") {
        return Ok(None);
    }
    let cargo_toml = match dir.read("Cargo.toml") {
        Some(text) => text,
        None => {
            return Err(Unreadable { file: "Cargo.toml".to_owned() });
        },
    };
    let binary = detect_binary_name(cargo_toml.as_str());
    let has_lock = dir.has_file("Cargo.lock");
    let mut stages: Vec<DockerStage> = Vec::new();
    stages.push(builder_stage(has_lock));
    stages.push(runner_stage(binary.as_str()));
    assert(stages.deep_view() =~= seq![rust_builder(has_lock), rust_runner(binary@)]);
    let mut start = "./".to_owned();
    start.append(binary.as_str());
    let ignore = owned(&vec!["target", ".git", "*.md", ".env*", ".vscode", ".idea"]);
    assert(views(ignore@) =~= seq!["target"@, ".git"@, "*.md"@, ".env*"@, ".vscode"@, ".idea"@]);
    let info = SourceInfo {
        family: "Rust".to_owned(),
        framework: Framework::Rust,
        version: None,
        port: 8080,
        env_vars: Vec::new(),
        build_args: Vec::new(),
        install_cmd: "cargo build --release".to_owned(),
        build_cmd: Some("cargo build --release".to_owned()),
        start_cmd: start,
        binary_name: Some(binary),
        entry_point: None,
        package_manager: Some("cargo".to_owned()),
        has_lockfile: has_lock,
        dockerfile_stages: stages,
        dockerignore_entries: ignore,
        notes: Vec::new(),
    };
    proof {
        assert(info@.env_vars =~= Seq::empty());
        assert(info@.build_args =~= Seq::empty());
        assert(info@.notes =~= Seq::empty());
    }
    Ok(Some(info))
}

} // verus!
