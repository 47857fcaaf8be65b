//! The scanner of Go modules.

use super::static_site::shared_ignores;
use super::{
    common_ignores, matches_scan, DockerStage, DockerStageView, Framework, Snapshot, SourceInfo,
    SourceInfoView, Unreadable,
};
use crate::text::{
    has_prefix, lines, lines_of, split, split_of, starts_with, trim,
    trim_start_matches, trimmed, views, without_leading,
};
use vstd::prelude::*;

verus! {

/// The first line that, without the white space around it, begins with
/// `prefix`; the line is returned without that white space.
pub open spec fn first_line_with(lines: Seq<Seq<char>>, prefix: Seq<char>) -> Option<Seq<char>>
    decreases lines.len(),
{
    if lines.len() == 0 {
        None
    } else if has_prefix(trimmed(lines[0]), prefix) {
        Some(trimmed(lines[0]))
    } else {
        first_line_with(lines.skip(1), prefix)
    }
}

/// The first line of a text that begins with `prefix`.
pub fn find_line(text: &str, prefix: &str) -> (r: Option<String>)
    ensures
        crate::text::opt_text(r) == first_line_with(lines_of(text@), prefix@),
{
    let all = lines(text);
    let mut i: usize = 0;
    assert(views(all@).skip(0) =~= views(all@));
    while i < all.len()
        invariant
            i <= all.len(),
            views(all@) == lines_of(text@),
            first_line_with(views(all@), prefix@) == first_line_with(
                views(all@).skip(i as int),
                prefix@,
            ),
        decreases all.len() - i,
    {
        proof {
            let t = views(all@).skip(i as int);
            assert(t[0] == all@[i as int]@);
            assert(t.skip(1) =~= views(all@).skip(i + 1));
        }
        let line = trim(all[i].as_str());
        if starts_with(line.as_str(), prefix) {
            return Some(line);
        }
        i += 1;
    }
    None
}

/// The first two parts of a dotted version, or the version itself where it
/// has fewer.
pub open spec fn major_minor(version: Seq<char>) -> Seq<char> {
    let parts = split_of(version, '.');
    if parts.len() >= 2 {
        parts[0] + "."@ + parts[1]
    } else {
        version
    }
}

pub fn shorten_version(version: &str) -> (short: String)
    ensures
        short@ == major_minor(version@),
{
    let parts = split(version, '.');
    if parts.len() >= 2 {
        let mut short = parts[0].clone();
        short.append(".");
        short.append(parts[1].as_str());
        short
    } else {
        version.to_owned()
    }
}

/// The Go version of a module file: major and minor of its `go` line, 1.22
/// where it has none.
pub open spec fn go_version_of(go_mod: Seq<char>) -> Seq<char> {
    match first_line_with(lines_of(go_mod), "go "@) {
        Some(line) => major_minor(trimmed(without_leading(line, "go "@))),
        None => "1.22"@,
    }
}

pub fn detect_go_version(go_mod: &str) -> (version: String)
    ensures
        version@ == go_version_of(go_mod@),
{
    match find_line(go_mod, "go ") {
        Some(line) => {
            let ver = trim(trim_start_matches(line.as_str(), "go ").as_str());
            shorten_version(ver.as_str())
        },
        None => "1.22".to_owned(),
    }
}

/// The module path of a module file, `app` where it has no `module` line.
pub open spec fn module_name_of(go_mod: Seq<char>) -> Seq<char> {
    match first_line_with(lines_of(go_mod), "module "@) {
        Some(line) => trimmed(without_leading(line, "module "@)),
        None => "app"@,
    }
}

pub fn detect_module_name(go_mod: &str) -> (name: String)
    ensures
        name@ == module_name_of(go_mod@),
{
    match find_line(go_mod, "module ") {
        Some(line) => trim(trim_start_matches(line.as_str(), "module ").as_str()),
        None => "app".to_owned(),
    }
}

/// The last part of a path: what follows its last slash.
pub open spec fn last_part(path: Seq<char>) -> Seq<char> {
    split_of(path, '/').last()
}

pub proof fn lemma_split_not_empty(s: Seq<char>, sep: char)
    ensures
        split_of(s, sep).len() >= 1,
    decreases s.len(),
{
    crate::text::lemma_find_char(s, sep);
    let i = crate::text::find_char(s, sep);
    if 0 <= i < s.len() {
        lemma_split_not_empty(s.skip(i + 1), sep);
    }
}

pub fn last_path_part(path: &str) -> (part: String)
    ensures
        part@ == last_part(path@),
{
    let mut parts = split(path, '/');
    proof {
        lemma_split_not_empty(path@, '/');
    }
    let ghost all = views(parts@);
    let last = parts.pop();
    match last {
        Some(part) => {
            assert(part@ == all.last());
            part
        },
        None => String::new(),
    }
}

/// The stage that builds the module.
pub open spec fn go_builder(version: Seq<char>, binary: Seq<char>, has_sum: bool) -> DockerStageView {
    DockerStageView {
        name: Some("builder"@),
        base_image: "golang:"@ + version + "-alpine"@,
        workdir: "/app"@,
        instructions: seq![
            "COPY go.mod go.sum"@ + (if has_sum {
                Seq::<char>::empty()
            } else {
                "*"@
            }) + " ./"@,
            "RUN go mod download"@,
            "COPY . ."@,
            "RUN CGO_ENABLED=0 go build -o "@ + binary + " ."@,
        ],
        expose: None,
        cmd: None,
    }
}

/// The stage that runs the binary.
pub open spec fn go_runner(binary: Seq<char>) -> DockerStageView {
    DockerStageView {
        name: None,
        base_image: "alpine:3.20"@,
        workdir: "/app"@,
        instructions: seq![
            "RUN apk add --no-cache ca-certificates"@,
            "COPY --from=builder /app/"@ + binary + " ."@,
        ],
        expose: Some(8080u16),
        cmd: Some(seq!["./"@ + binary]),
    }
}

/// What a scan says of a Go module, given the text of its module file and
/// whether its checksums are there.
pub open spec fn go_info_of(go_mod: Seq<char>, has_sum: bool) -> SourceInfoView {
    let version = go_version_of(go_mod);
    let binary = last_part(module_name_of(go_mod));
    SourceInfoView {
        family: "Go"@,
        framework: Framework::Go,
        version: Some(version),
        port: 8080,
        env_vars: Seq::empty(),
        build_args: Seq::empty(),
        install_cmd: "go mod download"@,
        build_cmd: Some("CGO_ENABLED=0 go build -o "@ + binary + " ."@),
        start_cmd: "./"@ + binary,
        binary_name: Some(binary),
        entry_point: None,
        package_manager: None,
        has_lockfile: has_sum,
        dockerfile_stages: seq![go_builder(version, binary, has_sum), go_runner(binary)],
        dockerignore_entries: common_ignores(),
        notes: Seq::empty(),
    }
}

/// A directory is a Go module where its module file is there. A module
/// file that is there and cannot be read fails the scan.
pub open spec fn go_info(dir: &Snapshot) -> Result<Option<SourceInfoView>, Seq<char>> {
    if !dir.holds("go.mod"@) {
        Ok(None)
    } else {
        match dir.text_of("go.mod"@) {
            Some(text) => Ok(Some(go_info_of(text, dir.holds("go.sum"@)))),
            None => Err("go.mod"@),
        }
    }
}

fn builder_stage(version: &str, binary: &str, has_sum: bool) -> (stage: DockerStage)
    ensures
        stage@ == go_builder(version@, binary@, has_sum),
{
    let mut base = "golang:".to_owned();
    base.append(version);
    base.append("-alpine");
    let mut copy = "COPY go.mod go.sum".to_owned();
    if !has_sum {
        copy.append("*");
    }
    copy.append(" ./");
    let mut build = "RUN CGO_ENABLED=0 go build -o ".to_owned();
    build.append(binary);
    build.append(" .");
    let mut instructions: Vec<String> = Vec::new();
    instructions.push(copy);
    instructions.push("RUN go mod download".to_owned());
    instructions.push("COPY . .".to_owned());
    instructions.push(build);
    assert(views(instructions@) =~= go_builder(version@, binary@, has_sum).instructions);
    DockerStage {
        name: Some("builder".to_owned()),
        base_image: base,
        workdir: "/app".to_owned(),
        instructions,
        expose: None,
        cmd: None,
    }
}

fn runner_stage(binary: &str) -> (stage: DockerStage)
    ensures
        stage@ == go_runner(binary@),
{
    let mut copy = "COPY --from=builder /app/".to_owned();
    copy.append(binary);
    copy.append(" .");
    let mut instructions: Vec<String> = Vec::new();
    instructions.push("RUN apk add --no-cache ca-certificates".to_owned());
    instructions.push(copy);
    assert(views(instructions@) =~= go_runner(binary@).instructions);
    let mut run = "./".to_owned();
    run.append(binary);
    let mut cmd: Vec<String> = Vec::new();
    cmd.push(run);
    assert(views(cmd@) =~= seq!["./"@ + binary@]);
    DockerStage {
        name: None,
        base_image: "alpine:3.20".to_owned(),
        workdir: "/app".to_owned(),
        instructions,
        expose: Some(8080),
        cmd: Some(cmd),
    }
}

pub fn scan(dir: &Snapshot) -> (info: Result<Option<SourceInfo>, Unreadable>)
    ensures
        matches_scan(info, go_info(dir)),
{
    if !dir.has_file("go.mod") {
        return Ok(None);
    }
    let go_mod = match dir.read("go.mod") {
        Some(text) => text,
        None => {
            return Err(Unreadable { file: "go.mod".to_owned() });
        },
    };
    let version = detect_go_version(go_mod.as_str());
    let module = detect_module_name(go_mod.as_str());
    let binary = last_path_part(module.as_str());
    let has_sum = dir.has_file("go.sum");
    let mut stages: Vec<DockerStage> = Vec::new();
    stages.push(builder_stage(version.as_str(), binary.as_str(), has_sum));
    stages.push(runner_stage(binary.as_str()));
    assert(stages.deep_view() =~= seq![
        go_builder(version@, binary@, has_sum),
        go_runner(binary@),
    ]);
    let mut build = "CGO_ENABLED=0 go build -o ".to_owned();
    build.append(binary.as_str());
    build.append(" .");
    let mut start = "./".to_owned();
    start.append(binary.as_str());
    let info = SourceInfo {
        family: "Go".to_owned(),
        framework: Framework::Go,
        version: Some(version),
        port: 8080,
        env_vars: Vec::new(),
        build_args: Vec::new(),
        install_cmd: "go mod download".to_owned(),
        build_cmd: Some(build),
        start_cmd: start,
        binary_name: Some(binary),
        entry_point: None,
        package_manager: None,
        has_lockfile: has_sum,
        dockerfile_stages: stages,
        dockerignore_entries: shared_ignores(),
        notes: Vec::new(),
    };
    proof {
        assert(info@.env_vars =~= Seq::empty());
        assert(info@.build_args =~= Seq::empty());
        assert(info@.notes =~= Seq::empty());
    }
    Ok(Some(info))
}

} // verus!
