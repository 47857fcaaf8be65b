//! Rendering of the files a scan gives rise to.

use super::{DockerStage, SourceInfo};
use crate::text::{
    copy_all, decimal, format_decimal, join, joined, lowercase_of, same_text, to_chars, views,
};
use vstd::prelude::*;

verus! {

/// Each line followed by a line end.
pub open spec fn terminated(lines: Seq<Seq<char>>) -> Seq<char>
    decreases lines.len(),
{
    if lines.len() == 0 {
        Seq::empty()
    } else {
        terminated(lines.drop_last()) + lines.last() + "\n"@
    }
}

/// Each part between double quotes.
pub open spec fn quoted(parts: Seq<Seq<char>>) -> Seq<Seq<char>> {
    Seq::new(parts.len(), |i: int| "\""@ + parts[i] + "\""@)
}

/// The `FROM` line of a stage.
pub open spec fn from_text(stage: &DockerStage) -> Seq<char> {
    match stage.name {
        Some(name) => "FROM "@ + stage.base_image@ + " AS "@ + name@ + "\n"@,
        None => "FROM "@ + stage.base_image@ + "\n"@,
    }
}

/// The `EXPOSE` line of a stage, if it exposes a port.
pub open spec fn expose_text(stage: &DockerStage) -> Seq<char> {
    match stage.expose {
        Some(port) => "EXPOSE "@ + decimal(port as nat) + "\n"@,
        None => Seq::<char>::empty(),
    }
}

/// The `CMD` line of a stage, if it has a command.
pub open spec fn cmd_text(stage: &DockerStage) -> Seq<char> {
    match stage.cmd {
        Some(parts) => "CMD ["@ + joined(quoted(views(parts@)), ", "@) + "]\n"@,
        None => Seq::<char>::empty(),
    }
}

/// The text of one stage: `FROM`, `WORKDIR`, the instructions, then
/// `EXPOSE` and `CMD` where the stage has them.
pub open spec fn stage_text(stage: &DockerStage) -> Seq<char> {
    from_text(stage) + "WORKDIR "@ + stage.workdir@ + "\n"@ + terminated(
        views(stage.instructions@),
    ) + expose_text(stage) + cmd_text(stage)
}

/// The stages one after the other, an empty line between each two.
pub open spec fn dockerfile_text(stages: Seq<DockerStage>) -> Seq<char>
    decreases stages.len(),
{
    if stages.len() == 0 {
        Seq::empty()
    } else if stages.len() == 1 {
        stage_text(&stages[0])
    } else {
        dockerfile_text(stages.drop_last()) + "\n"@ + stage_text(&stages.last())
    }
}

fn render_from(stage: &DockerStage) -> (line: String)
    ensures
        line@ == from_text(stage),
{
    let mut line = "FROM ".to_owned();
    line.append(stage.base_image.as_str());
    match &stage.name {
        Some(name) => {
            line.append(" AS ");
            line.append(name.as_str());
        },
        None => {},
    }
    line.append("\n");
    line
}

fn render_lines(lines: &Vec<String>) -> (text: String)
    ensures
        text@ == terminated(views(lines@)),
{
    let mut text = String::new();
    let mut i: usize = 0;
    while i < lines.len()
        invariant
            i <= lines.len(),
            text@ == terminated(views(lines@).take(i as int)),
        decreases lines.len() - i,
    {
        proof {
            let t = views(lines@).take(i + 1);
            assert(t.drop_last() =~= views(lines@).take(i as int));
            assert(t.last() == lines@[i as int]@);
        }
        text.append(lines[i].as_str());
        text.append("\n");
        i += 1;
    }
    assert(views(lines@).take(lines.len() as int) =~= views(lines@));
    text
}

fn render_expose(stage: &DockerStage) -> (line: String)
    ensures
        line@ == expose_text(stage),
{
    match stage.expose {
        Some(port) => {
            let mut line = "EXPOSE ".to_owned();
            line.append(format_decimal(port as u64).as_str());
            line.append("\n");
            line
        },
        None => String::new(),
    }
}

fn render_cmd(stage: &DockerStage) -> (line: String)
    ensures
        line@ == cmd_text(stage),
{
    match &stage.cmd {
        Some(parts) => {
            let mut quoted_parts: Vec<String> = Vec::new();
            let mut k: usize = 0;
            while k < parts.len()
                invariant
                    k <= parts.len(),
                    views(quoted_parts@) == quoted(views(parts@)).take(k as int),
                decreases parts.len() - k,
            {
                let mut q = "\"".to_owned();
                q.append(parts[k].as_str());
                q.append("\"");
                let ghost before = views(quoted_parts@);
                quoted_parts.push(q);
                assert(views(quoted_parts@) =~= before.push("\""@ + parts@[k as int]@ + "\""@));
                assert(views(quoted_parts@) =~= quoted(views(parts@)).take(k + 1));
                k += 1;
            }
            assert(quoted(views(parts@)).take(parts.len() as int) =~= quoted(views(parts@)));
            let mut line = "CMD [".to_owned();
            line.append(join(&quoted_parts, ", ").as_str());
            line.append("]\n");
            line
        },
        None => String::new(),
    }
}

fn render_stage(out: &mut String, stage: &DockerStage)
    ensures
        final(out)@ == old(out)@ + stage_text(stage),
{
    out.append(render_from(stage).as_str());
    out.append("WORKDIR ");
    out.append(stage.workdir.as_str());
    out.append("\n");
    out.append(render_lines(&stage.instructions).as_str());
    out.append(render_expose(stage).as_str());
    out.append(render_cmd(stage).as_str());
    assert(out@ =~= old(out)@ + stage_text(stage));
}

/// Renders a Dockerfile from the stages of a scan result.
pub fn render_dockerfile(info: &SourceInfo) -> (out: String)
    ensures
        out@ == dockerfile_text(info.dockerfile_stages@),
{
    let mut out = String::new();
    let mut i: usize = 0;
    while i < info.dockerfile_stages.len()
        invariant
            i <= info.dockerfile_stages.len(),
            out@ == dockerfile_text(info.dockerfile_stages@.take(i as int)),
        decreases info.dockerfile_stages.len() - i,
    {
        proof {
            let t = info.dockerfile_stages@.take(i + 1);
            assert(t.drop_last() =~= info.dockerfile_stages@.take(i as int));
            assert(t.last() == info.dockerfile_stages@[i as int]);
        }
        if i > 0 {
            out.append("\n");
        }
        render_stage(&mut out, &info.dockerfile_stages[i]);
        proof {
            let t = info.dockerfile_stages@.take(i + 1);
            if i == 0 {
                assert(out@ =~= stage_text(&t[0]));
            }
        }
        i += 1;
    }
    assert(info.dockerfile_stages@.take(info.dockerfile_stages.len() as int)
        =~= info.dockerfile_stages@);
    out
}

/// Whether a character may stand in a service name.
pub open spec fn is_name_char(c: char) -> bool {
    ('a' <= c <= 'z') || ('A' <= c <= 'Z') || ('0' <= c <= '9') || c == '-' || c == '_'
}

/// The characters of `s` that may stand in a service name, a space counting
/// as a dash.
pub open spec fn name_chars(s: Seq<char>) -> Seq<char>
    decreases s.len(),
{
    if s.len() == 0 {
        Seq::empty()
    } else {
        let before = name_chars(s.drop_last());
        let c = if s.last() == ' ' {
            '-'
        } else {
            s.last()
        };
        if is_name_char(c) {
            before.push(c)
        } else {
            before
        }
    }
}

/// The service name of a project: its name in lower case, spaces turned
/// into dashes, and every character dropped that is not an ASCII letter or
/// digit, a dash or an underscore.
pub open spec fn service_name_of(project_name: Seq<char>) -> Seq<char> {
    name_chars(lowercase_of(project_name))
}

/// The service name made of a project name that is in lower case already.
pub fn service_name_from(lower: &str) -> (name: String)
    ensures
        name@ == name_chars(lower@),
{
    let v = to_chars(lower);
    let mut name = String::new();
    let mut i: usize = 0;
    while i < v.len()
        invariant
            i <= v.len(),
            name@ == name_chars(v@.take(i as int)),
        decreases v.len() - i,
    {
        proof {
            let t = v@.take(i + 1);
            assert(t.drop_last() =~= v@.take(i as int));
            assert(t.last() == v@[i as int]);
        }
        let c = if v[i] == ' ' {
            '-'
        } else {
            v[i]
        };
        if (c >= 'a' && c <= 'z') || (c >= 'A' && c <= 'Z') || (c >= '0' && c <= '9') || c == '-'
            || c == '_' {
            name.push(c);
        }
        i += 1;
    }
    assert(v@.take(v.len() as int) =~= v@);
    name
}

/// The `environment:` block of a service; nothing where there are no
/// variables.
pub open spec fn environment_text(vars: Seq<(String, String)>) -> Seq<char> {
    if vars.len() == 0 {
        Seq::empty()
    } else {
        "    environment:\n"@ + assignments_text(vars)
    }
}

pub open spec fn assignments_text(vars: Seq<(String, String)>) -> Seq<char>
    decreases vars.len(),
{
    if vars.len() == 0 {
        Seq::empty()
    } else {
        assignments_text(vars.drop_last()) + "      - "@ + vars.last().0@ + "="@ + vars.last().1@
            + "\n"@
    }
}

/// The compose file of a project with the given service name.
pub open spec fn compose_text(service_name: Seq<char>, info: &SourceInfo) -> Seq<char> {
    "services:\n"@ + "  "@ + service_name + ":\n"@ + "    build: .\n"@ + "    ports:\n      - \""@
        + decimal(info.port as nat) + ":"@ + decimal(info.port as nat) + "\"\n"@ + environment_text(
        info.env_vars@,
    ) + "    restart: unless-stopped\n"@
}

/// The compose file of a project whose service name is given.
pub fn render_compose_for(service_name: &str, info: &SourceInfo) -> (out: String)
    ensures
        out@ == compose_text(service_name@, info),
{
    let mut out = String::new();
    out.append("services:\n");
    out.append("  ");
    out.append(service_name);
    out.append(":\n");
    out.append("    build: .\n");
    out.append("    ports:\n      - \"");
    out.append(format_decimal(info.port as u64).as_str());
    out.append(":");
    out.append(format_decimal(info.port as u64).as_str());
    out.append("\"\n");
    let ghost head = out@;
    if info.env_vars.len() > 0 {
        out.append("    environment:\n");
        let ghost opened = out@;
        let mut i: usize = 0;
        while i < info.env_vars.len()
            invariant
                i <= info.env_vars.len(),
                out@ == opened + assignments_text(info.env_vars@.take(i as int)),
            decreases info.env_vars.len() - i,
        {
            proof {
                let t = info.env_vars@.take(i + 1);
                assert(t.drop_last() =~= info.env_vars@.take(i as int));
                assert(t.last() == info.env_vars@[i as int]);
            }
            out.append("      - ");
            out.append(info.env_vars[i].0.as_str());
            out.append("=");
            out.append(info.env_vars[i].1.as_str());
            out.append("\n");
            i += 1;
        }
        assert(info.env_vars@.take(info.env_vars.len() as int) =~= info.env_vars@);
    }
    assert(out@ =~= head + environment_text(info.env_vars@));
    out.append("    restart: unless-stopped\n");
    out
}

/// Renders a compose file from the project name and a scan result.
pub fn render_compose(project_name: &str, info: &SourceInfo) -> (out: String)
    ensures
        out@ == compose_text(service_name_of(project_name@), info),
{
    let lower = project_name.to_lowercase();
    let service_name = service_name_from(lower.as_str());
    render_compose_for(service_name.as_str(), info)
}

/// `entries` with `entry` added at the end unless it is among them.
pub open spec fn with_entry(entries: Seq<Seq<char>>, entry: Seq<char>) -> Seq<Seq<char>> {
    if entries.contains(entry) {
        entries
    } else {
        entries.push(entry)
    }
}

/// The entries of an ignore file: those of the scan, and the files that the
/// rendering itself writes.
pub open spec fn ignore_entries(entries: Seq<Seq<char>>) -> Seq<Seq<char>> {
    with_entry(
        with_entry(with_entry(entries, "Dockerfile"@), "docker-compose*.yml"@),
        ".dockerignore"@,
    )
}

/// The text of an ignore file: one entry per line.
pub open spec fn dockerignore_text(entries: Seq<Seq<char>>) -> Seq<char> {
    joined(ignore_entries(entries), "\n"@) + "\n"@
}

fn add_entry(entries: &mut Vec<String>, entry: &str)
    ensures
        views(final(entries)@) == with_entry(views(old(entries)@), entry@),
{
    let mut i: usize = 0;
    while i < entries.len()
        invariant
            i <= entries.len(),
            entries@ == old(entries)@,
            forall|j: int| 0 <= j < i ==> views(entries@)[j] != entry@,
        decreases entries.len() - i,
    {
        if same_text(entries[i].as_str(), entry) {
            assert(views(entries@)[i as int] == entry@);
            return ;
        }
        i += 1;
    }
    let ghost before = views(entries@);
    entries.push(entry.to_owned());
    assert(views(entries@) =~= before.push(entry@));
}

/// Renders the ignore file of a scan result.
pub fn render_dockerignore(info: &SourceInfo) -> (out: String)
    ensures
        out@ == dockerignore_text(views(info.dockerignore_entries@)),
{
    let mut entries = copy_all(&info.dockerignore_entries);
    add_entry(&mut entries, "Dockerfile");
    add_entry(&mut entries, "docker-compose*.yml");
    add_entry(&mut entries, ".dockerignore");
    let mut out = join(&entries, "\n");
    out.append("\n");
    out
}

} // verus!
