//! The scanners of Python projects: three frameworks, and any other project
//! that declares its dependencies.

use super::gomod::{major_minor, shorten_version};
use super::node::{app_stage, make_stage};
use super::{
    matches_info, DockerStage, DockerStageView, Framework, Snapshot, SourceInfo, SourceInfoView,
};
use crate::text::{
    contains_text, find_char, find_last, first_digits, first_run, from_chars_range, has_prefix,
    has_substring, index_of_from, last_index_of, lemma_find_char, lines, lines_of, lowercase_of,
    opt_text, owned, prefix_at, same_text, to_chars, trim, trimmed, views, words, words_of,
};
use vstd::prelude::*;

verus! {

// ---------------------------------------------------------------------------
// Version
// ---------------------------------------------------------------------------

/// The version that the first line names which mentions the required
/// Python and holds a digit: major and minor of the first run of digits and
/// dots in it.
pub open spec fn required_python(lines: Seq<Seq<char>>) -> Option<Seq<char>>
    decreases lines.len(),
{
    if lines.len() == 0 {
        None
    } else if has_substring(lines[0], "requires-python"@) && first_run(lines[0], true).len() > 0 {
        Some(major_minor(first_run(lines[0], true)))
    } else {
        required_python(lines.skip(1))
    }
}

fn find_required_python(text: &str) -> (version: Option<String>)
    ensures
        opt_text(version) == required_python(lines_of(text@)),
{
    let all = lines(text);
    let mut i: usize = 0;
    assert(views(all@).skip(0) =~= views(all@));
    while i < all.len()
        invariant
            i <= all.len(),
            views(all@) == lines_of(text@),
            required_python(views(all@)) == required_python(views(all@).skip(i as int)),
        decreases all.len() - i,
    {
        proof {
            let t = views(all@).skip(i as int);
            assert(t[0] == all@[i as int]@);
            assert(t.skip(1) =~= views(all@).skip(i + 1));
        }
        let line = all[i].as_str();
        if contains_text(line, "requires-python") {
            let digits = first_digits(line, true);
            if digits.as_str().unicode_len() > 0 {
                return Some(shorten_version(digits.as_str()));
            }
        }
        i += 1;
    }
    None
}

/// The Python version of a project: major and minor of what the version
/// file names, else of what the project file requires, else 3.12.
pub open spec fn python_version_of(dir: &Snapshot) -> Seq<char> {
    if dir.text_of(".python-version"@) is Some && trimmed(dir.text_of(".python-version"@)->0).len()
        > 0 {
        major_minor(trimmed(dir.text_of(".python-version"@)->0))
    } else {
        match dir.text_of("pyproject.toml"@) {
            Some(text) => match required_python(lines_of(text)) {
                Some(version) => version,
                None => "3.12"@,
            },
            None => "3.12"@,
        }
    }
}

pub fn detect_python_version(dir: &Snapshot) -> (version: String)
    ensures
        version@ == python_version_of(dir),
{
    match dir.read(".python-version") {
        Some(text) => {
            let v = trim(text.as_str());
            if v.as_str().unicode_len() > 0 {
                return shorten_version(v.as_str());
            }
        },
        None => {},
    }
    match dir.read("pyproject.toml") {
        Some(text) => match find_required_python(text.as_str()) {
            Some(version) => version,
            None => "3.12".to_owned(),
        },
        None => "3.12".to_owned(),
    }
}

// ---------------------------------------------------------------------------
// Dependencies
// ---------------------------------------------------------------------------

/// Whether `c` is an ASCII letter or digit.
pub open spec fn is_ascii_alphanumeric(c: char) -> bool {
    ('a' <= c <= 'z') || ('A' <= c <= 'Z') || ('0' <= c <= '9')
}

/// Whether a line of a requirements file names the package `name`: in
/// lower case and without the white space around it, the line begins with
/// the name, and the name is not continued by a letter or a digit.
pub open spec fn names_package(line: Seq<char>, name: Seq<char>) -> bool {
    let l = lowercase_of(trimmed(line));
    has_prefix(l, lowercase_of(name)) && (l.len() <= name.len() || !is_ascii_alphanumeric(
        l[name.len() as int],
    ))
}

/// Whether the text of a file, in lower case, mentions `name`.
pub open spec fn mentions(dir: &Snapshot, file: Seq<char>, name: Seq<char>) -> bool {
    dir.text_of(file) matches Some(text) && has_substring(lowercase_of(text), name)
}

/// Whether a line of a requirements file names the package `name`.
pub open spec fn requires_package(requirements: Seq<char>, name: Seq<char>) -> bool {
    exists|i: int|
        0 <= i < lines_of(requirements).len() && names_package(
            #[trigger] lines_of(requirements)[i],
            name,
        )
}

/// Whether a project depends on the package `name`: its requirements name
/// it on a line, or its project file or its Pipfile mentions it.
pub open spec fn has_package(dir: &Snapshot, name: Seq<char>) -> bool {
    ||| match dir.text_of("requirements.txt"@) {
        Some(text) => requires_package(text, name),
        None => false,
    }
    ||| mentions(dir, "pyproject.toml"@, name)
    ||| mentions(dir, "Pipfile"@, name)
}

fn line_names(line: &str, name: &str) -> (r: bool)
    ensures
        r == names_package(line@, name@),
{
    let l = to_chars(trim(line).as_str().to_lowercase().as_str());
    let n = to_chars(name.to_lowercase().as_str());
    let width = name.unicode_len();
    assert(l@.skip(0) =~= l@);
    if !prefix_at(&l, 0, &n) {
        return false;
    }
    if l.len() <= width {
        return true;
    }
    let c = l[width];
    !((c >= 'a' && c <= 'z') || (c >= 'A' && c <= 'Z') || (c >= '0' && c <= '9'))
}

fn file_mentions(dir: &Snapshot, file: &str, name: &str) -> (r: bool)
    ensures
        r == mentions(dir, file@, name@),
{
    match dir.read(file) {
        Some(text) => contains_text(text.as_str().to_lowercase().as_str(), name),
        None => false,
    }
}

/// Whether a project depends on a package. Package names are ASCII.
pub fn has_python_dep(dir: &Snapshot, name: &str) -> (r: bool)
    ensures
        r == has_package(dir, name@),
{
    match dir.read("requirements.txt") {
        Some(text) => {
            let all = lines(text.as_str());
            let mut i: usize = 0;
            while i < all.len()
                invariant
                    i <= all.len(),
                    views(all@) == lines_of(text@),
                    dir.text_of("requirements.txt"@) == Some(text@),
                    forall|j: int| 0 <= j < i ==> !names_package(#[trigger] lines_of(text@)[j], name@),
                decreases all.len() - i,
            {
                assert(views(all@)[i as int] == all@[i as int]@);
                if line_names(all[i].as_str(), name) {
                    assert(names_package(lines_of(text@)[i as int], name@));
                    assert(requires_package(text@, name@));
                    return true;
                }
                i += 1;
            }
            assert(!requires_package(text@, name@));
        },
        None => {},
    }
    if file_mentions(dir, "pyproject.toml", name) {
        return true;
    }
    file_mentions(dir, "Pipfile", name)
}

// ---------------------------------------------------------------------------
// Installing
// ---------------------------------------------------------------------------

/// Whether the project file declares Poetry.
pub open spec fn uses_poetry(dir: &Snapshot) -> bool {
    dir.holds("pyproject.toml"@) && (dir.text_of("pyproject.toml"@) matches Some(text)
        && has_substring(text, "[tool.poetry]"@))
}

/// The tool that installs the dependencies of a project.
pub open spec fn installer_of(dir: &Snapshot) -> Seq<char> {
    if uses_poetry(dir) {
        "poetry"@
    } else if dir.holds("Pipfile"@) {
        "pipenv"@
    } else {
        "pip"@
    }
}

/// The command that installs the dependencies of a project.
pub open spec fn python_install_of(dir: &Snapshot) -> Seq<char> {
    if uses_poetry(dir) {
        "pip install poetry && poetry install --no-dev"@
    } else if dir.holds("Pipfile"@) {
        "pip install pipenv && pipenv install --deploy --system"@
    } else if dir.holds("requirements.txt"@) {
        "pip install --no-cache-dir -r requirements.txt"@
    } else if dir.holds("pyproject.toml"@) {
        "pip install --no-cache-dir ."@
    } else {
        "pip install --no-cache-dir -r requirements.txt"@
    }
}

pub fn detect_install_cmd(dir: &Snapshot) -> (r: (String, String))
    ensures
        r.0@ == installer_of(dir),
        r.1@ == python_install_of(dir),
{
    if dir.has_file("pyproject.toml") {
        let poetry = match dir.read("pyproject.toml") {
            Some(text) => contains_text(text.as_str(), "[tool.poetry]"),
            None => false,
        };
        if poetry {
            return (
                "poetry".to_owned(),
                "pip install poetry && poetry install --no-dev".to_owned(),
            );
        }
    }
    if dir.has_file("Pipfile") {
        return (
            "pipenv".to_owned(),
            "pip install pipenv && pipenv install --deploy --system".to_owned(),
        );
    }
    if dir.has_file("requirements.txt") {
        return ("pip".to_owned(), "pip install --no-cache-dir -r requirements.txt".to_owned());
    }
    if dir.has_file("pyproject.toml") {
        return ("pip".to_owned(), "pip install --no-cache-dir .".to_owned());
    }
    ("pip".to_owned(), "pip install --no-cache-dir -r requirements.txt".to_owned())
}

/// The instruction that copies what the installer reads.
pub open spec fn copy_deps_of(pm: Seq<char>) -> Seq<char> {
    if pm == "poetry"@ {
        "COPY pyproject.toml poetry.lock* ./"@
    } else if pm == "pipenv"@ {
        "COPY Pipfile Pipfile.lock* ./"@
    } else {
        "COPY requirements.txt ./"@
    }
}

pub fn copy_deps_instruction(pm: &str) -> (line: String)
    ensures
        line@ == copy_deps_of(pm@),
{
    if same_text(pm, "poetry") {
        "COPY pyproject.toml poetry.lock* ./".to_owned()
    } else if same_text(pm, "pipenv") {
        "COPY Pipfile Pipfile.lock* ./".to_owned()
    } else {
        "COPY requirements.txt ./".to_owned()
    }
}

/// The ignore entries of a Python project.
pub open spec fn python_ignores() -> Seq<Seq<char>> {
    seq![
        "__pycache__"@,
        "*.pyc"@,
        ".venv"@,
        "venv"@,
        ".env*"@,
        ".git"@,
        "*.md"@,
        ".vscode"@,
        ".idea"@,
        ".pytest_cache"@,
        ".mypy_cache"@,
    ]
}

pub fn python_dockerignore() -> (entries: Vec<String>)
    ensures
        views(entries@) == python_ignores(),
{
    let entries = owned(
        &vec![
            "__pycache__",
            "*.pyc",
            ".venv",
            "venv",
            ".env*",
            ".git",
            "*.md",
            ".vscode",
            ".idea",
            ".pytest_cache",
            ".mypy_cache",
        ],
    );
    assert(views(entries@) =~= python_ignores());
    entries
}

// ---------------------------------------------------------------------------
// Entry points
// ---------------------------------------------------------------------------

/// The application object of a Flask project, by the first module file
/// found.
pub open spec fn flask_entry_of(dir: &Snapshot) -> Seq<char> {
    if dir.holds("app.py"@) {
        "app:app"@
    } else if dir.holds("application.py"@) {
        "application:app"@
    } else if dir.holds("wsgi.py"@) {
        "wsgi:app"@
    } else if dir.holds("main.py"@) {
        "main:app"@
    } else {
        "app:app"@
    }
}

pub fn detect_flask_entry(dir: &Snapshot) -> (entry: String)
    ensures
        entry@ == flask_entry_of(dir),
{
    if dir.has_file("app.py") {
        "app:app".to_owned()
    } else if dir.has_file("application.py") {
        "application:app".to_owned()
    } else if dir.has_file("wsgi.py") {
        "wsgi:app".to_owned()
    } else if dir.has_file("main.py") {
        "main:app".to_owned()
    } else {
        "app:app".to_owned()
    }
}

/// The application object of a FastAPI project, by the first module file
/// found.
pub open spec fn fastapi_entry_of(dir: &Snapshot) -> Seq<char> {
    if dir.holds("main.py"@) {
        "main:app"@
    } else if dir.holds("app.py"@) {
        "app:app"@
    } else if dir.holds("app/main.py"@) {
        "app.main:app"@
    } else if dir.holds("src/main.py"@) {
        "src.main:app"@
    } else {
        "main:app"@
    }
}

pub fn detect_fastapi_entry(dir: &Snapshot) -> (entry: String)
    ensures
        entry@ == fastapi_entry_of(dir),
{
    if dir.has_file("main.py") {
        "main:app".to_owned()
    } else if dir.has_file("app.py") {
        "app:app".to_owned()
    } else if dir.has_file("app/main.py") {
        "app.main:app".to_owned()
    } else if dir.has_file("src/main.py") {
        "src.main:app".to_owned()
    } else {
        "main:app".to_owned()
    }
}

/// The position of the first quote of `s`: of its first single quote if it
/// has one, of its first double quote otherwise; `s.len()` without a quote.
pub open spec fn quote_at(s: Seq<char>) -> int {
    if s.contains('\'') {
        find_char(s, '\'')
    } else {
        find_char(s, '"')
    }
}

/// The second quoted text of a line: what stands between its third and its
/// fourth quote.
pub open spec fn second_quoted(line: Seq<char>) -> Option<Seq<char>> {
    let a = quote_at(line);
    if a >= line.len() {
        None
    } else {
        let b = a + 1 + quote_at(line.skip(a + 1));
        if b >= line.len() {
            None
        } else {
            let c = b + 1 + quote_at(line.skip(b + 1));
            if c >= line.len() {
                None
            } else {
                let d = c + 1 + quote_at(line.skip(c + 1));
                if d >= line.len() {
                    None
                } else {
                    Some(line.subrange(c + 1, d))
                }
            }
        }
    }
}

/// The WSGI application beside a settings module: in the package that
/// holds the settings; `None` for a module outside any package.
pub open spec fn wsgi_beside(module: Seq<char>) -> Option<Seq<char>> {
    let dot = find_last(module, '.');
    if dot >= 0 {
        Some(module.take(dot) + ".wsgi:application"@)
    } else {
        None
    }
}

/// The module of the WSGI application that a line of `manage.py` points
/// to: the line names the settings module as its second quoted text, and
/// the application lives beside the settings.
pub open spec fn wsgi_in(line: Seq<char>) -> Option<Seq<char>> {
    match second_quoted(line) {
        Some(module) => wsgi_beside(module),
        None => None,
    }
}

/// The WSGI module that the first line points to which mentions the
/// settings module and names one.
pub open spec fn wsgi_module(lines: Seq<Seq<char>>) -> Option<Seq<char>>
    decreases lines.len(),
{
    if lines.len() == 0 {
        None
    } else if has_substring(lines[0], "DJANGO_SETTINGS_MODULE"@) && wsgi_in(lines[0]) is Some {
        wsgi_in(lines[0])
    } else {
        wsgi_module(lines.skip(1))
    }
}

fn next_quote(v: &Vec<char>, from: usize) -> (i: usize)
    requires
        from <= v.len(),
    ensures
        i == from + quote_at(v@.skip(from as int)),
        from <= i <= v.len(),
{
    let single = index_of_from(v, '\'', from);
    proof {
        lemma_find_char(v@.skip(from as int), '\'');
        lemma_find_char(v@.skip(from as int), '"');
    }
    if single < v.len() {
        single
    } else {
        index_of_from(v, '"', from)
    }
}

fn second_quoted_of(line: &str) -> (module: Option<Vec<char>>)
    ensures
        match module {
            Some(m) => second_quoted(line@) == Some(m@),
            None => second_quoted(line@) is None,
        },
{
    let v = to_chars(line);
    assert(v@.skip(0) =~= v@);
    let a = next_quote(&v, 0);
    if a >= v.len() {
        return None;
    }
    let b = next_quote(&v, a + 1);
    if b >= v.len() {
        return None;
    }
    let c = next_quote(&v, b + 1);
    if c >= v.len() {
        return None;
    }
    let d = next_quote(&v, c + 1);
    if d >= v.len() {
        return None;
    }
    let mut module: Vec<char> = Vec::new();
    let mut i: usize = c + 1;
    while i < d
        invariant
            c + 1 <= i <= d < v.len(),
            module@ == v@.subrange(c + 1, i as int),
        decreases d - i,
    {
        module.push(v[i]);
        i += 1;
    }
    Some(module)
}

fn wsgi_beside_of(module: &Vec<char>) -> (name: Option<String>)
    ensures
        opt_text(name) == wsgi_beside(module@),
{
    match last_index_of(module, '.') {
        Some(dot) => {
            let mut name = from_chars_range(module, 0, dot);
            name.append(".wsgi:application");
            proof {
                assert(module@.subrange(0, dot as int) =~= module@.take(dot as int));
            }
            Some(name)
        },
        None => None,
    }
}

fn wsgi_of_line(line: &str) -> (module: Option<String>)
    ensures
        opt_text(module) == wsgi_in(line@),
{
    match second_quoted_of(line) {
        Some(module) => wsgi_beside_of(&module),
        None => None,
    }
}

/// The WSGI module of a Django project, as far as `manage.py` tells.
pub open spec fn django_wsgi_of(dir: &Snapshot) -> Option<Seq<char>> {
    match dir.text_of("manage.py"@) {
        Some(text) => wsgi_module(lines_of(text)),
        None => None,
    }
}

pub fn detect_django_wsgi(dir: &Snapshot) -> (module: Option<String>)
    ensures
        opt_text(module) == django_wsgi_of(dir),
{
    let text = match dir.read("manage.py") {
        Some(text) => text,
        None => {
            return None;
        },
    };
    let all = lines(text.as_str());
    let mut i: usize = 0;
    assert(views(all@).skip(0) =~= views(all@));
    while i < all.len()
        invariant
            i <= all.len(),
            views(all@) == lines_of(text@),
            dir.text_of("manage.py"@) == Some(text@),
            wsgi_module(views(all@)) == wsgi_module(views(all@).skip(i as int)),
        decreases all.len() - i,
    {
        proof {
            let t = views(all@).skip(i as int);
            assert(t[0] == all@[i as int]@);
            assert(t.skip(1) =~= views(all@).skip(i + 1));
        }
        if contains_text(all[i].as_str(), "DJANGO_SETTINGS_MODULE") {
            match wsgi_of_line(all[i].as_str()) {
                Some(module) => {
                    return Some(module);
                },
                None => {},
            }
        }
        i += 1;
    }
    None
}

// ---------------------------------------------------------------------------
// Shared parts of the descriptions
// ---------------------------------------------------------------------------

/// The image of a Python version.
pub open spec fn python_image(version: Seq<char>) -> Seq<char> {
    "python:"@ + version + "-slim"@
}

/// What every description of a Python project shares.
pub open spec fn python_source(
    family: Seq<char>,
    framework: Framework,
    version: Seq<char>,
    port: u16,
    install_cmd: Seq<char>,
    build_cmd: Option<Seq<char>>,
    start_cmd: Seq<char>,
    entry_point: Option<Seq<char>>,
    pm: Seq<char>,
    stages: Seq<DockerStageView>,
    notes: Seq<Seq<char>>,
) -> SourceInfoView {
    SourceInfoView {
        family,
        framework,
        version: Some(version),
        port,
        env_vars: Seq::empty(),
        build_args: Seq::empty(),
        install_cmd,
        build_cmd,
        start_cmd,
        binary_name: None,
        entry_point,
        package_manager: Some(pm),
        has_lockfile: false,
        dockerfile_stages: stages,
        dockerignore_entries: python_ignores(),
        notes,
    }
}

fn describe(
    family: &str,
    framework: Framework,
    version: String,
    port: u16,
    install_cmd: String,
    build_cmd: Option<String>,
    start_cmd: String,
    entry_point: Option<String>,
    pm: String,
    stages: Vec<DockerStage>,
    notes: Vec<String>,
) -> (info: SourceInfo)
    ensures
        info@ == python_source(
            family@,
            framework,
            version@,
            port,
            install_cmd@,
            opt_text(build_cmd),
            start_cmd@,
            opt_text(entry_point),
            pm@,
            stages.deep_view(),
            views(notes@),
        ),
{
    let info = SourceInfo {
        family: family.to_owned(),
        framework,
        version: Some(version),
        port,
        env_vars: Vec::new(),
        build_args: Vec::new(),
        install_cmd,
        build_cmd,
        start_cmd,
        binary_name: None,
        entry_point,
        package_manager: Some(pm),
        has_lockfile: false,
        dockerfile_stages: stages,
        dockerignore_entries: python_dockerignore(),
        notes,
    };
    assert(info@.env_vars =~= Seq::empty());
    assert(info@.build_args =~= Seq::empty());
    info
}

/// The single stage of a Python project: copy what the installer reads,
/// install, copy the project, and what the framework adds.
pub open spec fn python_stage(
    version: Seq<char>,
    pm: Seq<char>,
    install: Seq<char>,
    extra: Seq<Seq<char>>,
    port: u16,
    cmd: Seq<Seq<char>>,
) -> DockerStageView {
    app_stage(
        None,
        python_image(version),
        seq![copy_deps_of(pm), "RUN "@ + install, "COPY . ."@] + extra,
        Some(port),
        Some(cmd),
    )
}

fn make_python_stage(
    version: &str,
    pm: &str,
    install: &str,
    extra: Option<&str>,
    port: u16,
    cmd: Vec<String>,
) -> (stage: DockerStage)
    ensures
        stage@ == python_stage(
            version@,
            pm@,
            install@,
            match extra {
                Some(line) => seq![line@],
                None => Seq::<Seq<char>>::empty(),
            },
            port,
            views(cmd@),
        ),
{
    let mut image = "python:".to_owned();
    image.append(version);
    image.append("-slim");
    let mut run = "RUN ".to_owned();
    run.append(install);
    let mut instructions: Vec<String> = Vec::new();
    instructions.push(copy_deps_instruction(pm));
    instructions.push(run);
    instructions.push("COPY . .".to_owned());
    match extra {
        Some(line) => {
            instructions.push(line.to_owned());
            assert(views(instructions@) =~= seq![
                copy_deps_of(pm@),
                "RUN "@ + install@,
                "COPY . ."@,
            ] + seq![line@]);
        },
        None => {
            assert(views(instructions@) =~= seq![
                copy_deps_of(pm@),
                "RUN "@ + install@,
                "COPY . ."@,
            ] + Seq::<Seq<char>>::empty());
        },
    }
    make_stage(None, image.as_str(), instructions, Some(port), Some(cmd))
}

/// What is noted where the production server is not among the
/// dependencies.
pub open spec fn server_notes(dir: &Snapshot, server: Seq<char>) -> Seq<Seq<char>> {
    if has_package(dir, server) {
        Seq::empty()
    } else {
        seq!["Add `"@ + server + "` to requirements.txt for production"@]
    }
}

fn note_server(dir: &Snapshot, server: &str) -> (notes: Vec<String>)
    ensures
        views(notes@) == server_notes(dir, server@),
{
    let mut notes: Vec<String> = Vec::new();
    if !has_python_dep(dir, server) {
        let mut note = "Add `".to_owned();
        note.append(server);
        note.append("` to requirements.txt for production");
        notes.push(note);
    }
    assert(views(notes@) =~= server_notes(dir, server@));
    notes
}

/// The command that serves a WSGI application on a port.
pub open spec fn gunicorn_cmd(entry: Seq<char>, bind: Seq<char>) -> Seq<Seq<char>> {
    seq!["gunicorn"@, entry, "--bind"@, bind]
}

fn gunicorn(entry: &str, bind: &str) -> (cmd: Vec<String>)
    ensures
        views(cmd@) == gunicorn_cmd(entry@, bind@),
{
    let mut cmd: Vec<String> = Vec::new();
    cmd.push("gunicorn".to_owned());
    cmd.push(entry.to_owned());
    cmd.push("--bind".to_owned());
    cmd.push(bind.to_owned());
    assert(views(cmd@) =~= gunicorn_cmd(entry@, bind@));
    cmd
}

fn gunicorn_line(entry: &str, bind: &str) -> (line: String)
    ensures
        line@ == "gunicorn "@ + entry@ + " --bind "@ + bind@,
{
    let mut line = "gunicorn ".to_owned();
    line.append(entry);
    line.append(" --bind ");
    line.append(bind);
    line
}

// ---------------------------------------------------------------------------
// Django
// ---------------------------------------------------------------------------

/// The WSGI module of a Django project: the one `manage.py` points to, a
/// stand-in name otherwise.
pub open spec fn django_entry(dir: &Snapshot) -> Seq<char> {
    match django_wsgi_of(dir) {
        Some(module) => module,
        None => "myapp.wsgi:application"@,
    }
}

/// What a scan says of a directory as a Django project: a project with a
/// `manage.py` that depends on `django`.
pub open spec fn django_info(dir: &Snapshot) -> Option<SourceInfoView> {
    if !dir.holds("manage.py"@) || !has_package(dir, "django"@) {
        None
    } else {
        let version = python_version_of(dir);
        let entry = django_entry(dir);
        Some(
            python_source(
                "Django"@,
                Framework::Django,
                version,
                8000,
                python_install_of(dir),
                Some("python manage.py collectstatic --noinput"@),
                "gunicorn "@ + entry + " --bind "@ + "0.0.0.0:8000"@,
                Some(entry),
                installer_of(dir),
                seq![
                    python_stage(
                        version,
                        installer_of(dir),
                        python_install_of(dir),
                        seq![
                            "RUN python manage.py collectstatic --noinput 2>/dev/null || true"@,
                        ],
                        8000,
                        gunicorn_cmd(entry, "0.0.0.0:8000"@),
                    ),
                ],
                server_notes(dir, "gunicorn"@),
            ),
        )
    }
}

pub fn scan_django(dir: &Snapshot) -> (info: Option<SourceInfo>)
    ensures
        matches_info(info, django_info(dir)),
{
    if !dir.has_file("manage.py") {
        return None;
    }
    if !has_python_dep(dir, "django") {
        return None;
    }
    let version = detect_python_version(dir);
    let (pm, install_cmd) = detect_install_cmd(dir);
    let entry = match detect_django_wsgi(dir) {
        Some(module) => module,
        None => "myapp.wsgi:application".to_owned(),
    };
    let mut stages: Vec<DockerStage> = Vec::new();
    stages.push(
        make_python_stage(
            version.as_str(),
            pm.as_str(),
            install_cmd.as_str(),
            Some("RUN python manage.py collectstatic --noinput 2>/dev/null || true"),
            8000,
            gunicorn(entry.as_str(), "0.0.0.0:8000"),
        ),
    );
    assert(stages.deep_view() =~= seq![
        python_stage(
            version@,
            pm@,
            install_cmd@,
            seq!["RUN python manage.py collectstatic --noinput 2>/dev/null || true"@],
            8000,
            gunicorn_cmd(entry@, "0.0.0.0:8000"@),
        ),
    ]);
    let start = gunicorn_line(entry.as_str(), "0.0.0.0:8000");
    Some(
        describe(
            "Django",
            Framework::Django,
            version,
            8000,
            install_cmd,
            Some("python manage.py collectstatic --noinput".to_owned()),
            start,
            Some(entry),
            pm,
            stages,
            note_server(dir, "gunicorn"),
        ),
    )
}

// ---------------------------------------------------------------------------
// Flask
// ---------------------------------------------------------------------------

/// What a scan says of a directory as a Flask project: a project that
/// depends on `flask`.
pub open spec fn flask_info(dir: &Snapshot) -> Option<SourceInfoView> {
    if !has_package(dir, "flask"@) {
        None
    } else {
        let version = python_version_of(dir);
        let entry = flask_entry_of(dir);
        Some(
            python_source(
                "Flask"@,
                Framework::Flask,
                version,
                5000,
                python_install_of(dir),
                None,
                "gunicorn "@ + entry + " --bind "@ + "0.0.0.0:5000"@,
                Some(entry),
                installer_of(dir),
                seq![
                    python_stage(
                        version,
                        installer_of(dir),
                        python_install_of(dir),
                        Seq::empty(),
                        5000,
                        gunicorn_cmd(entry, "0.0.0.0:5000"@),
                    ),
                ],
                server_notes(dir, "gunicorn"@),
            ),
        )
    }
}

pub fn scan_flask(dir: &Snapshot) -> (info: Option<SourceInfo>)
    ensures
        matches_info(info, flask_info(dir)),
{
    if !has_python_dep(dir, "flask") {
        return None;
    }
    let version = detect_python_version(dir);
    let (pm, install_cmd) = detect_install_cmd(dir);
    let entry = detect_flask_entry(dir);
    let mut stages: Vec<DockerStage> = Vec::new();
    stages.push(
        make_python_stage(
            version.as_str(),
            pm.as_str(),
            install_cmd.as_str(),
            None,
            5000,
            gunicorn(entry.as_str(), "0.0.0.0:5000"),
        ),
    );
    assert(stages.deep_view() =~= seq![
        python_stage(
            version@,
            pm@,
            install_cmd@,
            Seq::empty(),
            5000,
            gunicorn_cmd(entry@, "0.0.0.0:5000"@),
        ),
    ]);
    let start = gunicorn_line(entry.as_str(), "0.0.0.0:5000");
    Some(
        describe(
            "Flask",
            Framework::Flask,
            version,
            5000,
            install_cmd,
            None,
            start,
            Some(entry),
            pm,
            stages,
            note_server(dir, "gunicorn"),
        ),
    )
}

// ---------------------------------------------------------------------------
// FastAPI
// ---------------------------------------------------------------------------

/// The command that serves an ASGI application on port 8000.
pub open spec fn uvicorn_cmd(entry: Seq<char>) -> Seq<Seq<char>> {
    seq!["uvicorn"@, entry, "--host"@, "0.0.0.0"@, "--port"@, "8000"@]
}

/// What a scan says of a directory as a FastAPI project: a project that
/// depends on `fastapi`.
pub open spec fn fastapi_info(dir: &Snapshot) -> Option<SourceInfoView> {
    if !has_package(dir, "fastapi"@) {
        None
    } else {
        let version = python_version_of(dir);
        let entry = fastapi_entry_of(dir);
        Some(
            python_source(
                "FastAPI"@,
                Framework::FastApi,
                version,
                8000,
                python_install_of(dir),
                None,
                "uvicorn "@ + entry + " --host 0.0.0.0 --port 8000"@,
                Some(entry),
                installer_of(dir),
                seq![
                    python_stage(
                        version,
                        installer_of(dir),
                        python_install_of(dir),
                        Seq::empty(),
                        8000,
                        uvicorn_cmd(entry),
                    ),
                ],
                server_notes(dir, "uvicorn"@),
            ),
        )
    }
}

pub fn scan_fastapi(dir: &Snapshot) -> (info: Option<SourceInfo>)
    ensures
        matches_info(info, fastapi_info(dir)),
{
    if !has_python_dep(dir, "fastapi") {
        return None;
    }
    let version = detect_python_version(dir);
    let (pm, install_cmd) = detect_install_cmd(dir);
    let entry = detect_fastapi_entry(dir);
    let mut cmd: Vec<String> = Vec::new();
    cmd.push("uvicorn".to_owned());
    cmd.push(entry.clone());
    cmd.push("--host".to_owned());
    cmd.push("0.0.0.0".to_owned());
    cmd.push("--port".to_owned());
    cmd.push("8000".to_owned());
    assert(views(cmd@) =~= uvicorn_cmd(entry@));
    let mut stages: Vec<DockerStage> = Vec::new();
    stages.push(
        make_python_stage(version.as_str(), pm.as_str(), install_cmd.as_str(), None, 8000, cmd),
    );
    assert(stages.deep_view() =~= seq![
        python_stage(version@, pm@, install_cmd@, Seq::empty(), 8000, uvicorn_cmd(entry@)),
    ]);
    let mut start = "uvicorn ".to_owned();
    start.append(entry.as_str());
    start.append(" --host 0.0.0.0 --port 8000");
    Some(
        describe(
            "FastAPI",
            Framework::FastApi,
            version,
            8000,
            install_cmd,
            None,
            start,
            Some(entry),
            pm,
            stages,
            note_server(dir, "uvicorn"),
        ),
    )
}

// ---------------------------------------------------------------------------
// Any other Python project
// ---------------------------------------------------------------------------

/// The command that starts a plain project: its `main.py`, else its
/// `app.py`, else `main.py` all the same.
pub open spec fn python_start_of(dir: &Snapshot) -> Seq<char> {
    if dir.holds("main.py"@) {
        "python main.py"@
    } else if dir.holds("app.py"@) {
        "python app.py"@
    } else {
        "python main.py"@
    }
}

/// What a scan says of a directory as a Python project: a project with
/// requirements, a project file or a Pipfile.
pub open spec fn generic_info(dir: &Snapshot) -> Option<SourceInfoView> {
    if !dir.holds("requirements.txt"@) && !dir.holds("pyproject.toml"@) && !dir.holds("Pipfile"@) {
        None
    } else {
        let version = python_version_of(dir);
        let start = python_start_of(dir);
        Some(
            python_source(
                "Python"@,
                Framework::GenericPython,
                version,
                8000,
                python_install_of(dir),
                None,
                start,
                None,
                installer_of(dir),
                seq![
                    python_stage(
                        version,
                        installer_of(dir),
                        python_install_of(dir),
                        Seq::empty(),
                        8000,
                        words_of(start),
                    ),
                ],
                Seq::empty(),
            ),
        )
    }
}

pub fn scan_generic(dir: &Snapshot) -> (info: Option<SourceInfo>)
    ensures
        matches_info(info, generic_info(dir)),
{
    if !dir.has_file("requirements.txt") && !dir.has_file("pyproject.toml") && !dir.has_file(
        "Pipfile",
    ) {
        return None;
    }
    let version = detect_python_version(dir);
    let (pm, install_cmd) = detect_install_cmd(dir);
    let start = if dir.has_file("main.py") {
        "python main.py".to_owned()
    } else if dir.has_file("app.py") {
        "python app.py".to_owned()
    } else {
        "python main.py".to_owned()
    };
    let cmd = words(start.as_str());
    let mut stages: Vec<DockerStage> = Vec::new();
    stages.push(
        make_python_stage(version.as_str(), pm.as_str(), install_cmd.as_str(), None, 8000, cmd),
    );
    assert(stages.deep_view() =~= seq![
        python_stage(version@, pm@, install_cmd@, Seq::empty(), 8000, words_of(start@)),
    ]);
    let notes: Vec<String> = Vec::new();
    assert(views(notes@) =~= Seq::<Seq<char>>::empty());
    Some(
        describe(
            "Python",
            Framework::GenericPython,
            version,
            8000,
            install_cmd,
            None,
            start,
            None,
            pm,
            stages,
            notes,
        ),
    )
}

} // verus!
