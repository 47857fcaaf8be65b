//! The grammar of target strings: a node id (`12345`) or an application of
//! a project (`api.RedQ`), either with an optional `:path` suffix.

use crate::text::{
    all_digits, count_char, count_in, decimal, decimal_value, find_char, format_decimal,
    from_chars_range, index_of_from, lemma_find_char, opt_text, parse_decimal, to_chars,
};
use vstd::prelude::*;

verus! {

/// What a target string names.
#[derive(Debug)]
pub enum Target {
    /// A node, by its id.
    NodeId { id: u64, path: Option<String> },
    /// An application of a project.
    AppTarget { app: String, project: String, path: Option<String> },
}

pub enum TargetView {
    NodeId { id: nat, path: Option<Seq<char>> },
    AppTarget { app: Seq<char>, project: Seq<char>, path: Option<Seq<char>> },
}

impl View for Target {
    type V = TargetView;

    open spec fn view(&self) -> TargetView {
        match self {
            Target::NodeId { id, path } => TargetView::NodeId {
                id: *id as nat,
                path: opt_text(*path),
            },
            Target::AppTarget { app, project, path } => TargetView::AppTarget {
                app: app@,
                project: project@,
                path: opt_text(*path),
            },
        }
    }
}

/// The string is neither a node id nor of the form `app.project`.
#[derive(Debug)]
pub struct InvalidTarget {
    pub text: String,
}

/// The part of a target string before the first colon.
pub open spec fn head_of(s: Seq<char>) -> Seq<char> {
    s.take(find_char(s, ':'))
}

/// The part of a target string after the first colon, if there is a colon.
pub open spec fn path_of(s: Seq<char>) -> Option<Seq<char>> {
    let colon = find_char(s, ':');
    if colon < s.len() {
        Some(s.skip(colon + 1))
    } else {
        None
    }
}

/// What a target string names, if it is well formed. A head made of digits
/// that fit 64 bits names a node. Otherwise the head must hold exactly one
/// dot, which parts the application from the project.
pub open spec fn parsed(s: Seq<char>) -> Option<TargetView> {
    let head = head_of(s);
    let path = path_of(s);
    if all_digits(head) && decimal_value(head) <= u64::MAX {
        Some(TargetView::NodeId { id: decimal_value(head), path })
    } else if count_char(head, '.') == 1 {
        let dot = find_char(head, '.');
        Some(TargetView::AppTarget { app: head.take(dot), project: head.skip(dot + 1), path })
    } else {
        None
    }
}

/// Reads a target string.
pub fn parse_target(target: &str) -> (r: Result<Target, InvalidTarget>)
    ensures
        match parsed(target@) {
            Some(t) => r matches Ok(found) && found@ == t,
            None => r matches Err(e) && e.text@ == target@,
        },
{
    let v = to_chars(target);
    proof {
        assert(v@.skip(0) =~= v@);
        lemma_find_char(v@, ':');
    }
    let colon = index_of_from(&v, ':', 0);
    let head = from_chars_range(&v, 0, colon);
    let path = if colon < v.len() {
        Some(from_chars_range(&v, colon + 1, v.len()))
    } else {
        None
    };
    proof {
        assert(head@ =~= head_of(target@));
        if colon < v.len() {
            assert(v@.subrange(colon + 1, v.len() as int) =~= v@.skip(colon + 1));
        }
        assert(opt_text(path) == path_of(target@));
    }
    match parse_decimal(head.as_str()) {
        Some(id) => Ok(Target::NodeId { id, path }),
        None => {
            let dots = count_in(&v, colon, '.');
            assert(v@.take(colon as int) =~= head@);
            if dots == 1 {
                let dot = index_of_from(&v, '.', 0);
                proof {
                    lemma_find_head(v@, colon as int, '.');
                    lemma_find_char(head@, '.');
                    lemma_count_zero(head@, '.');
                    assert(v@.subrange(0, dot as int) =~= head@.take(dot as int));
                    assert(v@.subrange(dot + 1, colon as int) =~= head@.skip(dot + 1));
                }
                let app = from_chars_range(&v, 0, dot);
                let project = from_chars_range(&v, dot + 1, colon);
                Ok(Target::AppTarget { app, project, path })
            } else {
                Err(InvalidTarget { text: target.to_owned() })
            }
        },
    }
}

/// A character that does not occur is counted zero times, and one that is
/// counted occurs.
pub proof fn lemma_count_zero(s: Seq<char>, c: char)
    ensures
        count_char(s, c) == 0 <==> !s.contains(c),
    decreases s.len(),
{
    if s.len() > 0 {
        lemma_count_zero(s.drop_last(), c);
        if s.last() == c {
            assert(s[s.len() - 1] == c);
        } else if s.contains(c) {
            let i = choose|i: int| 0 <= i < s.len() && s[i] == c;
            assert(s.drop_last()[i] == c);
        } else if s.drop_last().contains(c) {
            let i = choose|i: int| 0 <= i < s.len() - 1 && s.drop_last()[i] == c;
            assert(s[i] == c);
        }
    }
}

/// Where `c` occurs in the first `n` characters of `s`, its first occurrence
/// in `s` is its first occurrence in those.
pub proof fn lemma_find_head(s: Seq<char>, n: int, c: char)
    requires
        0 <= n <= s.len(),
    ensures
        s.take(n).contains(c) ==> find_char(s, c) == find_char(s.take(n), c),
        !s.take(n).contains(c) ==> find_char(s.take(n), c) == n,
{
    let h = s.take(n);
    lemma_find_char(h, c);
    lemma_find_char(s, c);
    if h.contains(c) {
        let i = find_char(h, c);
        let j = find_char(s, c);
        assert(s[i] == c);
        if j < i {
            assert(h[j] == c);
        } else if i < j {
            assert(s[i] != c);
        }
    }
}

impl Target {
    /// The path suffix, if the string had one.
    pub fn path(&self) -> (p: Option<&String>)
        ensures
            match p {
                Some(text) => self@.path() == Some(text@),
                None => self@.path() is None,
            },
    {
        match self {
            Target::NodeId { path, .. } => path.as_ref(),
            Target::AppTarget { path, .. } => path.as_ref(),
        }
    }

    /// The host name under which the target is reached.
    pub fn domain(&self) -> (d: String)
        ensures
            d@ == self@.domain(),
    {
        match self {
            Target::NodeId { id, .. } => {
                let mut d = format_decimal(*id);
                d.append(".node.ops.autos");
                d
            },
            Target::AppTarget { app, project, .. } => {
                let mut d = app.clone();
                d.append(".");
                d.append(project.as_str());
                d.append(".ops.autos");
                d
            },
        }
    }
}

impl TargetView {
    pub open spec fn path(self) -> Option<Seq<char>> {
        match self {
            TargetView::NodeId { path, .. } => path,
            TargetView::AppTarget { path, .. } => path,
        }
    }

    pub open spec fn domain(self) -> Seq<char> {
        match self {
            TargetView::NodeId { id, .. } => decimal(id) + ".node.ops.autos"@,
            TargetView::AppTarget { app, project, .. } => app + "."@ + project + ".ops.autos"@,
        }
    }
}

/// The application and the project that a pool target names.
#[derive(Debug)]
pub struct PoolTarget {
    pub app: String,
    pub project: String,
}

/// The target has no dot.
#[derive(Debug, Clone, Copy, PartialEq, Eq, Structural)]
pub struct InvalidPoolTarget;

impl InvalidPoolTarget {
    pub fn message(&self) -> (m: &'static str)
        ensures
            m@ == "Target must be in 'app.project' format (e.g., api.RedQ)"@,
    {
        "Target must be in 'app.project' format (e.g., api.RedQ)"
    }
}

/// Reads a pool target `app.project`: the application is what stands before
/// the first dot, the project is all that follows it.
pub fn parse_pool_target(target: &str) -> (r: Result<PoolTarget, InvalidPoolTarget>)
    ensures
        r is Ok <==> target@.contains('.'),
        r matches Ok(t) ==> {
            &&& t.app@ == target@.take(find_char(target@, '.'))
            &&& t.project@ == target@.skip(find_char(target@, '.') + 1)
        },
{
    let v = to_chars(target);
    assert(v@.skip(0) =~= v@);
    let dot = index_of_from(&v, '.', 0);
    proof {
        lemma_find_char(v@, '.');
    }
    if dot >= v.len() {
        return Err(InvalidPoolTarget);
    }
    proof {
        assert(v@.subrange(0, dot as int) =~= v@.take(dot as int));
        assert(v@.subrange(dot + 1, v.len() as int) =~= v@.skip(dot + 1));
    }
    Ok(
        PoolTarget {
            app: from_chars_range(&v, 0, dot),
            project: from_chars_range(&v, dot + 1, v.len()),
        },
    )
}

impl InvalidTarget {
    pub fn message(&self) -> (m: &'static str)
        ensures
            m@
                == "Invalid target format. Expected 'environment.project' (e.g., main_server.jug0)"@,
    {
        "Invalid target format. Expected 'environment.project' (e.g., main_server.jug0)"
    }
}

} // verus!
