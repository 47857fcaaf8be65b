//! The node commands: what is shown of a node, and when a node may be
//! removed.

use crate::text::{decimal, format_decimal, join, joined, opt_text, views};
use vstd::prelude::*;

verus! {

/// What to do about the removal of a node.
#[derive(Debug, Clone, Copy, PartialEq, Eq, Structural)]
pub enum Removal {
    /// Delete the node.
    Proceed,
    /// Ask the operator first.
    Ask,
    /// Refuse: nobody can be asked and the removal was not forced.
    Refuse,
}

/// A forced removal proceeds. Any other removal needs the consent of the
/// operator, and is refused where nobody can be asked.
pub open spec fn removal_of(force: bool, interactive: bool) -> Removal {
    if force {
        Removal::Proceed
    } else if interactive {
        Removal::Ask
    } else {
        Removal::Refuse
    }
}

pub fn removal(force: bool, interactive: bool) -> (r: Removal)
    ensures
        r == removal_of(force, interactive),
{
    if force {
        Removal::Proceed
    } else if interactive {
        Removal::Ask
    } else {
        Removal::Refuse
    }
}

/// What a refused removal says.
pub fn refusal_text() -> (m: &'static str)
    ensures
        m@ == "Destructive operation requires --force in non-interactive mode"@,
{
    "Destructive operation requires --force in non-interactive mode"
}

/// What a removal warns of.
pub open spec fn removal_warning_of(node_id: nat) -> Seq<char> {
    "This will delete node #"@ + decimal(node_id) + " and all its associated data."@
}

pub fn removal_warning(node_id: u64) -> (m: String)
    ensures
        m@ == removal_warning_of(node_id as nat),
{
    let mut m = "This will delete node #".to_owned();
    m.append(format_decimal(node_id).as_str());
    m.append(" and all its associated data.");
    m
}

/// The projects or applications a node is open to: the listed ones, or all.
pub open spec fn allowed_of(names: Option<Seq<Seq<char>>>) -> Seq<char> {
    match names {
        Some(list) => joined(list, ", "@),
        None => "all"@,
    }
}

pub fn allowed(names: &Option<Vec<String>>) -> (text: String)
    ensures
        text@ == allowed_of(
            match names {
                Some(list) => Some(views(list@)),
                None => None,
            },
        ),
{
    match names {
        Some(list) => join(list, ", "),
        None => "all".to_owned(),
    }
}

/// The line of an application bound to a node.
pub open spec fn bound_app_line_of(name: Seq<char>, project: Seq<char>, primary: bool) -> Seq<char> {
    "  • "@ + name + "."@ + project + (if primary {
        " (primary)"@
    } else {
        Seq::<char>::empty()
    })
}

pub fn bound_app_line(name: &str, project: &str, primary: bool) -> (line: String)
    ensures
        line@ == bound_app_line_of(name@, project@, primary),
{
    let mut line = "  • ".to_owned();
    line.append(name);
    line.append(".");
    line.append(project);
    if primary {
        line.append(" (primary)");
    }
    line
}

/// The line of a node in the list of nodes.
pub open spec fn node_line_of(
    id: nat,
    hostname: Option<Seq<char>>,
    ip: Seq<char>,
    region: Option<Seq<char>>,
    serving: bool,
) -> Seq<char> {
    "#"@ + decimal(id) + " "@ + (match hostname {
        Some(name) => name,
        None => ip,
    }) + " ("@ + ip + ") region:"@ + (match region {
        Some(r) => r,
        None => "-"@,
    }) + " ["@ + (if serving {
        "serve ✓"@
    } else {
        "serve ✗"@
    }) + "]"@
}

pub fn node_line(
    id: u64,
    hostname: &Option<String>,
    ip: &str,
    region: &Option<String>,
    serving: bool,
) -> (line: String)
    ensures
        line@ == node_line_of(id as nat, opt_text(*hostname), ip@, opt_text(*region), serving),
{
    let mut line = "#".to_owned();
    line.append(format_decimal(id).as_str());
    line.append(" ");
    match hostname {
        Some(name) => line.append(name.as_str()),
        None => line.append(ip),
    }
    line.append(" (");
    line.append(ip);
    line.append(") region:");
    match region {
        Some(r) => line.append(r.as_str()),
        None => line.append("-"),
    }
    line.append(" [");
    if serving {
        line.append("serve ✓");
    } else {
        line.append("serve ✗");
    }
    line.append("]");
    line
}

} // verus!
