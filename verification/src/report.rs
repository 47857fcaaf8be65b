//! What the pool and node commands show of a group and its nodes.

use crate::pool::{DeployTarget, DeployTargetView, GroupHealth, NodeStatus};
use crate::text::{decimal, format_decimal, format_decimal_wide};
use vstd::prelude::*;

verus! {

/// `count` spaces.
pub open spec fn spaces(count: nat) -> Seq<char> {
    Seq::new(count, |i: int| ' ')
}

/// `s`, filled with spaces on the right to `width` characters; a longer
/// text is not cut.
pub open spec fn padded(s: Seq<char>, width: nat) -> Seq<char> {
    if s.len() >= width {
        s
    } else {
        s + spaces((width - s.len()) as nat)
    }
}

pub fn pad_right(s: &str, width: usize) -> (r: String)
    ensures
        r@ == padded(s@, width as nat),
{
    let len = s.unicode_len();
    let mut r = s.to_owned();
    if len < width {
        let mut i: usize = len;
        while i < width
            invariant
                len <= i <= width,
                len == s@.len(),
                r@ == s@ + spaces((i - len) as nat),
            decreases width - i,
        {
            r.push(' ');
            assert(r@ =~= s@ + spaces((i + 1 - len) as nat));
            i += 1;
        }
    } else {
        assert(r@ =~= padded(s@, width as nat));
    }
    r
}

/// `count` times the character `c`.
pub fn repeat(c: char, count: usize) -> (r: String)
    ensures
        r@ == Seq::new(count as nat, |i: int| c),
{
    let mut r = String::new();
    let mut i: usize = 0;
    while i < count
        invariant
            i <= count,
            r@ == Seq::new(i as nat, |k: int| c),
        decreases count - i,
    {
        r.push(c);
        assert(r@ =~= Seq::new((i + 1) as nat, |k: int| c));
        i += 1;
    }
    r
}

/// How a status is set off in a listing.
#[derive(Debug, Clone, Copy, PartialEq, Eq, Structural)]
pub enum Tone {
    Good,
    Caution,
    Bad,
    Faint,
}

/// The sign shown for the status of a node: a disc for a node that answers
/// or fails to, a half disc for one that drains, a circle for one that is
/// away.
pub open spec fn status_icon_of(status: NodeStatus) -> (Seq<char>, Tone) {
    match status {
        NodeStatus::Healthy => ("●"@, Tone::Good),
        NodeStatus::Unhealthy => ("●"@, Tone::Bad),
        NodeStatus::Draining => ("◐"@, Tone::Caution),
        NodeStatus::Offline => ("○"@, Tone::Bad),
        NodeStatus::Unknown => ("○"@, Tone::Faint),
    }
}

pub fn status_icon(status: NodeStatus) -> (icon: (&'static str, Tone))
    ensures
        (icon.0@, icon.1) == status_icon_of(status),
{
    match status {
        NodeStatus::Healthy => ("●", Tone::Good),
        NodeStatus::Unhealthy => ("●", Tone::Bad),
        NodeStatus::Draining => ("◐", Tone::Caution),
        NodeStatus::Offline => ("○", Tone::Bad),
        NodeStatus::Unknown => ("○", Tone::Faint),
    }
}

/// The tone of a status word in a table: healthy is good, draining calls for
/// caution, anything else is bad.
pub fn status_tone(status: NodeStatus) -> (tone: Tone)
    ensures
        tone == (match status {
            NodeStatus::Healthy => Tone::Good,
            NodeStatus::Draining => Tone::Caution,
            _ => Tone::Bad,
        }),
{
    match status {
        NodeStatus::Healthy => Tone::Good,
        NodeStatus::Draining => Tone::Caution,
        _ => Tone::Bad,
    }
}

/// The sign shown for the health of a group.
pub fn group_icon(health: GroupHealth) -> (icon: (&'static str, Tone))
    ensures
        (icon.0@, icon.1) == (match health {
            GroupHealth::Empty => ("○"@, Tone::Faint),
            GroupHealth::AllHealthy => ("●"@, Tone::Good),
            GroupHealth::Degraded => ("◐"@, Tone::Caution),
            GroupHealth::Down => ("●"@, Tone::Bad),
        }),
{
    match health {
        GroupHealth::Empty => ("○", Tone::Faint),
        GroupHealth::AllHealthy => ("●", Tone::Good),
        GroupHealth::Degraded => ("◐", Tone::Caution),
        GroupHealth::Down => ("●", Tone::Bad),
    }
}

/// One row of the pool table: six columns, each filled to its width.
pub open spec fn row_of(
    id: Seq<char>,
    domain: Seq<char>,
    ip: Seq<char>,
    region: Seq<char>,
    status: Seq<char>,
    primary: Seq<char>,
) -> Seq<char> {
    "  "@ + padded(id, 8) + " "@ + padded(domain, 28) + " "@ + padded(ip, 16) + " "@ + padded(
        region,
        14,
    ) + " "@ + padded(status, 10) + " "@ + padded(primary, 8)
}

pub fn table_row(id: &str, domain: &str, ip: &str, region: &str, status: &str, primary: &str) -> (row:
    String)
    ensures
        row@ == row_of(id@, domain@, ip@, region@, status@, primary@),
{
    let mut row = "  ".to_owned();
    row.append(pad_right(id, 8).as_str());
    row.append(" ");
    row.append(pad_right(domain, 28).as_str());
    row.append(" ");
    row.append(pad_right(ip, 16).as_str());
    row.append(" ");
    row.append(pad_right(region, 14).as_str());
    row.append(" ");
    row.append(pad_right(status, 10).as_str());
    row.append(" ");
    row.append(pad_right(primary, 8).as_str());
    row
}

/// The header of the pool table.
pub fn table_header() -> (row: String)
    ensures
        row@ == row_of("ID"@, "Domain"@, "IP"@, "Region"@, "Status"@, "Primary"@),
{
    table_row("ID", "Domain", "IP", "Region", "Status", "Primary")
}

/// The row of one target.
pub open spec fn target_row_of(t: DeployTargetView) -> Seq<char> {
    row_of(
        decimal(t.node_id),
        t.domain,
        t.ip_address,
        match t.region {
            Some(region) => region,
            None => "-"@,
        },
        t.status.name(),
        if t.is_primary {
            "yes"@
        } else {
            "-"@
        },
    )
}

pub fn target_row(t: &DeployTarget) -> (row: String)
    ensures
        row@ == target_row_of(t@),
{
    let id = format_decimal(t.node_id);
    let region = match &t.region {
        Some(region) => region.as_str(),
        None => "-",
    };
    let primary = if t.is_primary {
        "yes"
    } else {
        "-"
    };
    table_row(
        id.as_str(),
        t.domain.as_str(),
        t.ip_address.as_str(),
        region,
        t.status.as_str(),
        primary,
    )
}

/// The line that closes the pool status: healthy nodes over all nodes. A
/// draining node counts in the total and not among the healthy.
pub open spec fn health_line_of(healthy: nat, total: nat) -> Seq<char> {
    "  "@ + decimal(healthy) + "/"@ + decimal(total) + " nodes healthy"@
}

pub fn health_line(healthy: usize, total: usize) -> (line: String)
    ensures
        line@ == health_line_of(healthy as nat, total as nat),
{
    let mut line = "  ".to_owned();
    line.append(format_decimal_wide(healthy as u128).as_str());
    line.append("/");
    line.append(format_decimal_wide(total as u128).as_str());
    line.append(" nodes healthy");
    line
}

/// The number of targets that count as healthy.
pub open spec fn healthy_targets(targets: Seq<DeployTargetView>) -> nat
    decreases targets.len(),
{
    if targets.len() == 0 {
        0
    } else {
        healthy_targets(targets.drop_last()) + if targets.last().status.counts_as_healthy() {
            1nat
        } else {
            0nat
        }
    }
}

pub fn count_healthy(targets: &Vec<DeployTarget>) -> (n: usize)
    ensures
        n == healthy_targets(targets.deep_view()),
        n <= targets.len(),
{
    let mut n: usize = 0;
    let mut i: usize = 0;
    while i < targets.len()
        invariant
            i <= targets.len(),
            n <= i,
            n == healthy_targets(targets.deep_view().take(i as int)),
        decreases targets.len() - i,
    {
        proof {
            let t = targets.deep_view().take(i + 1);
            assert(t.drop_last() =~= targets.deep_view().take(i as int));
            assert(t.last() == targets@[i as int]@);
        }
        if targets[i].status.is_healthy() {
            n += 1;
        }
        i += 1;
    }
    assert(targets.deep_view().take(targets.len() as int) =~= targets.deep_view());
    n
}

/// The line of a group in the list of groups.
pub open spec fn group_line_of(
    id: nat,
    name: Seq<char>,
    project: Option<Seq<char>>,
    nodes: nat,
    healthy: nat,
    strategy: Seq<char>,
) -> Seq<char> {
    "#"@ + decimal(id) + " "@ + name + " ("@ + (match project {
        Some(p) => p,
        None => "-"@,
    }) + ") - "@ + decimal(nodes) + " nodes ("@ + decimal(healthy) + " healthy) ["@ + strategy
        + "]"@
}

pub fn group_line(
    id: u64,
    name: &str,
    project: &Option<String>,
    nodes: u64,
    healthy: u64,
    strategy: &str,
) -> (line: String)
    ensures
        line@ == group_line_of(
            id as nat,
            name@,
            crate::text::opt_text(*project),
            nodes as nat,
            healthy as nat,
            strategy@,
        ),
{
    let mut line = "#".to_owned();
    line.append(format_decimal(id).as_str());
    line.append(" ");
    line.append(name);
    line.append(" (");
    match project {
        Some(p) => line.append(p.as_str()),
        None => line.append("-"),
    }
    line.append(") - ");
    line.append(format_decimal(nodes).as_str());
    line.append(" nodes (");
    line.append(format_decimal(healthy).as_str());
    line.append(" healthy) [");
    line.append(strategy);
    line.append("]");
    line
}

/// The line of a node in the details of a group: name, address, region,
/// zone and weight.
pub open spec fn member_line_of(t: DeployTargetView) -> Seq<char> {
    (match t.hostname {
        Some(name) => name,
        None => t.ip_address,
    }) + " ("@ + t.ip_address + ") - "@ + (match t.region {
        Some(region) => region,
        None => "-"@,
    }) + " zone:"@ + (match t.zone {
        Some(zone) => zone,
        None => "-"@,
    }) + " weight:"@ + decimal(t.weight)
}

pub fn member_line(t: &DeployTarget) -> (line: String)
    ensures
        line@ == member_line_of(t@),
{
    let mut line = match &t.hostname {
        Some(name) => name.clone(),
        None => t.ip_address.clone(),
    };
    line.append(" (");
    line.append(t.ip_address.as_str());
    line.append(") - ");
    match &t.region {
        Some(region) => line.append(region.as_str()),
        None => line.append("-"),
    }
    line.append(" zone:");
    match &t.zone {
        Some(zone) => line.append(zone.as_str()),
        None => line.append("-"),
    }
    line.append(" weight:");
    line.append(format_decimal(t.weight as u64).as_str());
    line
}

// ---------------------------------------------------------------------------
// The status of an application on several nodes
// ---------------------------------------------------------------------------

/// The names under which the status of an application is asked for: the
/// project and the application, each standing in for the other where only
/// one is declared. None where neither is.
pub open spec fn status_names_of(project: Option<String>, app: Option<String>) -> Option<
    (Seq<char>, Seq<char>),
> {
    match (project, app) {
        (Some(p), Some(a)) => Some((p@, a@)),
        (Some(p), None) => Some((p@, p@)),
        (None, Some(a)) => Some((a@, a@)),
        (None, None) => None,
    }
}

pub fn status_names(project: &Option<String>, app: &Option<String>) -> (names: Option<
    (String, String),
>)
    ensures
        match status_names_of(*project, *app) {
            Some(pair) => names matches Some(found) && found.0@ == pair.0 && found.1@ == pair.1,
            None => names is None,
        },
{
    match (project, app) {
        (Some(p), Some(a)) => Some((p.clone(), a.clone())),
        (Some(p), None) => Some((p.clone(), p.clone())),
        (None, Some(a)) => Some((a.clone(), a.clone())),
        (None, None) => None,
    }
}

/// Whether the status is shown node by node: where more than one node is
/// bound.
pub fn shows_each_node(bound: usize) -> (r: bool)
    ensures
        r == (bound > 1),
{
    bound > 1
}

/// The heading of the status of an application.
pub open spec fn app_heading_of(app: Seq<char>, project: Seq<char>) -> Seq<char> {
    "📊 App: "@ + app + " (project: "@ + project + ")"@
}

pub fn app_heading(app: &str, project: &str) -> (line: String)
    ensures
        line@ == app_heading_of(app@, project@),
{
    let mut line = "📊 App: ".to_owned();
    line.append(app);
    line.append(" (project: ");
    line.append(project);
    line.append(")");
    line
}

/// The line that names the mode of a pool: the number of nodes and the
/// strategy, `single` where the application has none.
pub open spec fn mode_line_of(mode: Seq<char>, nodes: nat, strategy: Option<Seq<char>>) -> Seq<
    char,
> {
    "   Mode: "@ + mode + " ("@ + decimal(nodes) + " nodes, strategy: "@ + (match strategy {
        Some(name) => name,
        None => "single"@,
    }) + ")"@
}

pub fn mode_line(mode: &str, nodes: usize, strategy: &Option<String>) -> (line: String)
    ensures
        line@ == mode_line_of(mode@, nodes as nat, crate::text::opt_text(*strategy)),
{
    let mut line = "   Mode: ".to_owned();
    line.append(mode);
    line.append(" (");
    line.append(format_decimal_wide(nodes as u128).as_str());
    line.append(" nodes, strategy: ");
    match strategy {
        Some(name) => line.append(name.as_str()),
        None => line.append("single"),
    }
    line.append(")");
    line
}

/// The heading of one node in the status of an application: its region,
/// a dash where it has none, and its host name, empty where it has none.
pub open spec fn node_heading_of(t: DeployTargetView) -> Seq<char> {
    "  Node "@ + decimal(t.node_id) + " ("@ + (match t.region {
        Some(region) => region,
        None => "-"@,
    }) + ", "@ + (match t.hostname {
        Some(name) => name,
        None => Seq::<char>::empty(),
    }) + ")"@ + (if t.is_primary {
        " (primary)"@
    } else {
        Seq::<char>::empty()
    })
}

pub fn node_heading(t: &DeployTarget) -> (line: String)
    ensures
        line@ == node_heading_of(t@),
{
    let mut line = "  Node ".to_owned();
    line.append(format_decimal(t.node_id).as_str());
    line.append(" (");
    match &t.region {
        Some(region) => line.append(region.as_str()),
        None => line.append("-"),
    }
    line.append(", ");
    match &t.hostname {
        Some(name) => line.append(name.as_str()),
        None => {},
    }
    line.append(")");
    if t.is_primary {
        line.append(" (primary)");
    }
    line
}

} // verus!
