//! The node daemon: what it answers about the services of a node, and the
//! commands it runs on request.

pub mod actions;
pub mod containers;
pub mod install;

use crate::text::{same_text, split, split_of, trim, trimmed, views};
use containers::Container;
use vstd::prelude::*;

verus! {

/// What the authorization header of a request must hold.
pub open spec fn bearer_of(token: Seq<char>) -> Seq<char> {
    "Bearer "@ + token
}

/// Whether a request is authorized: its authorization header is the bearer
/// form of the daemon's token. A request without the header is not.
pub fn check_auth(token: &str, header: &Option<String>) -> (ok: bool)
    ensures
        ok == (header matches Some(value) && value@ == bearer_of(token@)),
{
    let mut expected = "Bearer ".to_owned();
    expected.append(token);
    match header {
        Some(value) => same_text(value.as_str(), expected.as_str()),
        None => false,
    }
}

/// The compose directories named by an argument: its comma-separated parts,
/// each without the white space around it.
pub open spec fn compose_dirs_of(arg: Seq<char>) -> Seq<Seq<char>> {
    let parts = split_of(arg, ',');
    Seq::new(parts.len(), |i: int| trimmed(parts[i]))
}

pub fn compose_dirs(arg: &str) -> (dirs: Vec<String>)
    ensures
        views(dirs@) == compose_dirs_of(arg@),
{
    let parts = split(arg, ',');
    let mut dirs: Vec<String> = Vec::new();
    let mut i: usize = 0;
    while i < parts.len()
        invariant
            i <= parts.len(),
            dirs.len() == i,
            views(parts@) == split_of(arg@, ','),
            forall|j: int| 0 <= j < i ==> dirs@[j]@ == trimmed(parts@[j]@),
        decreases parts.len() - i,
    {
        dirs.push(trim(parts[i].as_str()));
        i += 1;
    }
    assert(views(dirs@) =~= compose_dirs_of(arg@));
    dirs
}

/// The health of a node as its daemon sees it.
#[derive(Debug, Clone, Copy, PartialEq, Eq, Structural)]
pub enum DaemonHealth {
    /// There is no container to judge by.
    Unknown,
    /// Every container runs.
    Healthy,
    /// A container does not run.
    Degraded,
}

impl DaemonHealth {
    pub open spec fn name(self) -> Seq<char> {
        match self {
            DaemonHealth::Unknown => "unknown"@,
            DaemonHealth::Healthy => "healthy"@,
            DaemonHealth::Degraded => "degraded"@,
        }
    }

    pub fn as_str(self) -> (r: &'static str)
        ensures
            r@ == self.name(),
    {
        match self {
            DaemonHealth::Unknown => "unknown",
            DaemonHealth::Healthy => "healthy",
            DaemonHealth::Degraded => "degraded",
        }
    }
}

/// Whether every container is in state `running`.
pub open spec fn all_running(containers: Seq<Container>) -> bool {
    forall|i: int| 0 <= i < containers.len() ==> (#[trigger] containers[i]).state@ == "running"@
}

pub open spec fn health_of(containers: Seq<Container>) -> DaemonHealth {
    if containers.len() == 0 {
        DaemonHealth::Unknown
    } else if all_running(containers) {
        DaemonHealth::Healthy
    } else {
        DaemonHealth::Degraded
    }
}

/// What the health endpoint reports for an authorized request.
#[derive(Debug, Clone, Copy, PartialEq, Eq, Structural)]
pub struct HealthReport {
    pub status: DaemonHealth,
    pub containers: usize,
    pub all_running: bool,
}

/// Judges the node by its containers.
pub fn health(containers: &Vec<Container>) -> (report: HealthReport)
    ensures
        report.status == health_of(containers@),
        report.containers == containers@.len(),
        report.all_running == all_running(containers@),
{
    let mut running = true;
    let mut i: usize = 0;
    while i < containers.len()
        invariant
            i <= containers.len(),
            running == all_running(containers@.take(i as int)),
        decreases containers.len() - i,
    {
        let ghost before = containers@.take(i as int);
        let ghost now = containers@.take(i + 1);
        if !same_text(containers[i].state.as_str(), "running") {
            running = false;
            assert(now[i as int].state@ != "running"@);
        } else {
            proof {
                if all_running(before) {
                    assert forall|j: int| 0 <= j < now.len() implies (#[trigger] now[j]).state@
                        == "running"@ by {
                        if j < i {
                            assert(before[j] == now[j]);
                        }
                    }
                } else {
                    let j = choose|j: int| 0 <= j < before.len() && before[j].state@ != "running"@;
                    assert(now[j] == before[j]);
                }
            }
        }
        i += 1;
    }
    assert(containers@.take(containers.len() as int) =~= containers@);
    let status = if containers.len() == 0 {
        DaemonHealth::Unknown
    } else if running {
        DaemonHealth::Healthy
    } else {
        DaemonHealth::Degraded
    };
    HealthReport { status, containers: containers.len(), all_running: running }
}

/// The number of log lines returned where a request names none.
pub fn default_lines() -> (n: u32)
    ensures
        n == 100,
{
    100
}

/// The position of the first directory whose services include `service`,
/// given the services of each directory; `None` where no directory has it.
pub fn find_compose_dir(services_by_dir: &Vec<Vec<String>>, service: &str) -> (found: Option<usize>)
    ensures
        match found {
            Some(i) => {
                &&& i < services_by_dir@.len()
                &&& views(services_by_dir@[i as int]@).contains(service@)
                &&& forall|j: int|
                    0 <= j < i ==> !views(#[trigger] services_by_dir@[j]@).contains(service@)
            },
            None => forall|j: int|
                0 <= j < services_by_dir@.len() ==> !views(#[trigger] services_by_dir@[j]@).contains(
                    service@,
                ),
        },
{
    let mut i: usize = 0;
    while i < services_by_dir.len()
        invariant
            i <= services_by_dir.len(),
            forall|j: int|
                0 <= j < i ==> !views(#[trigger] services_by_dir@[j]@).contains(service@),
        decreases services_by_dir.len() - i,
    {
        let services = &services_by_dir[i];
        let mut k: usize = 0;
        while k < services.len()
            invariant
                i < services_by_dir.len(),
                k <= services.len(),
                services@ == services_by_dir@[i as int]@,
                forall|j: int|
                    0 <= j < i ==> !views(#[trigger] services_by_dir@[j]@).contains(service@),
                forall|j: int| 0 <= j < k ==> views(services@)[j] != service@,
            decreases services.len() - k,
        {
            if same_text(services[k].as_str(), service) {
                assert(views(services@)[k as int] == service@);
                return Some(i);
            }
            k += 1;
        }
        i += 1;
    }
    None
}

} // verus!
