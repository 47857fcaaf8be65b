use ops_cli::init::{cleanup_plan, cleanup_report, needs_reload, CleanupStep, Residue};
use ops_cli::output::Kind;

fn names(items: &[&str]) -> Vec<String> {
    items.iter().map(|s| s.to_string()).collect()
}

fn nothing() -> Residue {
    Residue { service: false, sites: vec![], certificates: vec![], fragments: vec![] }
}

fn shown(steps: &[CleanupStep]) -> Vec<String> {
    steps
        .iter()
        .map(|s| match s {
            CleanupStep::StopService => "stop".to_string(),
            CleanupStep::DisableService => "disable".to_string(),
            CleanupStep::ReloadUnits => "daemon-reload".to_string(),
            CleanupStep::Remove(path) => format!("rm {}", path),
        })
        .collect()
}

#[test]
fn a_clean_machine_needs_no_clean_up() {
    assert!(cleanup_plan(&nothing()).is_empty());
    let unrelated = Residue {
        service: false,
        sites: names(&["default", "blog.example.com", "node.ops.autos.bak"]),
        certificates: names(&["/etc/ssl/certs/other.crt"]),
        fragments: names(&["README", "api.caddy.disabled"]),
    };
    assert!(cleanup_plan(&unrelated).is_empty());
}

#[test]
fn the_daemon_is_stopped_before_its_unit_goes() {
    let mut found = nothing();
    found.service = true;
    assert_eq!(
        shown(&cleanup_plan(&found)),
        vec!["stop", "disable", "rm /etc/systemd/system/ops-serve.service", "daemon-reload"]
    );
}

#[test]
fn sites_of_nodes_go_where_enabled_and_where_kept() {
    let mut found = nothing();
    found.sites = names(&["default", "12.node.ops.autos", "x.node.ops.autos.old", ".node.ops.autos"]);
    assert_eq!(
        shown(&cleanup_plan(&found)),
        vec![
            "rm /etc/nginx/sites-enabled/12.node.ops.autos",
            "rm /etc/nginx/sites-available/12.node.ops.autos",
            "rm /etc/nginx/sites-enabled/.node.ops.autos",
            "rm /etc/nginx/sites-available/.node.ops.autos",
        ]
    );
}

#[test]
fn only_the_known_certificates_go_and_in_their_own_order() {
    let mut found = nothing();
    found.certificates = names(&[
        "/etc/nginx/ssl/ops-serve.key",
        "/etc/ssl/certs/unrelated.crt",
        "/etc/ssl/certs/ops-serve.crt",
    ]);
    assert_eq!(
        shown(&cleanup_plan(&found)),
        vec!["rm /etc/ssl/certs/ops-serve.crt", "rm /etc/nginx/ssl/ops-serve.key"]
    );
}

#[test]
fn a_full_clean_up_takes_the_daemon_then_sites_then_certificates_then_fragments() {
    let found = Residue {
        service: true,
        sites: names(&["7.node.ops.autos"]),
        certificates: names(&["/etc/ssl/private/ops-serve.key"]),
        fragments: names(&["api.caddy", "notes.txt", "web.caddy"]),
    };
    assert_eq!(
        shown(&cleanup_plan(&found)),
        vec![
            "stop",
            "disable",
            "rm /etc/systemd/system/ops-serve.service",
            "daemon-reload",
            "rm /etc/nginx/sites-enabled/7.node.ops.autos",
            "rm /etc/nginx/sites-available/7.node.ops.autos",
            "rm /etc/ssl/private/ops-serve.key",
            "rm /etc/caddy/routes.d/api.caddy",
            "rm /etc/caddy/routes.d/web.caddy",
        ]
    );
}

#[test]
fn the_report_of_a_clean_up_names_what_went() {
    let removed = names(&["/etc/nginx/sites-available/7.node.ops.autos", "/etc/caddy/routes.d/api.caddy"]);
    let report = cleanup_report(&removed);
    let lines: Vec<(Kind, &str)> = report.iter().map(|m| (m.kind, m.text.as_str())).collect();
    assert_eq!(
        lines,
        vec![
            (Kind::Warn, "Found old OPS configuration, cleaning up..."),
            (Kind::Detail, "  Removed: /etc/nginx/sites-available/7.node.ops.autos"),
            (Kind::Detail, "  Removed: /etc/caddy/routes.d/api.caddy"),
            (Kind::Success, "✔ Old configuration cleaned"),
        ]
    );
    assert!(needs_reload(&removed, "nginx"));
    assert!(needs_reload(&removed, "caddy"));
}

#[test]
fn a_clean_up_that_removed_nothing_only_says_what_it_found() {
    let report = cleanup_report(&vec![]);
    assert_eq!(report.len(), 1);
    assert_eq!(report[0].kind, Kind::Warn);
    assert_eq!(report[0].text, "Found old OPS configuration, cleaning up...");
    assert!(!needs_reload(&vec![], "nginx"));
}
