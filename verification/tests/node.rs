use ops_cli::api::{ci_key_url, error_message, projects_url};
use ops_cli::init::{
    authorized_entry, compose_directory, ends_with, is_already_registered, is_node_site,
    is_route_fragment, needs_reload, old_certificates, public_key_file,
};
use ops_cli::metrics::{
    cpu_delta, first_line, parse_cpu_line, parse_meminfo_value, read_memory, CpuTicks, Memory,
};
use ops_cli::node::{allowed, bound_app_line, node_line, refusal_text, removal, removal_warning, Removal};
use ops_cli::remote::{
    brief_status_command, copy_target, env_reference, logs_command, push_args, push_destination,
    status_command, transfer_shell, unset_variable,
};
use ops_cli::scanner::Snapshot;
use ops_cli::update::{check_for_update, decide_update, update_available};

fn strings(items: &[&str]) -> Vec<String> {
    items.iter().map(|s| s.to_string()).collect()
}

#[test]
fn removal_needs_force_or_consent() {
    assert_eq!(removal(true, true), Removal::Proceed);
    assert_eq!(removal(true, false), Removal::Proceed);
    assert_eq!(removal(false, true), Removal::Ask);
    assert_eq!(removal(false, false), Removal::Refuse);
    assert_eq!(refusal_text(), "Destructive operation requires --force in non-interactive mode");
    assert_eq!(removal_warning(12), "This will delete node #12 and all its associated data.");
}

#[test]
fn node_lines() {
    assert_eq!(allowed(&None), "all");
    assert_eq!(allowed(&Some(strings(&["a", "b"]))), "a, b");
    assert_eq!(allowed(&Some(Vec::new())), "");
    assert_eq!(bound_app_line("api", "RedQ", true), "  • api.RedQ (primary)");
    assert_eq!(bound_app_line("api", "RedQ", false), "  • api.RedQ");
    assert_eq!(
        node_line(7, &Some("web-7".to_string()), "10.0.0.7", &Some("eu-west".to_string()), true),
        "#7 web-7 (10.0.0.7) region:eu-west [serve ✓]"
    );
    assert_eq!(node_line(7, &None, "10.0.0.7", &None, false), "#7 10.0.0.7 (10.0.0.7) region:- [serve ✗]");
}

#[test]
fn errors_of_the_control_plane() {
    assert_eq!(error_message(r#"{"error":"Node not found"}"#), "Node not found");
    assert_eq!(error_message(r#"{"message":"x"}"#), r#"{"message":"x"}"#);
    assert_eq!(error_message(r#"{"error":42}"#), r#"{"error":42}"#);
    assert_eq!(error_message("Bad Gateway"), "Bad Gateway");
    assert_eq!(error_message(""), "");
}

#[test]
fn addresses_of_the_control_plane() {
    assert_eq!(projects_url("https://api", &None), "https://api/projects");
    assert_eq!(projects_url("https://api", &Some("shop".to_string())), "https://api/projects?name=shop");
    assert_eq!(ci_key_url("https://api", "RedQ", "prod"), "https://api/nodes/RedQ/prod/ci-private-key");
}

#[test]
fn newer_versions() {
    assert_eq!(check_for_update("1.2.3", "1.2.4").unwrap().as_deref(), Some("1.2.4"));
    assert_eq!(check_for_update("1.5.0", "1.19.0").unwrap().as_deref(), Some("1.19.0"));
    assert_eq!(check_for_update("1.19.0", "1.5.0").unwrap(), None);
    assert_eq!(check_for_update("1.2.3", "1.2.3").unwrap(), None);
    assert_eq!(check_for_update("1.0.0-rc.1", "1.0.0").unwrap().as_deref(), Some("1.0.0"));
    assert_eq!(check_for_update("1.0.0", "1.0.0-rc.1").unwrap(), None);
    assert_eq!(check_for_update("1.0.0-alpha.2", "1.0.0-alpha.11").unwrap().as_deref(), Some("1.0.0-alpha.11"));
}

#[test]
fn texts_that_are_no_versions() {
    assert_eq!(check_for_update("1.2", "1.2.4").unwrap_err().text, "1.2");
    assert_eq!(check_for_update("1.2", "1.2.4").unwrap_err().message(), "Not a version: 1.2");
    assert_eq!(check_for_update("1.2.3", "v1.2.4").unwrap_err().text, "v1.2.4");
    assert_eq!(check_for_update("one", "two").unwrap_err().text, "one");
    assert_eq!(check_for_update("1.2.3", "").unwrap_err().text, "");
    assert_eq!(check_for_update("1.02.3", "2.0.0").unwrap_err().text, "1.02.3");
}

#[test]
fn update_is_available_when_the_versions_differ() {
    assert!(update_available("1.0.0", &Some("1.0.1".to_string())));
    assert!(update_available("1.0.1", &Some("1.0.0".to_string())));
    assert!(!update_available("1.0.0", &Some("1.0.0".to_string())));
    assert!(!update_available("1.0.0", &None));
}

#[test]
fn memory_readings() {
    assert_eq!(parse_meminfo_value("MemTotal:       16384000 kB"), 16384000);
    assert_eq!(parse_meminfo_value("MemTotal:"), 0);
    assert_eq!(parse_meminfo_value("MemTotal: lots kB"), 0);
    assert_eq!(parse_meminfo_value(""), 0);
    let info = "MemTotal:       16384000 kB\nMemFree:         1000000 kB\nMemAvailable:    8192000 kB\n";
    assert_eq!(read_memory(info), Memory { used_mb: 8000, total_mb: 16000 });
    assert_eq!(read_memory(""), Memory { used_mb: 0, total_mb: 0 });
    assert_eq!(
        read_memory("MemTotal: 1024 kB\nMemAvailable: 4096 kB\n"),
        Memory { used_mb: 0, total_mb: 1 }
    );
    assert_eq!(
        read_memory("MemTotal: 2048 kB\nMemTotal: 4096 kB\n"),
        Memory { used_mb: 4, total_mb: 4 }
    );
}

#[test]
fn processor_readings() {
    let line = "cpu  100 20 30 400 5 0 6 0 0 0";
    assert_eq!(parse_cpu_line(line), Some(CpuTicks { idle: 400, total: 561 }));
    assert_eq!(parse_cpu_line("cpu 1 2 3"), None);
    assert_eq!(parse_cpu_line("cpu 1 x 2 3 4"), Some(CpuTicks { idle: 4, total: 10 }));
    assert_eq!(parse_cpu_line(""), None);
    assert_eq!(parse_cpu_line("1 2 3 4"), None);
    let first = Some(CpuTicks { idle: 400, total: 561 });
    let second = Some(CpuTicks { idle: 450, total: 661 });
    assert_eq!(cpu_delta(first, second), CpuTicks { idle: 50, total: 100 });
    assert_eq!(cpu_delta(second, first), CpuTicks { idle: 0, total: 0 });
    assert_eq!(cpu_delta(None, None), CpuTicks { idle: 0, total: 0 });
    assert_eq!(cpu_delta(None, second), CpuTicks { idle: 450, total: 660 });
    assert_eq!(first_line("cpu 1 2\ncpu0 1 2\n"), "cpu 1 2");
    assert_eq!(first_line(""), "");
}

#[test]
fn what_an_earlier_installation_left() {
    assert!(ends_with("7.node.ops.autos", ".node.ops.autos"));
    assert!(!ends_with("autos", ".node.ops.autos"));
    assert!(ends_with("x", ""));
    assert!(is_node_site("12.node.ops.autos"));
    assert!(!is_node_site("12.node.ops.autos.conf"));
    assert!(is_route_fragment("ops-api-RedQ.caddy"));
    assert!(!is_route_fragment("Caddyfile"));
    assert_eq!(old_certificates().len(), 4);
    assert_eq!(old_certificates()[0], "/etc/ssl/certs/ops-serve.crt");
    let removed = strings(&["/etc/nginx/sites-enabled/7.node.ops.autos", "/etc/ssl/certs/ops-serve.crt"]);
    assert!(needs_reload(&removed, "nginx"));
    assert!(!needs_reload(&removed, "caddy"));
    assert!(!needs_reload(&Vec::new(), "nginx"));
    assert!(is_already_registered("IP 1.2.3.4 is already registered as node 7"));
    assert!(!is_already_registered("Already Registered"));
}

#[test]
fn keys_of_the_operator() {
    let dir = |files: &[&str]| Snapshot { files: strings(files), texts: Vec::new() };
    assert_eq!(public_key_file(&dir(&["id_rsa.pub", "id_ed25519.pub"])), Some("id_ed25519.pub"));
    assert_eq!(public_key_file(&dir(&["id_ecdsa.pub", "id_rsa.pub"])), Some("id_rsa.pub"));
    assert_eq!(public_key_file(&dir(&["id_ecdsa.pub"])), Some("id_ecdsa.pub"));
    assert_eq!(public_key_file(&dir(&["id_rsa"])), None);
    assert_eq!(
        authorized_entry("ssh-ed25519 AAAA ci"),
        "\n# Added by ops.autos CLI for CI/CD\nssh-ed25519 AAAA ci\n"
    );
    assert_eq!(compose_directory(&None), "/root");
    assert_eq!(compose_directory(&Some("/srv".to_string())), "/srv");
}

#[test]
fn status_and_logs() {
    assert_eq!(status_command("/opt/app"), "cd /opt/app && docker compose ps");
    assert_eq!(
        brief_status_command("/opt/app"),
        "cd /opt/app && docker compose ps --format '  {{.Name}}\\t{{.Status}}'"
    );
    assert_eq!(
        logs_command("/opt/app", "web", 100, false),
        "cd /opt/app && docker compose logs --tail=100 web"
    );
    assert_eq!(
        logs_command("/opt/app", "web", 5, true),
        "cd /opt/app && docker compose logs --tail=5 -f web"
    );
}

#[test]
fn transfers() {
    assert_eq!(env_reference("$GHCR_PAT").as_deref(), Some("GHCR_PAT"));
    assert_eq!(env_reference("$").as_deref(), Some(""));
    assert_eq!(env_reference("plain"), None);
    assert_eq!(env_reference(""), None);
    assert_eq!(unset_variable("$GHCR_PAT"), "Environment variable $GHCR_PAT not set");
    assert_eq!(
        transfer_shell("/tmp/key"),
        "ssh -i /tmp/key -o StrictHostKeyChecking=no -o UserKnownHostsFile=/dev/null -o LogLevel=ERROR"
    );
    assert_eq!(push_destination("4.node.ops.autos", "/opt/app"), "root@4.node.ops.autos:/opt/app/");
    assert_eq!(
        push_args("ssh -i k", "root@h:/p/"),
        strings(&[
            "-az",
            "--delete",
            "-e",
            "ssh -i k",
            "--exclude",
            "target/",
            "--exclude",
            "node_modules/",
            "--exclude",
            ".git/",
            "--exclude",
            ".env",
            "--exclude",
            ".env.deploy",
            "./",
            "root@h:/p/"
        ])
    );
    assert_eq!(copy_target("h", None), "root@h:/root/");
    assert_eq!(copy_target("h", Some(&"/srv/".to_string())), "root@h:/srv/");
}

#[test]
fn an_update_is_decided_from_what_is_known_of_the_two_texts() {
    assert_eq!(decide_update("1.0.0", "1.1.0", true, true, true).unwrap().as_deref(), Some("1.1.0"));
    assert_eq!(decide_update("1.0.0", "1.1.0", true, true, false).unwrap(), None);
    assert_eq!(decide_update("x", "1.1.0", false, true, true).unwrap_err().text, "x");
    assert_eq!(decide_update("1.0.0", "y", true, false, true).unwrap_err().text, "y");
    assert_eq!(decide_update("x", "y", false, false, false).unwrap_err().text, "x");
}
