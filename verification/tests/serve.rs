use ops_cli::serve::actions::{
    after_git, after_up, combined_result, command_result, deploy, deploy_with_repo,
    restart_service, start_service, stop_service, ActionResult, DeployStep,
};
use ops_cli::serve::containers::{entries, list_containers, list_services, parse_container, Container};
use ops_cli::serve::{
    check_auth, compose_dirs, default_lines, find_compose_dir, health, DaemonHealth,
};

fn strings(items: &[&str]) -> Vec<String> {
    items.iter().map(|s| s.to_string()).collect()
}

fn container(state: &str) -> Container {
    Container {
        name: "c".to_string(),
        service: "s".to_string(),
        state: state.to_string(),
        status: String::new(),
        ports: String::new(),
    }
}

#[test]
fn service_calls() {
    let call = restart_service("/opt/app", "web");
    assert_eq!(call.dir, "/opt/app");
    assert_eq!(call.args, strings(&["compose", "restart", "web"]));
    assert_eq!(call.action, "restart");
    assert_eq!(stop_service("/d", "db").args, strings(&["compose", "stop", "db"]));
    assert_eq!(stop_service("/d", "db").action, "stop");
    assert_eq!(start_service("/d", "db").args, strings(&["compose", "start", "db"]));
    assert_eq!(start_service("/d", "db").action, "start");
}

#[test]
fn command_results() {
    let ok = command_result("restart", true, "ignored");
    assert!(ok.success);
    assert_eq!(ok.message, "restart completed");
    let bad = command_result("stop", false, "no such service: db\n");
    assert!(!bad.success);
    assert_eq!(bad.message, "stop failed: no such service: db\n");
}

#[test]
fn deploy_pulls_where_a_repository_is() {
    match deploy("/opt/app", true) {
        DeployStep::Pull { dir } => assert_eq!(dir, "/opt/app"),
        other => panic!("unexpected {:?}", other),
    }
    match deploy_with_repo("/opt/app", Some("git@host:r.git"), Some("dev"), true) {
        DeployStep::Pull { dir } => assert_eq!(dir, "/opt/app"),
        other => panic!("unexpected {:?}", other),
    }
}

#[test]
fn deploy_clones_where_none_is() {
    match deploy_with_repo("/opt/app", Some("git@host:r.git"), None, false) {
        DeployStep::Clone { branch, repo, path } => {
            assert_eq!(branch, "main");
            assert_eq!(repo, "git@host:r.git");
            assert_eq!(path, "/opt/app");
        }
        other => panic!("unexpected {:?}", other),
    }
    match deploy_with_repo("/opt/app", Some("r"), Some("dev"), false) {
        DeployStep::Clone { branch, .. } => assert_eq!(branch, "dev"),
        other => panic!("unexpected {:?}", other),
    }
}

#[test]
fn deploy_without_repository_or_url_fails() {
    match deploy("/opt/app", false) {
        DeployStep::Done(r) => {
            assert!(!r.success);
            assert_eq!(r.message, "No git repository at /opt/app and no repo URL provided");
        }
        other => panic!("unexpected {:?}", other),
    }
}

#[test]
fn deploy_goes_on_after_git_unless_it_failed() {
    assert!(matches!(after_git("/opt/app", false, true, ""), DeployStep::Up { .. }));
    match after_git("/opt/app", true, false, "denied") {
        DeployStep::Done(r) => assert_eq!(r.message, "git clone failed: denied"),
        other => panic!("unexpected {:?}", other),
    }
    match after_git("/opt/app", false, false, "conflict") {
        DeployStep::Done(r) => {
            assert!(!r.success);
            assert_eq!(r.message, "git pull failed: conflict");
        }
        other => panic!("unexpected {:?}", other),
    }
    let up = after_up(true, "");
    assert!(up.success);
    assert_eq!(up.message, "Deploy completed successfully");
    let down = after_up(false, "port in use");
    assert!(!down.success);
    assert_eq!(down.message, "docker compose up failed: port in use");
}

#[test]
fn combined_results() {
    let all = vec![
        ActionResult { success: true, message: "a".to_string() },
        ActionResult { success: false, message: "b".to_string() },
    ];
    let r = combined_result(&all);
    assert!(!r.success);
    assert_eq!(r.message, "a; b");
    let none = combined_result(&Vec::new());
    assert!(none.success);
    assert_eq!(none.message, "");
}

#[test]
fn bearer_token() {
    assert!(check_auth("t0k", &Some("Bearer t0k".to_string())));
    assert!(!check_auth("t0k", &Some("Bearer t0k ".to_string())));
    assert!(!check_auth("t0k", &Some("bearer t0k".to_string())));
    assert!(!check_auth("t0k", &Some("t0k".to_string())));
    assert!(!check_auth("t0k", &None));
    assert!(!check_auth("", &None));
    assert!(check_auth("", &Some("Bearer ".to_string())));
}

#[test]
fn compose_directories() {
    assert_eq!(compose_dirs("/a, /b ,/c"), strings(&["/a", "/b", "/c"]));
    assert_eq!(compose_dirs("/a"), strings(&["/a"]));
    assert_eq!(compose_dirs(""), strings(&[""]));
}

#[test]
fn daemon_health() {
    let r = health(&Vec::new());
    assert_eq!((r.status, r.containers, r.all_running), (DaemonHealth::Unknown, 0, true));
    let r = health(&vec![container("running"), container("running")]);
    assert_eq!((r.status, r.containers, r.all_running), (DaemonHealth::Healthy, 2, true));
    let r = health(&vec![container("running"), container("exited"), container("running")]);
    assert_eq!((r.status, r.containers, r.all_running), (DaemonHealth::Degraded, 3, false));
    assert_eq!(DaemonHealth::Degraded.as_str(), "degraded");
    assert_eq!(DaemonHealth::Unknown.as_str(), "unknown");
    assert_eq!(DaemonHealth::Healthy.as_str(), "healthy");
    assert_eq!(default_lines(), 100);
}

#[test]
fn compose_dir_of_a_service() {
    let by_dir = vec![strings(&["web", "db"]), strings(&[]), strings(&["worker", "db"])];
    assert_eq!(find_compose_dir(&by_dir, "db"), Some(0));
    assert_eq!(find_compose_dir(&by_dir, "worker"), Some(2));
    assert_eq!(find_compose_dir(&by_dir, "cache"), None);
    assert_eq!(find_compose_dir(&Vec::new(), "db"), None);
}

#[test]
fn container_from_a_json_line() {
    let c = parse_container(
        r#"{"Name":"app-web-1","Service":"web","State":"running","Status":"Up 2 hours","Ports":"0.0.0.0:80->80/tcp","Extra":1}"#,
    )
    .unwrap();
    assert_eq!(c.name, "app-web-1");
    assert_eq!(c.service, "web");
    assert_eq!(c.state, "running");
    assert_eq!(c.status, "Up 2 hours");
    assert_eq!(c.ports, "0.0.0.0:80->80/tcp");
}

#[test]
fn container_fields_that_are_missing_or_no_string_are_empty() {
    let c = parse_container(r#"{"Name":"x","State":3,"Ports":null}"#).unwrap();
    assert_eq!(c.name, "x");
    assert_eq!(c.service, "");
    assert_eq!(c.state, "");
    assert_eq!(c.ports, "");
    let c = parse_container("[1,2]").unwrap();
    assert_eq!(c.name, "");
    assert!(parse_container("not json").is_none());
    assert!(parse_container("").is_none());
    assert!(parse_container("{} {}").is_none());
}

#[test]
fn containers_of_a_listing() {
    let out = "{\"Name\":\"a\",\"State\":\"running\"}\n\n  garbage\n {\"Name\":\"b\",\"State\":\"exited\"} \n";
    let list = list_containers(out);
    assert_eq!(list.len(), 2);
    assert_eq!(list[0].name, "a");
    assert_eq!(list[1].name, "b");
    assert_eq!(list[1].state, "exited");
    assert!(list_containers("").is_empty());
}

#[test]
fn services_of_a_listing() {
    assert_eq!(list_services(" web \n\ndb\n"), strings(&["web", "db"]));
    assert_eq!(entries("\n \n"), strings(&[]));
}

#[test]
fn the_daemon_is_installed_as_a_service() {
    let machine = ops_cli::serve::install::Machine { certificate_exists: false, sites_enabled: true };
    let steps = ops_cli::serve::install::install_plan("/usr/local/bin/ops", "s3cret", 8377, "/root,/srv", &None, machine);
    let shown: Vec<String> = steps.iter().map(|s| format!("{:?}", s)).collect();
    assert_eq!(steps.len(), 4);
    match &steps[0] {
        ops_cli::serve::install::InstallStep::Write { path, content } => {
            assert_eq!(path, "/etc/systemd/system/ops-serve.service");
            assert_eq!(
                content,
                "[Unit]\nDescription=OPS Serve\nAfter=network.target docker.service\nWants=docker.service\n\n[Service]\nType=simple\nExecStart=/usr/local/bin/ops serve --token s3cret --port 8377 --compose-dir /root,/srv\nRestart=always\nRestartSec=5\n\n[Install]\nWantedBy=multi-user.target\n"
            );
        }
        other => panic!("unexpected first step: {:?}", other),
    }
    assert!(shown[1].contains("systemctl daemon-reload") && shown[1].contains("Reloaded systemd"));
    assert!(shown[2].contains("systemctl enable ops-serve") && shown[2].contains("Enabled ops-serve"));
    assert!(shown[3].contains("systemctl restart ops-serve") && shown[3].contains("Failed: systemctl restart ops-serve"));
}

#[test]
fn a_domain_puts_the_daemon_behind_the_proxy() {
    let domain = Some("7.node.ops.autos".to_string());
    let fresh = ops_cli::serve::install::Machine { certificate_exists: false, sites_enabled: false };
    let steps = ops_cli::serve::install::install_plan("/bin/ops", "t", 9000, "/root", &domain, fresh);
    assert_eq!(steps.len(), 9);
    match &steps[4] {
        ops_cli::serve::install::InstallStep::MakeDir { path } => assert_eq!(path, "/etc/nginx/ssl"),
        other => panic!("unexpected step: {:?}", other),
    }
    match &steps[5] {
        ops_cli::serve::install::InstallStep::Run { command, done, failed } => {
            assert_eq!(
                command,
                "openssl req -x509 -nodes -days 3650 -newkey rsa:2048 -keyout /etc/nginx/ssl/ops-serve.key -out /etc/nginx/ssl/ops-serve.crt -subj '/CN=ops-serve'"
            );
            assert_eq!(done, "Generated self-signed SSL certificate");
            assert_eq!(failed, "Failed to generate SSL certificate");
        }
        other => panic!("unexpected step: {:?}", other),
    }
    match &steps[6] {
        ops_cli::serve::install::InstallStep::Write { path, content } => {
            assert_eq!(path, "/etc/nginx/conf.d/ops-serve.conf");
            assert_eq!(
                content,
                "server {\n    listen 80;\n    listen 443 ssl;\n    server_name 7.node.ops.autos;\n\n    ssl_certificate /etc/nginx/ssl/ops-serve.crt;\n    ssl_certificate_key /etc/nginx/ssl/ops-serve.key;\n\n    location / {\n        proxy_pass http://127.0.0.1:9000;\n        proxy_set_header Host $host;\n        proxy_set_header X-Real-IP $remote_addr;\n        proxy_set_header X-Forwarded-For $proxy_add_x_forwarded_for;\n        proxy_set_header X-Forwarded-Proto $scheme;\n        proxy_http_version 1.1;\n        proxy_set_header Upgrade $http_upgrade;\n        proxy_set_header Connection \"upgrade\";\n    }\n}"
            );
        }
        other => panic!("unexpected step: {:?}", other),
    }
    match &steps[8] {
        ops_cli::serve::install::InstallStep::Run { command, done, failed } => {
            assert_eq!(command, "systemctl reload nginx");
            assert_eq!(done, "Reloaded nginx");
            assert_eq!(failed, "Failed: systemctl reload nginx");
        }
        other => panic!("unexpected step: {:?}", other),
    }

    // A certificate that is there is kept, and the site goes where sites are enabled.
    let used = ops_cli::serve::install::Machine { certificate_exists: true, sites_enabled: true };
    let steps = ops_cli::serve::install::install_plan("/bin/ops", "t", 9000, "/root", &domain, used);
    assert_eq!(steps.len(), 7);
    match &steps[4] {
        ops_cli::serve::install::InstallStep::Write { path, .. } => {
            assert_eq!(path, "/etc/nginx/sites-enabled/ops-serve.conf")
        }
        other => panic!("unexpected step: {:?}", other),
    }
}

#[test]
fn what_is_said_of_an_installation_step() {
    assert_eq!(ops_cli::serve::install::wrote_line("/etc/x.conf"), "✓ Wrote /etc/x.conf");
    assert_eq!(ops_cli::serve::install::ran_line("Reloaded nginx", "Failed: nginx -t", true), "✓ Reloaded nginx");
    assert_eq!(ops_cli::serve::install::ran_line("Reloaded nginx", "Failed: nginx -t", false), "✗ Failed: nginx -t");
}
