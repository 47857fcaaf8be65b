use ops_cli::config::{
    resolve_app_name, AppDef, Config, ConfigError, DeployConfig, GitConfig, OpsToml, Route, Source,
};
use ops_cli::remote::{
    app_route, clean_command, compose_file_args, copy_destination, decide, deploy_branch,
    deploy_key_path, domain_route, env_prefix, find_app, git_sync_command, grouped,
    health_command, health_passed, image_pull_command, inspects_containers,
    list_containers_command,
    list_services_command, listed_services, mkdir_command, preflight, prune_command,
    prunes_images, registry_login_command, reload_proxy_command, remote_key_path, remote_path,
    repo_check_command, repo_exists, resolve_services, route_files, routes_dir_command,
    start_command, store_key_command, ungrouped_services, use_key_command, with_login,
    write_file_command,
    write_route_command, Decision, Preflight,
};

fn strings(items: &[&str]) -> Vec<String> {
    items.iter().map(|s| s.to_string()).collect()
}

fn app(name: &str, services: &[&str], port: Option<u16>) -> AppDef {
    AppDef { name: name.to_string(), services: strings(services), port, domains: Vec::new() }
}

fn config(source: &str) -> OpsToml {
    OpsToml {
        project: "RedQ".to_string(),
        target: None,
        deploy_path: "/opt/redq".to_string(),
        deploy: DeployConfig {
            source: source.to_string(),
            branch: None,
            git: Some(GitConfig { repo: "git@github.com:acme/redq.git".to_string(), ssh_key: None }),
            registry: None,
            compose_files: None,
        },
        apps: Vec::new(),
        env_files: Vec::new(),
        sync: Vec::new(),
        routes: Vec::new(),
        healthchecks: Vec::new(),
    }
}

#[test]
fn compose_file_flags() {
    let mut c = config("git");
    assert_eq!(compose_file_args(&c), "");
    c.deploy.compose_files = Some(strings(&[]));
    assert_eq!(compose_file_args(&c), "");
    c.deploy.compose_files = Some(strings(&["a.yml"]));
    assert_eq!(compose_file_args(&c), "-f a.yml");
    c.deploy.compose_files = Some(strings(&["a.yml", "b.yml"]));
    assert_eq!(compose_file_args(&c), "-f a.yml -f b.yml");
}

#[test]
fn env_prefix_ends_with_a_space() {
    assert_eq!(env_prefix(&strings(&[])), "");
    assert_eq!(env_prefix(&strings(&["K=V"])), "K=V ");
    assert_eq!(env_prefix(&strings(&["K=V", "K2=V2"])), "K=V K2=V2 ");
}

#[test]
fn services_of_a_run() {
    let mut c = config("git");
    c.apps.push(app("api", &["web", "worker"], None));
    c.apps.push(app("jobs", &[], None));
    let api = Some("api".to_string());
    let svc = Some("db".to_string());
    assert_eq!(resolve_services(&c, &api, &svc), "db");
    assert_eq!(resolve_services(&c, &api, &None), "web worker");
    assert_eq!(resolve_services(&c, &Some("jobs".to_string()), &None), "");
    assert_eq!(resolve_services(&c, &Some("nope".to_string()), &None), "");
    assert_eq!(resolve_services(&c, &None, &None), "");
    assert_eq!(find_app(&c.apps, "jobs"), 1);
    assert_eq!(find_app(&c.apps, "nope"), 2);
}

#[test]
fn app_name_is_first_app_or_project() {
    let mut c = config("git");
    assert_eq!(resolve_app_name(&c), "RedQ");
    c.apps.push(app("api", &[], None));
    c.apps.push(app("web", &[], None));
    assert_eq!(resolve_app_name(&c), "api");
}

#[test]
fn preflight_commands() {
    let mut c = config("git");
    assert_eq!(mkdir_command("/opt/redq"), "mkdir -p /opt/redq");
    assert_eq!(
        list_services_command(&c, &strings(&[])),
        "cd /opt/redq && docker compose config --services 2>/dev/null"
    );
    c.deploy.compose_files = Some(strings(&["a.yml", "b.yml"]));
    assert_eq!(
        list_services_command(&c, &strings(&["TAG=1"])),
        "cd /opt/redq && TAG=1 docker compose -f a.yml -f b.yml config --services 2>/dev/null"
    );
    assert_eq!(
        clean_command(&c, &strings(&["TAG=1"])),
        "cd /opt/redq && TAG=1 docker compose -f a.yml -f b.yml down --remove-orphans 2>/dev/null; true"
    );
    assert_eq!(
        list_containers_command(),
        "docker ps -a --format 'table {{.Names}}\t{{.Status}}\t{{.Image}}' 2>/dev/null"
    );
}

#[test]
fn service_listing_and_groups() {
    let services = listed_services("\nweb\nworker\ndb\n\n");
    assert_eq!(services, strings(&["web", "worker", "db"]));
    assert!(listed_services("  \n").is_empty());
    let apps = vec![app("api", &["web"], None), app("jobs", &["worker", "cron"], None)];
    assert!(grouped(&apps, "cron"));
    assert!(!grouped(&apps, "db"));
    assert_eq!(ungrouped_services(&services, &apps), strings(&["db"]));
    assert_eq!(ungrouped_services(&services, &Vec::new()), services);
}

#[test]
fn preflight_decides_by_listing_and_force() {
    let header_only = "NAMES\tSTATUS\tIMAGE\n";
    let with_containers = "NAMES\tSTATUS\tIMAGE\nweb\tUp 2 hours\tweb:1\n";
    assert_eq!(preflight("", false), Preflight::Proceed);
    assert_eq!(preflight("", true), Preflight::Proceed);
    assert_eq!(preflight(header_only, true), Preflight::Proceed);
    assert_eq!(preflight(with_containers, true), Preflight::Clean);
    assert_eq!(preflight(with_containers, false), Preflight::Ask);
}

#[test]
fn the_three_answers() {
    assert_eq!(decide(0), Decision::Proceed);
    assert_eq!(decide(1), Decision::CleanThenProceed);
    assert_eq!(decide(2), Decision::Abort);
    assert_eq!(decide(3), Decision::Proceed);
}

#[test]
fn file_sync_paths() {
    assert_eq!(remote_path("/opt/redq", ".env"), "/opt/redq/.env");
    assert_eq!(write_file_command("/opt/redq/.env"), "cat > /opt/redq/.env");
    assert_eq!(
        copy_destination("4.node.ops.autos", "/opt/redq", "config"),
        "4.node.ops.autos:/opt/redq/config"
    );
}

#[test]
fn deploy_sources() {
    assert_eq!(Source::parse("git").unwrap(), Source::Git);
    assert_eq!(Source::parse("push").unwrap(), Source::Push);
    assert_eq!(Source::parse("image").unwrap(), Source::Image);
    match Source::parse("ftp") {
        Err(ConfigError::UnknownSource(word)) => assert_eq!(word, "ftp"),
        other => panic!("unexpected {:?}", other),
    }
    assert_eq!(Source::Image.as_str(), "image");
}

#[test]
fn git_sync_commands() {
    let mut c = config("git");
    assert_eq!(deploy_branch(&c), "main");
    assert_eq!(
        repo_check_command("/opt/redq"),
        "test -d /opt/redq/.git && echo 'exists' || echo 'missing'"
    );
    assert!(repo_exists("exists\n"));
    assert!(!repo_exists("missing\n"));
    assert!(!repo_exists(""));
    assert_eq!(git_sync_command(&c, true).unwrap(), "cd /opt/redq && git pull origin main");
    assert_eq!(
        git_sync_command(&c, false).unwrap(),
        "GIT_SSH_COMMAND='ssh -o StrictHostKeyChecking=no' git clone -b main git@github.com:acme/redq.git /opt/redq"
    );
    c.deploy.branch = Some("release".to_string());
    assert_eq!(git_sync_command(&c, true).unwrap(), "cd /opt/redq && git pull origin release");
    c.deploy.git = None;
    assert!(matches!(git_sync_command(&c, true), Err(ConfigError::MissingGitSection)));
    assert!(matches!(git_sync_command(&c, false), Err(ConfigError::MissingGitSection)));
}

#[test]
fn deploy_key_is_provisioned_before_the_first_clone_only() {
    let mut c = config("git");
    assert_eq!(deploy_key_path(&c, false), None);
    c.deploy.git.as_mut().unwrap().ssh_key = Some("/keys/deploy".to_string());
    assert_eq!(deploy_key_path(&c, true), None);
    assert_eq!(deploy_key_path(&c, false).as_deref(), Some("/keys/deploy"));
    c.deploy.git.as_mut().unwrap().ssh_key = Some("~other/deploy".to_string());
    assert_eq!(deploy_key_path(&c, false).as_deref(), Some("~other/deploy"));
    c.deploy.git = None;
    assert_eq!(deploy_key_path(&c, false), None);
}

#[test]
fn tilde_in_the_key_path_is_expanded() {
    let mut c = config("git");
    c.deploy.git.as_mut().unwrap().ssh_key = Some("~/.ssh/deploy_key".to_string());
    let expanded = deploy_key_path(&c, false).unwrap();
    assert!(expanded.ends_with("/.ssh/deploy_key"));
    if let Some(home) = dirs::home_dir() {
        assert_eq!(expanded, format!("{}/.ssh/deploy_key", home.display()));
        assert_ne!(expanded, "~/.ssh/deploy_key");
    }
}

#[test]
fn deploy_key_commands() {
    assert_eq!(remote_key_path("api", "deploy_key"), "~/.ssh/api/deploy_key");
    assert_eq!(
        store_key_command("api", "deploy_key"),
        "mkdir -p ~/.ssh/api && cat > ~/.ssh/api/deploy_key && chmod 600 ~/.ssh/api/deploy_key"
    );
    assert_eq!(
        use_key_command("~/.ssh/api/deploy_key"),
        "grep -q '~/.ssh/api/deploy_key' ~/.ssh/config 2>/dev/null || cat >> ~/.ssh/config << 'SSHEOF'\nHost github.com\n  Hostname ssh.github.com\n  Port 443\n  User git\n  IdentityFile ~/.ssh/api/deploy_key\n  IdentitiesOnly yes\n  StrictHostKeyChecking no\nSSHEOF\nchmod 600 ~/.ssh/config"
    );
}

#[test]
fn image_commands() {
    let mut c = config("image");
    c.deploy.compose_files = Some(strings(&["prod.yml"]));
    c.apps.push(app("api", &["web", "worker"], None));
    assert_eq!(
        registry_login_command("s3cr3t", "ghcr.io", "bot"),
        "echo 's3cr3t' | docker login ghcr.io -u bot --password-stdin"
    );
    assert_eq!(
        image_pull_command(&c, &Some("api".to_string()), &None, &strings(&["TAG=2"])),
        "cd /opt/redq && TAG=2 docker compose -f prod.yml pull web worker"
    );
    assert_eq!(
        image_pull_command(&config("image"), &None, &None, &strings(&[])),
        "cd /opt/redq && docker compose  pull "
    );
}

#[test]
fn start_commands() {
    let none = strings(&[]);
    let git = config("git");
    assert_eq!(
        start_command(&git, &None, &None, false, &none),
        "cd /opt/redq && docker compose build && docker compose up -d --remove-orphans"
    );
    assert_eq!(
        start_command(&git, &Some("web".to_string()), &None, false, &strings(&["TAG=1"])),
        "cd /opt/redq && TAG=1 docker compose build web && TAG=1 docker compose up -d --remove-orphans web"
    );
    assert_eq!(
        start_command(&git, &None, &None, true, &none),
        "cd /opt/redq && docker compose restart"
    );
    let mut image = config("image");
    image.deploy.compose_files = Some(strings(&["prod.yml"]));
    assert_eq!(
        start_command(&image, &Some("web".to_string()), &None, false, &none),
        "cd /opt/redq && docker compose -f prod.yml up -d --remove-orphans web"
    );
    assert_eq!(
        start_command(&image, &None, &None, true, &none),
        "cd /opt/redq && docker compose -f prod.yml restart"
    );
    assert!(prunes_images(&image, false));
    assert!(!prunes_images(&image, true));
    assert!(!prunes_images(&git, false));
    assert_eq!(prune_command(), "docker image prune -f");
}

#[test]
fn route_fragment_of_an_app() {
    let f = app_route("my-api", "Red-Q", 8000);
    assert_eq!(f.name, "ops-my-api-Red-Q.caddy");
    assert_eq!(f.label, "my-api.Red-Q");
    assert_eq!(f.port, 8000);
    assert_eq!(
        f.content,
        "# my-api.Red-Q\n@ops_my_api_Red_Q header X-OPS-Target my-api.Red-Q\nhandle @ops_my_api_Red_Q {\n    reverse_proxy 127.0.0.1:8000\n}\n"
    );
}

#[test]
fn route_fragment_of_a_domain() {
    let f = domain_route("api.my-site.com", 3000);
    assert_eq!(f.name, "ops-route-api_my_site_com.caddy");
    assert_eq!(f.label, "api.my-site.com");
    assert_eq!(
        f.content,
        "# api.my-site.com\n@ops_route_api_my_site_com header X-Forwarded-Host api.my-site.com\nhandle @ops_route_api_my_site_com {\n    reverse_proxy 127.0.0.1:3000\n}\n"
    );
}

#[test]
fn routes_to_one_port_make_one_fragment() {
    let mut c = config("git");
    c.routes.push(Route { domain: "a.example.com".to_string(), port: 8000, tls: true });
    c.routes.push(Route { domain: "b.example.com".to_string(), port: 8000, tls: true });
    let files = route_files(&c, &None);
    assert_eq!(files.len(), 1);
    assert_eq!(files[0].name, "ops-RedQ-RedQ.caddy");
    assert_eq!(files[0].port, 8000);
    let files = route_files(&c, &Some("api".to_string()));
    assert_eq!(files[0].name, "ops-api-RedQ.caddy");
}

#[test]
fn routes_to_several_ports_make_a_fragment_each() {
    let mut c = config("git");
    c.routes.push(Route { domain: "a.example.com".to_string(), port: 8000, tls: true });
    c.routes.push(Route { domain: "b.example.com".to_string(), port: 9000, tls: false });
    let names: Vec<String> = route_files(&c, &None).into_iter().map(|f| f.name).collect();
    assert_eq!(names, strings(&["ops-route-a_example_com.caddy", "ops-route-b_example_com.caddy"]));
}

#[test]
fn apps_with_a_port_make_fragments_after_the_routes() {
    let mut c = config("git");
    c.routes.push(Route { domain: "a.example.com".to_string(), port: 8000, tls: true });
    c.apps.push(app("api", &[], Some(8001)));
    c.apps.push(app("worker", &[], None));
    c.apps.push(app("web", &[], Some(8002)));
    let names: Vec<String> = route_files(&c, &None).into_iter().map(|f| f.name).collect();
    assert_eq!(names, strings(&["ops-api-RedQ.caddy", "ops-api-RedQ.caddy", "ops-web-RedQ.caddy"]));
    let files = route_files(&c, &Some("web".to_string()));
    let ports: Vec<u16> = files.iter().map(|f| f.port).collect();
    assert_eq!(ports, vec![8000, 8002]);
    assert!(route_files(&config("git"), &None).is_empty());
}

#[test]
fn proxy_commands() {
    assert_eq!(routes_dir_command(), "mkdir -p /etc/caddy/routes.d");
    assert_eq!(write_route_command("ops-a-b.caddy"), "cat > /etc/caddy/routes.d/ops-a-b.caddy");
    assert_eq!(
        reload_proxy_command(),
        "caddy validate --config /etc/caddy/Caddyfile && systemctl reload caddy"
    );
}

#[test]
fn health_check_polls_ten_times() {
    assert_eq!(
        health_command("http://localhost:8000/health"),
        "for i in 1 2 3 4 5 6 7 8 9 10; do curl -sf http://localhost:8000/health > /dev/null && echo 'OK' && exit 0; sleep 2; done; echo 'FAIL'; exit 1"
    );
    assert!(health_passed(&Some("OK\n".to_string())));
    assert!(!health_passed(&Some("FAIL\n".to_string())));
    assert!(!health_passed(&Some("OK OK".to_string())));
    assert!(!health_passed(&None));
}

#[test]
fn token_is_required() {
    assert!(Config::empty().require_token().is_err());
    let c = Config { token: Some("t0k".to_string()) };
    assert_eq!(c.require_token().unwrap(), "t0k");
}

#[test]
fn containers_are_looked_at_once() {
    assert!(inspects_containers(false, true));
    assert!(!inspects_containers(false, false));
    assert!(!inspects_containers(true, true));
    assert!(!inspects_containers(true, false));
}

#[test]
fn configuration_errors() {
    assert_eq!(Source::parse("ftp").unwrap_err().message(), "Unknown deploy source: ftp");
    assert_eq!(
        ConfigError::MissingGitSection.message(),
        "deploy.source='git' requires [deploy.git] section"
    );
    assert_eq!(with_login("h:/p"), "root@h:/p");
}

#[test]
fn the_environment_file_of_a_server() {
    assert_eq!(ops_cli::remote::upload_env_command(), "sudo tee /opt/judge/.env");
    assert_eq!(ops_cli::remote::download_env_command(), "sudo cat /opt/judge/.env");
}

#[test]
fn failed_health_checks_are_a_warning() {
    assert_eq!(ops_cli::remote::health_warning(0), None);
    assert_eq!(ops_cli::remote::health_warning(1).as_deref(), Some("1 health check(s) failed"));
    assert_eq!(ops_cli::remote::health_warning(12).as_deref(), Some("12 health check(s) failed"));
}
