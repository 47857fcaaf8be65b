use ops_cli::init::{caddyfile, confirm_region, region_label, service_unit, timezone_to_region};
use ops_cli::launch::{
    default_deploy_path, detect_language, generate_toml, scan_project, suggest_source, LaunchConfig,
};
use ops_cli::prompt::{confirm, confirm_no, confirm_yes, input_optional, input_with_default, select};
use ops_cli::scanner::Snapshot;

fn strings(items: &[&str]) -> Vec<String> {
    items.iter().map(|s| s.to_string()).collect()
}

fn snapshot(files: &[&str]) -> Snapshot {
    Snapshot { files: strings(files), texts: Vec::new() }
}

fn config(source: &str) -> LaunchConfig {
    LaunchConfig {
        app_name: "shop".to_string(),
        target: String::new(),
        deploy_path: "/opt/shop".to_string(),
        source: source.to_string(),
        git_repo: None,
        git_branch: None,
        compose_files: Vec::new(),
        use_registry: false,
        env_files: Vec::new(),
        sync_files: Vec::new(),
        health_url: None,
    }
}

const NO_HEALTH: &str =
    "\n# [[healthchecks]]\n# name = \"Health\"\n# url = \"http://localhost:8000/health\"\n";

#[test]
fn what_the_wizard_detects() {
    let dir = snapshot(&[
        "docker-compose.prod.yml",
        "docker-compose.yml",
        ".git",
        "package.json",
        "go.mod",
        ".env",
        "nginx.conf",
        "Config.toml",
    ]);
    let scan = scan_project(&dir, "shop", Some("git@github.com:acme/shop.git".to_string()));
    assert_eq!(scan.dir_name, "shop");
    assert_eq!(scan.compose_files, strings(&["docker-compose.yml", "docker-compose.prod.yml"]));
    assert!(!scan.has_dockerfile);
    assert!(scan.has_git);
    assert_eq!(scan.git_remote.as_deref(), Some("git@github.com:acme/shop.git"));
    assert_eq!(scan.language.as_deref(), Some("node"));
    assert!(scan.has_env_file);
    assert_eq!(scan.sync_candidates, strings(&["Config.toml", "nginx.conf"]));
    assert_eq!(suggest_source(&scan), "image");

    let bare = scan_project(&snapshot(&[]), "x", Some("remote".to_string()));
    assert_eq!(bare.git_remote, None);
    assert_eq!(bare.language, None);
    assert_eq!(suggest_source(&bare), "push");
}

#[test]
fn languages_by_marker() {
    assert_eq!(detect_language(&snapshot(&["Cargo.toml", "package.json"])).as_deref(), Some("rust"));
    assert_eq!(detect_language(&snapshot(&["go.mod", "requirements.txt"])).as_deref(), Some("go"));
    assert_eq!(detect_language(&snapshot(&["pyproject.toml"])).as_deref(), Some("python"));
    assert_eq!(detect_language(&snapshot(&["requirements.txt"])).as_deref(), Some("python"));
    assert_eq!(detect_language(&snapshot(&["main.c"])), None);
}

#[test]
fn suggested_sources() {
    let scan = |files: &[&str], remote: Option<&str>| {
        scan_project(&snapshot(files), "x", remote.map(|r| r.to_string()))
    };
    assert_eq!(suggest_source(&scan(&["docker-compose.yml", "Dockerfile"], None)), "push");
    assert_eq!(suggest_source(&scan(&["Dockerfile", ".git"], Some("r"))), "push");
    assert_eq!(suggest_source(&scan(&[".git"], Some("r"))), "git");
    assert_eq!(suggest_source(&scan(&[".git"], None)), "push");
    assert_eq!(default_deploy_path("shop"), "/opt/shop");
}

#[test]
fn description_of_a_push_deploy() {
    assert_eq!(
        generate_toml(&config("push")),
        format!("app = \"shop\"\ndeploy_path = \"/opt/shop\"\n\n[deploy]\nsource = \"push\"\n{}", NO_HEALTH)
    );
}

#[test]
fn description_of_a_git_deploy() {
    let mut c = config("git");
    c.target = "prod.acme".to_string();
    c.git_repo = Some("git@github.com:acme/shop.git".to_string());
    c.compose_files = strings(&["docker-compose.yml"]);
    c.env_files = vec![(".env".to_string(), ".env".to_string())];
    c.health_url = Some("http://localhost:3000/up".to_string());
    assert_eq!(
        generate_toml(&c),
        "app = \"shop\"\ntarget = \"prod.acme\"\ndeploy_path = \"/opt/shop\"\n\n[deploy]\nsource = \"git\"\nbranch = \"main\"\n\n[deploy.git]\nrepo = \"git@github.com:acme/shop.git\"\n# ssh_key = \"~/.ssh/deploy_key\"\ncompose_files = [\"docker-compose.yml\"]\n\n[[env_files]]\nlocal = \".env\"\nremote = \".env\"\n\n[[healthchecks]]\nname = \"Health\"\nurl = \"http://localhost:3000/up\"\n"
    );
    c.git_branch = Some("release".to_string());
    assert!(generate_toml(&c).contains("branch = \"release\"\n"));
    c.git_repo = None;
    assert!(!generate_toml(&c).contains("branch"));
}

#[test]
fn description_of_an_image_deploy() {
    let mut c = config("image");
    c.compose_files = strings(&["docker-compose.yml", "docker-compose.prod.yml"]);
    c.sync_files = vec![("docker-compose.yml".to_string(), "compose.yml".to_string())];
    assert_eq!(
        generate_toml(&c),
        format!(
            "app = \"shop\"\ndeploy_path = \"/opt/shop\"\n\n[deploy]\nsource = \"image\"\ncompose_files = [\"docker-compose.yml\", \"docker-compose.prod.yml\"]\n\n# [deploy.registry]\n# url = \"ghcr.io\"\n# token = \"$GHCR_PAT\"\n\n[[sync]]\nlocal = \"docker-compose.yml\"\nremote = \"compose.yml\"\n\n[[sync]]\nlocal = \"./docker-compose.prod.yml\"\nremote = \"docker-compose.prod.yml\"\n{}",
            NO_HEALTH
        )
    );
    c.use_registry = true;
    assert!(generate_toml(&c).contains("\n[deploy.registry]\nurl = \"ghcr.io\"\ntoken = \"$GHCR_PAT\"\n"));
    c.compose_files = Vec::new();
    assert!(!generate_toml(&c).contains("compose_files"));
}

#[test]
fn regions_of_time_zones() {
    let region = |tz: &str| timezone_to_region(tz);
    assert_eq!(region("America/New_York").as_deref(), Some("us-east"));
    assert_eq!(region("America/Chicago").as_deref(), Some("us-central"));
    assert_eq!(region("America/Los_Angeles").as_deref(), Some("us-west"));
    assert_eq!(region("America/Sao_Paulo").as_deref(), Some("sa-east"));
    assert_eq!(region("America/Anchorage").as_deref(), Some("us-east"));
    assert_eq!(region("America/").as_deref(), Some("us-east"));
    assert_eq!(region("Europe/London").as_deref(), Some("eu-west"));
    assert_eq!(region("Europe/Berlin").as_deref(), Some("eu-central"));
    assert_eq!(region("Asia/Tokyo").as_deref(), Some("ap-northeast"));
    assert_eq!(region("Asia/Hong_Kong").as_deref(), Some("ap-east"));
    assert_eq!(region("Asia/Singapore").as_deref(), Some("ap-southeast"));
    assert_eq!(region("Asia/Kolkata").as_deref(), Some("ap-south"));
    assert_eq!(region("Asia/Dubai").as_deref(), Some("me-south"));
    assert_eq!(region("Asia/Ulaanbaatar").as_deref(), Some("ap-southeast"));
    assert_eq!(region("Australia/Sydney").as_deref(), Some("ap-southeast"));
    assert_eq!(region("Pacific/Auckland").as_deref(), Some("ap-southeast"));
    assert_eq!(region("Pacific/Fiji"), None);
    assert_eq!(region("Africa/Cairo").as_deref(), Some("af-south"));
    assert_eq!(region("UTC"), None);
    assert_eq!(region(""), None);
    assert_eq!(region("america/New_York"), None);
    assert_eq!(region_label("", "Europe/Paris"), "Europe/Paris");
    assert_eq!(region_label("Paris", "Europe/Paris"), "Paris");
}

#[test]
fn region_after_asking() {
    let detected = || Some("eu-west".to_string());
    let typed = |s: &str| Some(s.to_string());
    assert_eq!(confirm_region(detected(), &None), detected());
    assert_eq!(confirm_region(None, &None), None);
    assert_eq!(confirm_region(detected(), &typed("\n")), detected());
    assert_eq!(confirm_region(detected(), &typed("Y\n")), detected());
    assert_eq!(confirm_region(detected(), &typed("yEs")), detected());
    assert_eq!(confirm_region(detected(), &typed(" no ")), None);
    assert_eq!(confirm_region(detected(), &typed("N")), None);
    assert_eq!(confirm_region(detected(), &typed("us-west\n")), typed("us-west"));
    assert_eq!(confirm_region(None, &typed("  ")), None);
    assert_eq!(confirm_region(None, &typed("y")), typed("y"));
    assert_eq!(confirm_region(None, &typed(" ap-east ")), typed("ap-east"));
}

#[test]
fn node_files() {
    assert_eq!(
        service_unit(12, "t0k", 8377, "/opt/a,/opt/b"),
        "[Unit]\nDescription=OPS Serve - Node 12\nAfter=network.target docker.service\nRequires=docker.service\n\n[Service]\nType=simple\nExecStart=/usr/local/bin/ops serve --token t0k --port 8377 --compose-dir /opt/a,/opt/b\nRestart=always\nRestartSec=5\nEnvironment=RUST_LOG=info\n\n[Install]\nWantedBy=multi-user.target\n"
    );
    assert_eq!(
        caddyfile(8377),
        ":80 {\n    import /etc/caddy/routes.d/*.caddy\n\n    # Fallback: ops-serve daemon\n    reverse_proxy 127.0.0.1:8377\n}\n"
    );
}

#[test]
fn yes_and_no() {
    let typed = |s: &str| Some(s.to_string());
    assert!(confirm_yes(&None));
    assert!(!confirm_no(&None));
    assert!(confirm_yes(&typed("\n")));
    assert!(!confirm_no(&typed("\n")));
    for yes in ["y", "Y", "yes", "YES", " Yes \n"] {
        assert!(confirm_yes(&typed(yes)));
        assert!(confirm_no(&typed(yes)));
    }
    for no in ["n", "no", "yep", "ye s", "0"] {
        assert!(!confirm_yes(&typed(no)));
        assert!(!confirm_no(&typed(no)));
    }
    assert!(confirm("", true));
    assert!(!confirm("", false));
}

#[test]
fn typed_input() {
    let typed = |s: &str| Some(s.to_string());
    assert_eq!(input_with_default(&None, "main"), "main");
    assert_eq!(input_with_default(&typed("\n"), "main"), "main");
    assert_eq!(input_with_default(&typed(" dev \n"), "main"), "dev");
    assert_eq!(input_optional(&None), "");
    assert_eq!(input_optional(&typed(" x y \n")), "x y");
}

#[test]
fn menu_choices() {
    let typed = |s: &str| Some(s.to_string());
    assert_eq!(select(&None, 3, 1), 1);
    assert_eq!(select(&typed("\n"), 3, 1), 1);
    assert_eq!(select(&typed("1\n"), 3, 2), 0);
    assert_eq!(select(&typed(" 3 "), 3, 0), 2);
    assert_eq!(select(&typed("+2"), 3, 0), 1);
    assert_eq!(select(&typed("4"), 3, 1), 1);
    assert_eq!(select(&typed("0"), 3, 1), 1);
    assert_eq!(select(&typed("-1"), 3, 1), 1);
    assert_eq!(select(&typed("two"), 3, 1), 1);
    assert_eq!(select(&typed("99999999999999999999999"), 3, 2), 2);
    assert_eq!(select(&typed("1"), 0, 5), 5);
}
