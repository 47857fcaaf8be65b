use ops_cli::launch::{generate_toml, LaunchConfig, ProjectScan};
use ops_cli::wizard::{Prompt, PromptStyle, Question, Wizard};

fn names(items: &[&str]) -> Vec<String> {
    items.iter().map(|s| s.to_string()).collect()
}

fn bare_scan() -> ProjectScan {
    ProjectScan {
        dir_name: "shop".to_string(),
        compose_files: vec![],
        has_dockerfile: false,
        has_git: false,
        git_remote: None,
        language: None,
        has_env_file: false,
        sync_candidates: vec![],
    }
}

fn full_scan() -> ProjectScan {
    ProjectScan {
        dir_name: "shop".to_string(),
        compose_files: names(&["docker-compose.yml", "docker-compose.prod.yml"]),
        has_dockerfile: false,
        has_git: true,
        git_remote: Some("git@example.com:acme/shop.git".to_string()),
        language: Some("node".to_string()),
        has_env_file: true,
        sync_candidates: names(&["config.yaml", "nginx.conf"]),
    }
}

/// Runs a wizard to its end, answering each question with what `reply`
/// gives, and returns the questions that were asked.
fn converse(wizard: &mut Wizard, reply: &dyn Fn(&Prompt) -> Option<String>) -> Vec<Question> {
    let mut asked = Vec::new();
    while let Some(prompt) = wizard.prompt("ops.toml") {
        assert!(asked.len() < 100, "the wizard does not end");
        asked.push(prompt.question);
        let typed = reply(&prompt);
        wizard.answer(&typed);
    }
    assert!(wizard.finished());
    asked
}

fn settled(wizard: Wizard) -> LaunchConfig {
    wizard.finish().expect("the wizard was aborted")
}

#[test]
fn a_bare_project_is_asked_five_questions() {
    let mut w = Wizard::new(bare_scan(), false, true);
    let asked = converse(&mut w, &|_| Some("\n".to_string()));
    assert_eq!(
        asked,
        vec![
            Question::AppName,
            Question::Source,
            Question::DeployPath,
            Question::Target,
            Question::HealthUrl,
        ]
    );
    let cfg = settled(w);
    assert_eq!(cfg.app_name, "shop");
    assert_eq!(cfg.source, "push");
    assert_eq!(cfg.deploy_path, "/opt/shop");
    assert_eq!(cfg.target, "");
    assert_eq!(cfg.git_repo, None);
    assert_eq!(cfg.git_branch, None);
    assert!(cfg.compose_files.is_empty());
    assert!(!cfg.use_registry);
    assert!(cfg.env_files.is_empty());
    assert!(cfg.sync_files.is_empty());
    assert_eq!(cfg.health_url, None);
}

#[test]
fn a_silent_run_settles_on_the_defaults() {
    let mut w = Wizard::new(full_scan(), true, false);
    let asked = converse(&mut w, &|_| None);
    assert_eq!(
        asked,
        vec![
            Question::AppName,
            Question::Source,
            Question::DeployPath,
            Question::Target,
            Question::UseComposeFiles,
            Question::UseRegistry,
            Question::SyncEnv,
            Question::SyncFile(0),
            Question::SyncFile(1),
            Question::HealthUrl,
        ]
    );
    let cfg = settled(w);
    assert_eq!(cfg.app_name, "shop");
    assert_eq!(cfg.source, "image");
    assert_eq!(cfg.deploy_path, "/opt/shop");
    assert_eq!(cfg.compose_files, names(&["docker-compose.yml", "docker-compose.prod.yml"]));
    assert!(!cfg.use_registry);
    assert_eq!(cfg.env_files, vec![(".env".to_string(), ".env".to_string())]);
    assert_eq!(
        cfg.sync_files,
        vec![
            ("./config.yaml".to_string(), "config.yaml".to_string()),
            ("./nginx.conf".to_string(), "nginx.conf".to_string()),
        ]
    );
    assert_eq!(cfg.health_url, None);
    assert_eq!(cfg.git_repo, None);
}

#[test]
fn a_deploy_from_git_asks_for_repository_and_branch() {
    let mut scan = bare_scan();
    scan.has_git = true;
    scan.git_remote = Some("git@example.com:acme/shop.git".to_string());
    let mut w = Wizard::new(scan, false, true);
    let asked = converse(&mut w, &|p| match p.question {
        Question::GitBranch => Some(" release \n".to_string()),
        Question::Target => Some("prod.acme\n".to_string()),
        Question::HealthUrl => Some("http://localhost:8000/health\n".to_string()),
        _ => Some("\n".to_string()),
    });
    assert_eq!(
        asked,
        vec![
            Question::AppName,
            Question::Source,
            Question::DeployPath,
            Question::Target,
            Question::GitRepo,
            Question::GitBranch,
            Question::HealthUrl,
        ]
    );
    let cfg = settled(w);
    assert_eq!(cfg.source, "git");
    assert_eq!(cfg.target, "prod.acme");
    assert_eq!(cfg.git_repo.as_deref(), Some("git@example.com:acme/shop.git"));
    assert_eq!(cfg.git_branch.as_deref(), Some("release"));
    assert_eq!(cfg.health_url.as_deref(), Some("http://localhost:8000/health"));
    assert_eq!(
        generate_toml(&cfg),
        "app = \"shop\"\ntarget = \"prod.acme\"\ndeploy_path = \"/opt/shop\"\n\n[deploy]\nsource = \"git\"\nbranch = \"release\"\n\n[deploy.git]\nrepo = \"git@example.com:acme/shop.git\"\n# ssh_key = \"~/.ssh/deploy_key\"\n\n[[healthchecks]]\nname = \"Health\"\nurl = \"http://localhost:8000/health\"\n"
    );
}

#[test]
fn a_source_typed_by_the_operator_decides_what_is_asked_next() {
    // Nothing suggests git, but the operator asks for it.
    let mut w = Wizard::new(bare_scan(), false, true);
    let asked = converse(&mut w, &|p| match p.question {
        Question::Source => Some("git\n".to_string()),
        _ => Some("\n".to_string()),
    });
    assert!(asked.contains(&Question::GitRepo));
    assert!(asked.contains(&Question::GitBranch));
    let cfg = settled(w);
    assert_eq!(cfg.git_repo.as_deref(), Some(""));
    assert_eq!(cfg.git_branch.as_deref(), Some("main"));

    // The registry is asked about for images only.
    let mut w = Wizard::new(bare_scan(), false, true);
    let asked = converse(&mut w, &|p| match p.question {
        Question::Source => Some("image\n".to_string()),
        Question::UseRegistry => Some("YES\n".to_string()),
        _ => Some("\n".to_string()),
    });
    assert!(asked.contains(&Question::UseRegistry));
    assert!(!asked.contains(&Question::GitRepo));
    assert!(settled(w).use_registry);
}

#[test]
fn the_deploy_path_follows_the_name_that_was_typed() {
    let mut w = Wizard::new(bare_scan(), false, true);
    w.answer(&Some("  store \n".to_string()));
    w.answer(&Some("\n".to_string()));
    let prompt = w.prompt("ops.toml").unwrap();
    assert_eq!(prompt.question, Question::DeployPath);
    assert_eq!(prompt.default, "/opt/store");
    assert_eq!(prompt.line(), "  Deploy path [/opt/store]: ");
}

#[test]
fn declining_files_leaves_them_out() {
    let mut w = Wizard::new(full_scan(), false, true);
    let asked = converse(&mut w, &|p| match p.question {
        Question::UseComposeFiles => Some("n\n".to_string()),
        Question::SyncEnv => Some("no\n".to_string()),
        Question::SyncFile(0) => Some("nope\n".to_string()),
        _ => Some("\n".to_string()),
    });
    assert_eq!(asked.len(), 10);
    let cfg = settled(w);
    assert!(cfg.compose_files.is_empty());
    assert!(cfg.env_files.is_empty());
    assert_eq!(cfg.sync_files, vec![("./nginx.conf".to_string(), "nginx.conf".to_string())]);
}

#[test]
fn an_existing_description_is_overwritten_only_with_consent() {
    let mut w = Wizard::new(bare_scan(), true, true);
    let first = w.prompt("deploy/ops.toml").unwrap();
    assert_eq!(first.question, Question::Overwrite);
    assert_eq!(first.style, PromptStyle::NoByDefault);
    assert_eq!(first.line(), "  deploy/ops.toml already exists. Overwrite? [y/N]: ");
    w.answer(&Some("\n".to_string()));
    assert!(w.finished());
    assert!(w.aborted);
    assert!(w.finish().is_none());

    let mut w = Wizard::new(bare_scan(), true, true);
    w.answer(&Some("y\n".to_string()));
    assert!(!w.finished());
    let next = w.prompt("ops.toml").unwrap();
    assert_eq!(next.question, Question::AppName);
    assert_eq!(next.preamble, vec![String::new()]);
    assert!(w.finish().is_none());

    // A run that is not interactive overwrites without asking.
    let w = Wizard::new(bare_scan(), true, false);
    assert_eq!(w.prompt("ops.toml").unwrap().question, Question::AppName);
    assert!(w.prompt("ops.toml").unwrap().preamble.is_empty());
}

#[test]
fn prompts_show_what_was_found() {
    let mut w = Wizard::new(full_scan(), false, true);
    let first = w.prompt("ops.toml").unwrap();
    assert_eq!(first.line(), "  App name [shop]: ");
    assert!(first.preamble.is_empty());
    w.answer(&None);
    assert_eq!(w.prompt("ops.toml").unwrap().line(), "  Deploy source (git/push/image) [image]: ");
    w.answer(&None);
    w.answer(&None);
    let target = w.prompt("ops.toml").unwrap();
    assert_eq!(target.style, PromptStyle::Optional);
    assert_eq!(target.line(), "  Target (e.g. prod.myproject, enter to skip): ");
    w.answer(&None);
    let compose = w.prompt("ops.toml").unwrap();
    assert_eq!(compose.question, Question::UseComposeFiles);
    assert_eq!(
        compose.preamble,
        vec![
            "",
            "  Found docker-compose files:",
            "    1. docker-compose.yml",
            "    2. docker-compose.prod.yml",
        ]
    );
    assert_eq!(compose.line(), "  Use these compose files? [Y/n]: ");
    w.answer(&None);
    let registry = w.prompt("ops.toml").unwrap();
    assert_eq!(registry.preamble, vec![""]);
    assert_eq!(registry.line(), "  Configure container registry (ghcr.io)? [y/N]: ");
    w.answer(&None);
    assert_eq!(w.prompt("ops.toml").unwrap().line(), "  Sync .env to remote? [Y/n]: ");
    w.answer(&None);
    assert_eq!(w.prompt("ops.toml").unwrap().line(), "  Sync config.yaml to remote? [Y/n]: ");
    w.answer(&None);
    assert_eq!(w.prompt("ops.toml").unwrap().line(), "  Sync nginx.conf to remote? [Y/n]: ");
    w.answer(&None);
    let health = w.prompt("ops.toml").unwrap();
    assert_eq!(health.preamble, vec![""]);
    assert_eq!(health.line(), "  Health check URL (enter to skip): ");
    w.answer(&None);
    assert!(w.prompt("ops.toml").is_none());
    // An answer after the end changes nothing.
    w.answer(&Some("again".to_string()));
    assert!(w.finished());
    assert_eq!(settled(w).health_url, None);
}

#[test]
fn a_question_about_a_file_that_is_not_there_is_passed_over() {
    let mut w = Wizard::new(bare_scan(), false, true);
    w.question = Some(Question::SyncFile(3));
    assert_eq!(w.prompt("ops.toml").unwrap().text, "Sync  to remote?");
    w.answer(&Some("y".to_string()));
    assert_eq!(w.question, Some(Question::HealthUrl));
    assert!(w.config.sync_files.is_empty());
}
