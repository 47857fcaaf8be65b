use ops_cli::config::{AppDef, DeployConfig, GitConfig, HealthCheck, OpsToml, Route};
use ops_cli::pipeline::{has_routes, plan, Next, Pipeline, PipelineError, Step};

fn config() -> OpsToml {
    OpsToml {
        project: "RedQ".to_string(),
        target: None,
        deploy_path: "/opt/redq".to_string(),
        deploy: DeployConfig {
            source: "git".to_string(),
            branch: None,
            git: Some(GitConfig { repo: "git@github.com:acme/redq.git".to_string(), ssh_key: None }),
            registry: None,
            compose_files: None,
        },
        apps: Vec::new(),
        env_files: Vec::new(),
        sync: Vec::new(),
        routes: Vec::new(),
        healthchecks: Vec::new(),
    }
}

fn full_config() -> OpsToml {
    let mut c = config();
    c.routes.push(Route { domain: "api.example.com".to_string(), port: 8000, tls: true });
    c.healthchecks.push(HealthCheck { name: "api".to_string(), url: "http://localhost:8000/health".to_string() });
    c
}

fn run(plan: Vec<Step>, outcomes: &[Option<&str>]) -> (Vec<Step>, Result<(), (Step, String)>, usize) {
    let mut p = Pipeline::new(plan);
    let mut performed = Vec::new();
    let mut next = p.next();
    let mut k = 0;
    while let Next::Run(step) = next {
        performed.push(step);
        next = p.advance(outcomes[k].map(|e| e.to_string()));
        k += 1;
    }
    let warnings = p.warnings;
    let succeeded = matches!(next, Next::Done { succeeded: true });
    let result = p.result().map_err(|e| (e.step, e.message));
    assert_eq!(succeeded, result.is_ok());
    (performed, result, warnings)
}

#[test]
fn single_target_git_without_routes_or_checks_runs_four_steps() {
    let steps = plan(&config(), &None, false);
    assert_eq!(steps, vec![Step::Preflight, Step::SyncFiles, Step::SyncCode, Step::BuildStart]);
    let (performed, result, _) = run(steps, &[None, None, None, None]);
    assert_eq!(performed, vec![Step::Preflight, Step::SyncFiles, Step::SyncCode, Step::BuildStart]);
    assert_eq!(result, Ok(()));
}

#[test]
fn full_plan_has_six_steps_in_order() {
    let steps = plan(&full_config(), &None, false);
    assert_eq!(
        steps,
        vec![
            Step::Preflight,
            Step::SyncFiles,
            Step::SyncCode,
            Step::BuildStart,
            Step::Routes,
            Step::HealthChecks
        ]
    );
    let numbers: Vec<u8> = steps.iter().map(|s| s.ordinal()).collect();
    assert_eq!(numbers, vec![1, 2, 3, 4, 5, 6]);
}

#[test]
fn restart_only_still_syncs_files_and_skips_code_and_routes() {
    let steps = plan(&full_config(), &None, true);
    assert_eq!(steps, vec![Step::Preflight, Step::SyncFiles, Step::BuildStart, Step::HealthChecks]);
}

#[test]
fn every_plan_is_in_fixed_order() {
    for restart_only in [false, true] {
        for with_routes in [false, true] {
            for with_checks in [false, true] {
                let mut c = config();
                if with_routes {
                    c.routes.push(Route { domain: "d".to_string(), port: 1, tls: false });
                }
                if with_checks {
                    c.healthchecks.push(HealthCheck { name: "n".to_string(), url: "u".to_string() });
                }
                let steps = plan(&c, &None, restart_only);
                let numbers: Vec<u8> = steps.iter().map(|s| s.ordinal()).collect();
                assert!(numbers.windows(2).all(|w| w[0] < w[1]));
                assert!(steps.contains(&Step::SyncFiles));
                assert!(steps.contains(&Step::BuildStart));
            }
        }
    }
}

#[test]
fn app_ports_count_as_routes_when_the_filter_lets_them_through() {
    let mut c = config();
    c.apps.push(AppDef { name: "api".to_string(), services: Vec::new(), port: Some(8000), domains: Vec::new() });
    c.apps.push(AppDef { name: "worker".to_string(), services: Vec::new(), port: None, domains: Vec::new() });
    assert!(has_routes(&c, &None));
    assert!(has_routes(&c, &Some("api".to_string())));
    assert!(!has_routes(&c, &Some("worker".to_string())));
    assert!(!has_routes(&c, &Some("other".to_string())));
    assert!(plan(&c, &None, false).contains(&Step::Routes));
    assert!(!plan(&c, &Some("worker".to_string()), false).contains(&Step::Routes));
}

#[test]
fn a_failure_stops_the_steps_that_follow() {
    for k in 0..5 {
        let steps = plan(&full_config(), &None, false);
        let mut outcomes = vec![None; 6];
        outcomes[k] = Some("exit status 1");
        let (performed, result, _) = run(steps.clone(), &outcomes);
        assert_eq!(performed, steps[..=k].to_vec());
        assert_eq!(result, Err((steps[k], "exit status 1".to_string())));
    }
}

#[test]
fn failed_health_checks_do_not_fail_the_pipeline() {
    let steps = plan(&full_config(), &None, false);
    let (performed, result, warnings) =
        run(steps.clone(), &[None, None, None, None, None, Some("1 check failed")]);
    assert_eq!(performed, steps);
    assert_eq!(result, Ok(()));
    assert_eq!(warnings, 1);
}

#[test]
fn reports_after_the_end_change_nothing() {
    let mut p = Pipeline::new(vec![Step::Preflight]);
    assert_eq!(p.advance(Some("no".to_string())), Next::Done { succeeded: false });
    assert_eq!(p.advance(None), Next::Done { succeeded: false });
    assert_eq!(p.performed, 1);
    let e = p.result().unwrap_err();
    assert_eq!(e.step, Step::Preflight);
    assert_eq!(e.message, "no");
}

#[test]
fn only_health_checks_are_not_fatal() {
    for s in [Step::Preflight, Step::SyncFiles, Step::SyncCode, Step::BuildStart, Step::Routes] {
        assert!(s.fatal());
    }
    assert!(!Step::HealthChecks.fatal());
}

#[test]
fn a_pipeline_put_together_by_hand_is_checked() {
    let mut p = Pipeline::new(vec![Step::Preflight, Step::HealthChecks]);
    assert!(p.validate());
    p.advance(None);
    p.advance(Some("slow".to_string()));
    assert!(p.validate());
    assert_eq!(p.warnings, 1);
    p.performed = 3;
    assert!(!p.validate());
    p.performed = 2;
    p.failure = Some(PipelineError { step: Step::HealthChecks, message: "x".to_string() });
    assert!(!p.validate());
    p.performed = 1;
    p.warnings = 0;
    p.failure = Some(PipelineError { step: Step::Preflight, message: "x".to_string() });
    assert!(p.validate());
    p.failure = Some(PipelineError { step: Step::SyncCode, message: "x".to_string() });
    assert!(!p.validate());
}
