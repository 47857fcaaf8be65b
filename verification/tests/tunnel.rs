use ops_cli::tunnel::TunnelAction::{
    DeleteRecord, EnableConfig, Exit, FetchKey, Forward, Register, RemoveConfig,
    RequestCertificate, UploadConfig,
};
use ops_cli::tunnel::TunnelEvent::{Done, Failed, Interrupted};
use ops_cli::tunnel::{
    certificate_command, conf_name, enable_command, forward_spec, node_login, parse_tunnel_target,
    pick_remote_port, remove_command, server_block, tunnel_url, upload_command, Stage, Tunnel,
    TunnelAction, TunnelEvent,
};

fn drive(events: &[TunnelEvent]) -> (Tunnel, Vec<TunnelAction>) {
    let mut t = Tunnel::new();
    let mut actions = vec![t.step(Done)];
    for e in events {
        actions.push(t.step(*e));
    }
    (t, actions)
}

#[test]
fn remote_port_is_in_range() {
    let mut seen = std::collections::HashSet::new();
    for _ in 0..200 {
        let p = pick_remote_port();
        assert!((10000..=60000).contains(&p));
        seen.insert(p);
    }
    assert!(seen.len() > 1);
}

#[test]
fn tunnel_targets() {
    let t = parse_tunnel_target("webhook.redq").unwrap();
    assert_eq!(t.subdomain, "webhook");
    assert_eq!(t.project, "redq");
    assert_eq!(
        parse_tunnel_target("webhook").unwrap_err().message(),
        "Invalid target format. Expected 'subdomain.project' (e.g., webhook.redq)"
    );
    assert!(parse_tunnel_target("a.b.c").is_err());
    assert!(parse_tunnel_target("").is_err());
    assert_eq!(parse_tunnel_target(".").unwrap().subdomain, "");
}

#[test]
fn tunnel_texts() {
    assert_eq!(conf_name("webhook", "redq"), "ops-tunnel-webhook-redq.conf");
    assert_eq!(upload_command("c.conf"), "cat > /etc/nginx/sites-available/c.conf");
    assert_eq!(
        enable_command("c.conf"),
        "ln -sf /etc/nginx/sites-available/c.conf /etc/nginx/sites-enabled/ && nginx -t && systemctl reload nginx"
    );
    assert_eq!(
        remove_command("c.conf"),
        "rm -f /etc/nginx/sites-enabled/c.conf /etc/nginx/sites-available/c.conf && nginx -t && systemctl reload nginx"
    );
    assert_eq!(
        certificate_command("w.r.ops.autos"),
        "certbot --nginx -d w.r.ops.autos --non-interactive --agree-tos --email admin@ops.autos"
    );
    assert_eq!(forward_spec(23456, 3000), "23456:127.0.0.1:3000");
    assert_eq!(node_login(12), "root@12.node.ops.autos");
    assert_eq!(tunnel_url(true, "w.r.ops.autos"), "https://w.r.ops.autos");
    assert_eq!(tunnel_url(false, "w.r.ops.autos"), "http://w.r.ops.autos");
}

#[test]
fn server_block_text() {
    assert_eq!(
        server_block("w.r.ops.autos", 23456),
        "server {\n    listen 80;\n    server_name w.r.ops.autos;\n\n    location / {\n        proxy_pass http://127.0.0.1:23456;\n        proxy_http_version 1.1;\n        proxy_set_header Upgrade $http_upgrade;\n        proxy_set_header Connection \"upgrade\";\n        proxy_set_header Host $host;\n        proxy_set_header X-Real-IP $remote_addr;\n        proxy_set_header X-Forwarded-For $proxy_add_x_forwarded_for;\n        proxy_set_header X-Forwarded-Proto $scheme;\n        proxy_read_timeout 86400;\n        proxy_buffering off;\n    }\n}\n"
    );
}

#[test]
fn a_tunnel_that_runs_and_is_interrupted() {
    let (t, actions) = drive(&[Done, Done, Done, Done, Done, Interrupted, Done, Done]);
    assert_eq!(
        actions,
        vec![
            Register,
            FetchKey,
            UploadConfig,
            EnableConfig,
            RequestCertificate,
            Forward,
            RemoveConfig,
            DeleteRecord,
            Exit { succeeded: true }
        ]
    );
    assert_eq!(t.stage, Stage::Closed);
    assert!(t.secure);
    assert!(!t.record_live && !t.config_live);
}

#[test]
fn without_a_certificate_the_tunnel_serves_http() {
    let (t, actions) = drive(&[Done, Done, Done, Done, Failed]);
    assert_eq!(actions.last(), Some(&Forward));
    assert!(!t.secure);
    assert!(t.forwarded);
}

#[test]
fn failures_take_down_what_exists() {
    assert_eq!(drive(&[Failed]).1, vec![Register, Exit { succeeded: false }]);
    assert_eq!(drive(&[Done, Failed, Done]).1, vec![Register, FetchKey, DeleteRecord, Exit { succeeded: false }]);
    assert_eq!(
        drive(&[Done, Done, Failed, Failed]).1,
        vec![Register, FetchKey, UploadConfig, DeleteRecord, Exit { succeeded: false }]
    );
    assert_eq!(
        drive(&[Done, Done, Done, Failed, Failed, Failed]).1,
        vec![Register, FetchKey, UploadConfig, EnableConfig, RemoveConfig, DeleteRecord, Exit { succeeded: false }]
    );
}

#[test]
fn an_interrupt_at_any_stage_ends_in_a_clean_exit() {
    for stage in 0..7 {
        let mut events = vec![Done; stage];
        events.push(Interrupted);
        events.extend([Failed, Failed, Failed]);
        let (t, actions) = drive(&events);
        assert!(matches!(actions.last(), Some(Exit { .. })));
        assert!(!t.record_live && !t.config_live);
        assert_eq!(t.stage, Stage::Closed);
    }
}

#[test]
fn an_interrupted_upload_removes_the_fragment_too() {
    assert_eq!(
        drive(&[Done, Done, Interrupted, Done, Done]).1,
        vec![Register, FetchKey, UploadConfig, RemoveConfig, DeleteRecord, Exit { succeeded: false }]
    );
}

#[test]
fn a_closed_tunnel_stays_closed() {
    let (mut t, _) = drive(&[Failed]);
    assert_eq!(t.step(Done), Exit { succeeded: false });
    assert_eq!(t.current(), Exit { succeeded: false });
}

#[test]
fn only_states_a_tunnel_can_be_in_are_valid() {
    let (mut t, _) = drive(&[Done, Done, Done]);
    assert_eq!(t.stage, Stage::Enabling);
    assert!(t.validate());
    t.record_live = false;
    assert!(!t.validate());
    let mut closed = Tunnel::new();
    assert!(closed.validate());
    closed.stage = Stage::Closed;
    assert!(closed.validate());
    closed.config_live = true;
    assert!(!closed.validate());
}

#[test]
fn a_new_tunnel_has_created_nothing() {
    let t = Tunnel::new();
    assert_eq!(t.stage, Stage::Idle);
    assert!(!t.record_live);
    assert!(!t.config_live);
    assert!(!t.secure);
    assert!(!t.forwarded);
    assert!(t.validate());
}
