use ops_cli::account::{
    binding_notice, check_password, confirmation, is_unbound_failure, unbound_lines, CiKeyResponse,
    LoginResponse, NodeItem, NodeSetResponse, PasswordError, ProjectItem, ProjectListResponse,
    ProjectResponse, RegisterResponse, ServerWhoamiResponse, WhoamiResponse,
};
use ops_cli::api::parse_error;
use ops_cli::config::Config;
use ops_cli::text::format_signed;

fn server(status: &str) -> ServerWhoamiResponse {
    ServerWhoamiResponse {
        ip_address: "203.0.113.9".to_string(),
        status: status.to_string(),
        domain: Some("main.redq.ops.autos".to_string()),
        project: Some("redq".to_string()),
        owner: None,
        permission: Some("admin".to_string()),
        message: Some("Bind it with `ops set`.".to_string()),
    }
}

#[test]
fn a_password_must_match_its_confirmation() {
    assert_eq!(check_password("correct horse", "correct horsf"), Err(PasswordError::Mismatch));
    assert_eq!(check_password("short", "shorter"), Err(PasswordError::Mismatch));
    assert_eq!(PasswordError::Mismatch.message(), "Passwords do not match.");
}

#[test]
fn a_password_must_have_eight_bytes() {
    assert_eq!(check_password("1234567", "1234567"), Err(PasswordError::TooShort));
    assert_eq!(check_password("", ""), Err(PasswordError::TooShort));
    assert_eq!(check_password("12345678", "12345678"), Ok(()));
    assert_eq!(check_password("correct horse", "correct horse"), Ok(()));
    assert_eq!(
        PasswordError::TooShort.message(),
        "Password must be at least 8 characters long."
    );
}

#[test]
fn the_length_of_a_password_is_counted_in_bytes() {
    // Four characters of two bytes each.
    assert_eq!(check_password("éàüö", "éàüö"), Ok(()));
    // Seven characters of one byte each.
    assert_eq!(check_password("abcdefg", "abcdefg"), Err(PasswordError::TooShort));
    // Two characters of four bytes each.
    assert_eq!(check_password("🔑🔑", "🔑🔑"), Ok(()));
    assert_eq!(check_password("🔑abc", "🔑abc"), Err(PasswordError::TooShort));
}

#[test]
fn messages_of_the_control_plane_are_shown_as_done() {
    assert_eq!(confirmation("User created"), "✔ User created");
    assert_eq!(confirmation(""), "✔ ");
    assert_eq!(RegisterResponse { message: "Welcome".to_string() }.line(), "✔ Welcome");
    assert_eq!(ProjectResponse { message: "Project created".to_string() }.line(), "✔ Project created");
    let bound = NodeSetResponse {
        message: "Server bound".to_string(),
        ci_ssh_public_key: "ssh-ed25519 AAAA ci".to_string(),
    };
    assert_eq!(bound.line(), "✔ Server bound");
}

#[test]
fn a_credential_file_ends_with_a_line_end() {
    let key = CiKeyResponse { private_key: "-----BEGIN KEY-----\nabc\n-----END KEY-----".to_string() };
    assert_eq!(key.file_text(), "-----BEGIN KEY-----\nabc\n-----END KEY-----\n");
    assert_eq!(CiKeyResponse { private_key: String::new() }.file_text(), "\n");
}

#[test]
fn whoami_shows_the_operator() {
    let me = WhoamiResponse {
        user_id: 42,
        username: "ada".to_string(),
        token_expires_at: "2030-01-01T00:00:00Z".to_string(),
    };
    assert_eq!(
        me.lines(),
        vec![
            "You are logged in as:",
            "  User ID: 42",
            "  Username:   ada",
            "  Token Expires: 2030-01-01T00:00:00Z",
        ]
    );
}

#[test]
fn signed_numbers_are_written_with_their_sign() {
    assert_eq!(format_signed(0), "0");
    assert_eq!(format_signed(7), "7");
    assert_eq!(format_signed(-7), "-7");
    assert_eq!(format_signed(1234567890), "1234567890");
    assert_eq!(format_signed(i64::MAX), "9223372036854775807");
    assert_eq!(format_signed(i64::MIN), "-9223372036854775808");
}

#[test]
fn a_bound_server_shows_what_it_is_bound_to() {
    let s = server("bound");
    assert!(s.bound());
    assert_eq!(
        s.lines(),
        vec![
            "Server IP: 203.0.113.9",
            "Status:   bound",
            "Project: redq",
            "Domain:  main.redq.ops.autos",
            "Owner:   ",
            "Permission:    admin",
        ]
    );
}

#[test]
fn a_server_that_is_not_bound_shows_the_message() {
    let s = server("pending");
    assert!(!s.bound());
    assert_eq!(
        s.lines(),
        vec!["Server IP: 203.0.113.9", "Status: pending", "Bind it with `ops set`."]
    );
    let mut quiet = server("Bound");
    quiet.message = None;
    assert_eq!(quiet.lines(), vec!["Server IP: 203.0.113.9", "Status: Bound", ""]);
}

#[test]
fn an_unbound_server_is_told_from_other_failures() {
    assert!(is_unbound_failure("Server is unbound"));
    assert!(is_unbound_failure("unbound"));
    assert!(!is_unbound_failure("Unbound"));
    assert!(!is_unbound_failure("connection refused"));
    assert!(!is_unbound_failure(""));
    assert_eq!(
        unbound_lines(),
        vec![
            "Server IP: Unknown (request failed)",
            "Status: unbound",
            "This server is not currently bound to any project in ops.autos.",
        ]
    );
}

#[test]
fn the_notice_before_a_server_is_bound() {
    assert_eq!(
        binding_notice("jug0", "main_server"),
        vec![
            "You are about to bind this server to:",
            "  Project:     jug0",
            "  Environment: main_server",
            "  Full Domain: main_server.jug0.ops.autos",
        ]
    );
}

#[test]
fn projects_are_listed_with_their_servers() {
    let list = ProjectListResponse {
        projects: vec![
            ProjectItem {
                name: "redq".to_string(),
                nodes: vec![
                    NodeItem {
                        environment: "main".to_string(),
                        ip_address: "203.0.113.9".to_string(),
                        domain: "main.redq.ops.autos".to_string(),
                    },
                    NodeItem {
                        environment: "staging".to_string(),
                        ip_address: "203.0.113.10".to_string(),
                        domain: "staging.redq.ops.autos".to_string(),
                    },
                ],
            },
            ProjectItem { name: "empty".to_string(), nodes: vec![] },
            ProjectItem {
                name: "jug0".to_string(),
                nodes: vec![NodeItem {
                    environment: "api".to_string(),
                    ip_address: "198.51.100.1".to_string(),
                    domain: "api.jug0.ops.autos".to_string(),
                }],
            },
        ],
    };
    assert_eq!(
        list.lines(),
        vec![
            "redq",
            "  main main.redq.ops.autos (203.0.113.9)",
            "  staging staging.redq.ops.autos (203.0.113.10)",
            "empty",
            "jug0",
            "  api api.jug0.ops.autos (198.51.100.1)",
        ]
    );
    assert!(ProjectListResponse { projects: vec![] }.lines().is_empty());
}

#[test]
fn logging_in_stores_the_token_and_logging_out_forgets_it() {
    let mut credentials = Config::empty();
    assert!(!credentials.log_out());
    credentials.log_in(LoginResponse { token: "t-1".to_string() });
    assert_eq!(credentials.token.as_deref(), Some("t-1"));
    credentials.log_in(LoginResponse { token: "t-2".to_string() });
    assert_eq!(credentials.token.as_deref(), Some("t-2"));
    assert!(credentials.log_out());
    assert_eq!(credentials.token, None);
    assert!(!credentials.log_out());
}

#[test]
fn a_refusal_is_read_from_its_answer() {
    assert_eq!(parse_error(r#"{"error":"Node not found"}"#).unwrap().error, "Node not found");
    assert_eq!(parse_error(r#"{"error":"x","code":7}"#).unwrap().error, "x");
    assert!(parse_error(r#"{"error":7}"#).is_none());
    assert!(parse_error(r#"{"message":"x"}"#).is_none());
    assert!(parse_error("Bad Gateway").is_none());
    assert!(parse_error("").is_none());
}
