//! Accounts, projects and servers: what the control plane answers about
//! them, and what the commands make of an answer.

use crate::text::{
    contains_text, format_signed, has_substring, same_text, signed_decimal, views,
};
use vstd::prelude::*;
use vstd::utf8::encode_utf8;

verus! {

// ---------------------------------------------------------------------------
// Answers
// ---------------------------------------------------------------------------

/// The answer to a login: the token of the session.
#[derive(Debug)]
pub struct LoginResponse {
    pub token: String,
}

/// The answer to the binding of a server: a message, and the public key
/// with which deploys will log in.
#[derive(Debug)]
pub struct NodeSetResponse {
    pub message: String,
    pub ci_ssh_public_key: String,
}

/// The credential of a node.
#[derive(Debug)]
pub struct CiKeyResponse {
    pub private_key: String,
}

/// The answer to a request that was refused.
#[derive(Debug)]
pub struct ErrorResponse {
    pub error: String,
}

/// The answer to a registration.
#[derive(Debug)]
pub struct RegisterResponse {
    pub message: String,
}

/// Who the token belongs to.
#[derive(Debug)]
pub struct WhoamiResponse {
    pub user_id: i64,
    pub username: String,
    pub token_expires_at: String,
}

/// The answer to the creation of a project.
#[derive(Debug)]
pub struct ProjectResponse {
    pub message: String,
}

/// What the control plane knows of the server that asks.
#[derive(Debug)]
pub struct ServerWhoamiResponse {
    pub ip_address: String,
    pub status: String,
    pub domain: Option<String>,
    pub project: Option<String>,
    pub owner: Option<String>,
    pub permission: Option<String>,
    pub message: Option<String>,
}

/// A server of a project.
#[derive(Debug)]
pub struct NodeItem {
    pub environment: String,
    pub ip_address: String,
    pub domain: String,
}

/// A project and its servers.
#[derive(Debug)]
pub struct ProjectItem {
    pub name: String,
    pub nodes: Vec<NodeItem>,
}

/// The projects of an operator.
#[derive(Debug)]
pub struct ProjectListResponse {
    pub projects: Vec<ProjectItem>,
}

// ---------------------------------------------------------------------------
// Registration
// ---------------------------------------------------------------------------

/// The least number of bytes of a password.
pub const MIN_PASSWORD_BYTES: usize = 8;

/// Why a new password is refused.
#[derive(Debug, Clone, Copy, PartialEq, Eq, Structural)]
pub enum PasswordError {
    /// The password and its confirmation differ.
    Mismatch,
    /// The password is shorter than `MIN_PASSWORD_BYTES`.
    TooShort,
}

impl PasswordError {
    pub open spec fn text(self) -> Seq<char> {
        match self {
            PasswordError::Mismatch => "Passwords do not match."@,
            PasswordError::TooShort => "Password must be at least 8 characters long."@,
        }
    }

    pub fn message(&self) -> (m: &'static str)
        ensures
            m@ == self.text(),
    {
        match self {
            PasswordError::Mismatch => "Passwords do not match.",
            PasswordError::TooShort => "Password must be at least 8 characters long.",
        }
    }
}

/// What is wrong with a new password, if anything. The confirmation is
/// looked at first. The length is that of the password as it is stored, in
/// bytes.
pub open spec fn password_fault(password: Seq<char>, confirmation: Seq<char>) -> Option<
    PasswordError,
> {
    if password != confirmation {
        Some(PasswordError::Mismatch)
    } else if encode_utf8(password).len() < MIN_PASSWORD_BYTES {
        Some(PasswordError::TooShort)
    } else {
        None
    }
}

/// Checks a new password before anything is sent.
pub fn check_password(password: &str, confirmation: &str) -> (r: Result<(), PasswordError>)
    ensures
        match password_fault(password@, confirmation@) {
            Some(fault) => r == Err::<(), PasswordError>(fault),
            None => r is Ok,
        },
{
    if !same_text(password, confirmation) {
        Err(PasswordError::Mismatch)
    } else if password.as_bytes().len() < MIN_PASSWORD_BYTES {
        Err(PasswordError::TooShort)
    } else {
        Ok(())
    }
}

// ---------------------------------------------------------------------------
// What is shown of an answer
// ---------------------------------------------------------------------------

/// A message of the control plane, shown as done.
pub open spec fn confirmation_of(message: Seq<char>) -> Seq<char> {
    "✔ "@ + message
}

pub fn confirmation(message: &str) -> (line: String)
    ensures
        line@ == confirmation_of(message@),
{
    let mut line = "✔ ".to_owned();
    line.append(message);
    line
}

impl RegisterResponse {
    pub fn line(&self) -> (line: String)
        ensures
            line@ == confirmation_of(self.message@),
    {
        confirmation(self.message.as_str())
    }
}

impl ProjectResponse {
    pub fn line(&self) -> (line: String)
        ensures
            line@ == confirmation_of(self.message@),
    {
        confirmation(self.message.as_str())
    }
}

impl NodeSetResponse {
    pub fn line(&self) -> (line: String)
        ensures
            line@ == confirmation_of(self.message@),
    {
        confirmation(self.message.as_str())
    }
}

impl CiKeyResponse {
    /// What the credential file holds: the key and a line end, without
    /// which the key is refused as malformed.
    pub fn file_text(&self) -> (text: String)
        ensures
            text@ == self.private_key@ + "\n"@,
    {
        let mut text = self.private_key.clone();
        text.append("\n");
        text
    }
}

/// A label and the value after it.
fn labelled(label: &str, value: &str) -> (line: String)
    ensures
        line@ == label@ + value@,
{
    let mut line = label.to_owned();
    line.append(value);
    line
}

/// The text of an optional value: empty where there is none.
pub open spec fn or_empty(value: Option<String>) -> Seq<char> {
    match value {
        Some(text) => text@,
        None => Seq::empty(),
    }
}

fn labelled_optional(label: &str, value: &Option<String>) -> (line: String)
    ensures
        line@ == label@ + or_empty(*value),
{
    match value {
        Some(text) => labelled(label, text.as_str()),
        None => {
            assert(label@ + Seq::<char>::empty() =~= label@);
            label.to_owned()
        },
    }
}

impl WhoamiResponse {
    /// What is shown of the operator.
    pub open spec fn lines_of(&self) -> Seq<Seq<char>> {
        seq![
            "You are logged in as:"@,
            "  User ID: "@ + signed_decimal(self.user_id as int),
            "  Username:   "@ + self.username@,
            "  Token Expires: "@ + self.token_expires_at@,
        ]
    }

    pub fn lines(&self) -> (lines: Vec<String>)
        ensures
            views(lines@) == self.lines_of(),
    {
        let mut lines: Vec<String> = Vec::new();
        lines.push("You are logged in as:".to_owned());
        lines.push(labelled("  User ID: ", format_signed(self.user_id).as_str()));
        lines.push(labelled("  Username:   ", self.username.as_str()));
        lines.push(labelled("  Token Expires: ", self.token_expires_at.as_str()));
        assert(views(lines@) =~= self.lines_of());
        lines
    }
}

impl ServerWhoamiResponse {
    /// Whether the server is bound to a project.
    pub open spec fn is_bound(&self) -> bool {
        self.status@ == "bound"@
    }

    /// What is shown of the server: where it is bound, to what and for
    /// whom; where it is not, the message of the control plane. A value
    /// that is missing is shown empty.
    pub open spec fn lines_of(&self) -> Seq<Seq<char>> {
        if self.is_bound() {
            seq![
                "Server IP: "@ + self.ip_address@,
                "Status:   "@ + self.status@,
                "Project: "@ + or_empty(self.project),
                "Domain:  "@ + or_empty(self.domain),
                "Owner:   "@ + or_empty(self.owner),
                "Permission:    "@ + or_empty(self.permission),
            ]
        } else {
            seq![
                "Server IP: "@ + self.ip_address@,
                "Status: "@ + self.status@,
                or_empty(self.message),
            ]
        }
    }

    pub fn bound(&self) -> (r: bool)
        ensures
            r == self.is_bound(),
    {
        same_text(self.status.as_str(), "bound")
    }

    pub fn lines(&self) -> (lines: Vec<String>)
        ensures
            views(lines@) == self.lines_of(),
    {
        let mut lines: Vec<String> = Vec::new();
        lines.push(labelled("Server IP: ", self.ip_address.as_str()));
        if self.bound() {
            lines.push(labelled("Status:   ", self.status.as_str()));
            lines.push(labelled_optional("Project: ", &self.project));
            lines.push(labelled_optional("Domain:  ", &self.domain));
            lines.push(labelled_optional("Owner:   ", &self.owner));
            lines.push(labelled_optional("Permission:    ", &self.permission));
        } else {
            lines.push(labelled("Status: ", self.status.as_str()));
            lines.push(labelled_optional("", &self.message));
            proof {
                reveal_strlit("");
                assert(""@ + or_empty(self.message) =~= or_empty(self.message));
            }
        }
        assert(views(lines@) =~= self.lines_of());
        lines
    }
}

/// Whether a failed request says that the server is bound to nothing.
pub open spec fn says_unbound(error: Seq<char>) -> bool {
    has_substring(error, "unbound"@)
}

pub fn is_unbound_failure(error: &str) -> (r: bool)
    ensures
        r == says_unbound(error@),
{
    contains_text(error, "unbound")
}

/// What is shown of a server that is bound to nothing.
pub open spec fn unbound_lines_of() -> Seq<Seq<char>> {
    seq![
        "Server IP: Unknown (request failed)"@,
        "Status: unbound"@,
        "This server is not currently bound to any project in ops.autos."@,
    ]
}

pub fn unbound_lines() -> (lines: Vec<String>)
    ensures
        views(lines@) == unbound_lines_of(),
{
    let mut lines: Vec<String> = Vec::new();
    lines.push("Server IP: Unknown (request failed)".to_owned());
    lines.push("Status: unbound".to_owned());
    lines.push("This server is not currently bound to any project in ops.autos.".to_owned());
    assert(views(lines@) =~= unbound_lines_of());
    lines
}

/// What an operator is shown before a server is bound.
pub open spec fn binding_notice_of(project: Seq<char>, environment: Seq<char>) -> Seq<Seq<char>> {
    seq![
        "You are about to bind this server to:"@,
        "  Project:     "@ + project,
        "  Environment: "@ + environment,
        "  Full Domain: "@ + environment + "."@ + project + ".ops.autos"@,
    ]
}

pub fn binding_notice(project: &str, environment: &str) -> (lines: Vec<String>)
    ensures
        views(lines@) == binding_notice_of(project@, environment@),
{
    let mut lines: Vec<String> = Vec::new();
    lines.push("You are about to bind this server to:".to_owned());
    lines.push(labelled("  Project:     ", project));
    lines.push(labelled("  Environment: ", environment));
    let mut domain = labelled("  Full Domain: ", environment);
    domain.append(".");
    domain.append(project);
    domain.append(".ops.autos");
    lines.push(domain);
    assert(views(lines@) =~= binding_notice_of(project@, environment@));
    lines
}

// ---------------------------------------------------------------------------
// The list of projects
// ---------------------------------------------------------------------------

impl NodeItem {
    /// The line of a server under its project.
    pub open spec fn line_of(&self) -> Seq<char> {
        "  "@ + self.environment@ + " "@ + self.domain@ + " ("@ + self.ip_address@ + ")"@
    }

    pub fn line(&self) -> (line: String)
        ensures
            line@ == self.line_of(),
    {
        let mut line = "  ".to_owned();
        line.append(self.environment.as_str());
        line.append(" ");
        line.append(self.domain.as_str());
        line.append(" (");
        line.append(self.ip_address.as_str());
        line.append(")");
        line
    }
}

/// The lines of the first `count` servers.
pub open spec fn node_lines_of(nodes: Seq<NodeItem>, count: int) -> Seq<Seq<char>>
    decreases count,
{
    if count <= 0 {
        Seq::empty()
    } else {
        node_lines_of(nodes, count - 1).push(nodes[count - 1].line_of())
    }
}

impl ProjectItem {
    /// The name of the project, then a line for each of its servers.
    pub open spec fn lines_of(&self) -> Seq<Seq<char>> {
        seq![self.name@] + node_lines_of(self.nodes@, self.nodes@.len() as int)
    }
}

/// The lines of the first `count` projects.
pub open spec fn project_lines_of(projects: Seq<ProjectItem>, count: int) -> Seq<Seq<char>>
    decreases count,
{
    if count <= 0 {
        Seq::empty()
    } else {
        project_lines_of(projects, count - 1) + projects[count - 1].lines_of()
    }
}

impl ProjectListResponse {
    /// The list of projects as it is shown: project after project, each
    /// with its servers under it.
    pub open spec fn lines_of(&self) -> Seq<Seq<char>> {
        project_lines_of(self.projects@, self.projects@.len() as int)
    }

    pub fn lines(&self) -> (lines: Vec<String>)
        ensures
            views(lines@) == self.lines_of(),
    {
        let mut lines: Vec<String> = Vec::new();
        let mut i: usize = 0;
        assert(views(lines@) =~= project_lines_of(self.projects@, 0));
        while i < self.projects.len()
            invariant
                i <= self.projects.len(),
                views(lines@) == project_lines_of(self.projects@, i as int),
            decreases self.projects.len() - i,
        {
            let project = &self.projects[i];
            let ghost before = views(lines@);
            lines.push(project.name.clone());
            assert(views(lines@) =~= before + seq![project.name@]);
            assert(node_lines_of(project.nodes@, 0) =~= Seq::<Seq<char>>::empty());
            let mut k: usize = 0;
            while k < project.nodes.len()
                invariant
                    k <= project.nodes.len(),
                    views(lines@) == before + seq![project.name@] + node_lines_of(
                        project.nodes@,
                        k as int,
                    ),
                decreases project.nodes.len() - k,
            {
                let ghost so_far = views(lines@);
                lines.push(project.nodes[k].line());
                assert(views(lines@) =~= so_far.push(project.nodes@[k as int].line_of()));
                k += 1;
            }
            assert(views(lines@) =~= before + project.lines_of());
            i += 1;
        }
        lines
    }
}

} // verus!
