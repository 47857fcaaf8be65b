//! Installing the node daemon as a service, behind a proxy where it is
//! given a domain: what is written, what is run, and what is said of each
//! step.

use crate::text::{decimal, format_decimal};
use vstd::prelude::*;

verus! {

/// One step of an installation.
#[derive(Debug)]
pub enum InstallStep {
    /// Write a file, and say so.
    Write { path: String, content: String },
    /// Make a directory and those above it.
    MakeDir { path: String },
    /// Run a command in the shell; say `done` where it succeeds and
    /// `failed` where it does not, and go on either way.
    Run { command: String, done: String, failed: String },
}

pub enum InstallStepView {
    Write { path: Seq<char>, content: Seq<char> },
    MakeDir { path: Seq<char> },
    Run { command: Seq<char>, done: Seq<char>, failed: Seq<char> },
}

impl View for InstallStep {
    type V = InstallStepView;

    open spec fn view(&self) -> InstallStepView {
        match self {
            InstallStep::Write { path, content } => InstallStepView::Write {
                path: path@,
                content: content@,
            },
            InstallStep::MakeDir { path } => InstallStepView::MakeDir { path: path@ },
            InstallStep::Run { command, done, failed } => InstallStepView::Run {
                command: command@,
                done: done@,
                failed: failed@,
            },
        }
    }
}

impl DeepView for InstallStep {
    type V = InstallStepView;

    open spec fn deep_view(&self) -> InstallStepView {
        self.view()
    }
}

/// The unit file of the daemon.
pub open spec fn unit_path() -> Seq<char> {
    "/etc/systemd/system/ops-serve.service"@
}

/// The certificate and the key with which the proxy answers.
pub open spec fn certificate_path() -> Seq<char> {
    "/etc/nginx/ssl/ops-serve.crt"@
}

pub open spec fn key_path() -> Seq<char> {
    "/etc/nginx/ssl/ops-serve.key"@
}

/// The unit that runs the daemon: the program at `exe`, restarted whenever
/// it ends.
pub open spec fn unit_of(exe: Seq<char>, token: Seq<char>, port: nat, compose_dir: Seq<char>) -> Seq<
    char,
> {
    "[Unit]\nDescription=OPS Serve\nAfter=network.target docker.service\nWants=docker.service\n\n[Service]\nType=simple\nExecStart="@
        + exe + " serve --token "@ + token + " --port "@ + decimal(port) + " --compose-dir "@
        + compose_dir
        + "\nRestart=always\nRestartSec=5\n\n[Install]\nWantedBy=multi-user.target\n"@
}

pub fn unit(exe: &str, token: &str, port: u16, compose_dir: &str) -> (text: String)
    ensures
        text@ == unit_of(exe@, token@, port as nat, compose_dir@),
{
    let mut text = "[Unit]\nDescription=OPS Serve\nAfter=network.target docker.service\nWants=docker.service\n\n[Service]\nType=simple\nExecStart=".to_owned();
    text.append(exe);
    text.append(" serve --token ");
    text.append(token);
    text.append(" --port ");
    text.append(format_decimal(port as u64).as_str());
    text.append(" --compose-dir ");
    text.append(compose_dir);
    text.append("\nRestart=always\nRestartSec=5\n\n[Install]\nWantedBy=multi-user.target\n");
    text
}

/// The site of the proxy: requests for the domain, plain or encrypted, go
/// to the daemon, with upgrades passed on.
pub open spec fn site_of(domain: Seq<char>, port: nat) -> Seq<char> {
    "server {\n    listen 80;\n    listen 443 ssl;\n    server_name "@ + domain
        + ";\n\n    ssl_certificate "@ + certificate_path() + ";\n    ssl_certificate_key "@
        + key_path() + ";\n\n    location / {\n        proxy_pass http://127.0.0.1:"@ + decimal(
        port,
    )
        + ";\n        proxy_set_header Host $host;\n        proxy_set_header X-Real-IP $remote_addr;\n        proxy_set_header X-Forwarded-For $proxy_add_x_forwarded_for;\n        proxy_set_header X-Forwarded-Proto $scheme;\n        proxy_http_version 1.1;\n        proxy_set_header Upgrade $http_upgrade;\n        proxy_set_header Connection \"upgrade\";\n    }\n}"@
}

pub fn site(domain: &str, port: u16) -> (text: String)
    ensures
        text@ == site_of(domain@, port as nat),
{
    let mut text = "server {\n    listen 80;\n    listen 443 ssl;\n    server_name ".to_owned();
    text.append(domain);
    text.append(";\n\n    ssl_certificate ");
    text.append("/etc/nginx/ssl/ops-serve.crt");
    text.append(";\n    ssl_certificate_key ");
    text.append("/etc/nginx/ssl/ops-serve.key");
    text.append(";\n\n    location / {\n        proxy_pass http://127.0.0.1:");
    text.append(format_decimal(port as u64).as_str());
    text.append(
        ";\n        proxy_set_header Host $host;\n        proxy_set_header X-Real-IP $remote_addr;\n        proxy_set_header X-Forwarded-For $proxy_add_x_forwarded_for;\n        proxy_set_header X-Forwarded-Proto $scheme;\n        proxy_http_version 1.1;\n        proxy_set_header Upgrade $http_upgrade;\n        proxy_set_header Connection \"upgrade\";\n    }\n}",
    );
    text
}

/// Where the site is written: among the enabled sites where the proxy
/// keeps such a directory, among its configuration fragments otherwise.
pub open spec fn site_path_of(sites_enabled: bool) -> Seq<char> {
    if sites_enabled {
        "/etc/nginx/sites-enabled/ops-serve.conf"@
    } else {
        "/etc/nginx/conf.d/ops-serve.conf"@
    }
}

pub fn site_path(sites_enabled: bool) -> (path: &'static str)
    ensures
        path@ == site_path_of(sites_enabled),
{
    if sites_enabled {
        "/etc/nginx/sites-enabled/ops-serve.conf"
    } else {
        "/etc/nginx/conf.d/ops-serve.conf"
    }
}

/// The command that makes a certificate signed by its own key, good for
/// ten years.
pub open spec fn certificate_command_of() -> Seq<char> {
    "openssl req -x509 -nodes -days 3650 -newkey rsa:2048 -keyout "@ + key_path() + " -out "@
        + certificate_path() + " -subj '/CN=ops-serve'"@
}

pub fn certificate_command() -> (cmd: String)
    ensures
        cmd@ == certificate_command_of(),
{
    let mut cmd = "openssl req -x509 -nodes -days 3650 -newkey rsa:2048 -keyout ".to_owned();
    cmd.append("/etc/nginx/ssl/ops-serve.key");
    cmd.append(" -out ");
    cmd.append("/etc/nginx/ssl/ops-serve.crt");
    cmd.append(" -subj '/CN=ops-serve'");
    cmd
}

/// A command of the service manager or the proxy, which says what it did
/// where it succeeds and names itself where it fails.
pub open spec fn managed(command: Seq<char>, done: Seq<char>) -> InstallStepView {
    InstallStepView::Run { command, done, failed: "Failed: "@ + command }
}

fn run_managed(command: &str, done: &str) -> (step: InstallStep)
    ensures
        step@ == managed(command@, done@),
{
    let mut failed = "Failed: ".to_owned();
    failed.append(command);
    InstallStep::Run { command: command.to_owned(), done: done.to_owned(), failed }
}

/// The daemon as a service: its unit is written, the service manager reads
/// it, and the daemon is enabled and started anew.
pub open spec fn service_steps(
    exe: Seq<char>,
    token: Seq<char>,
    port: nat,
    compose_dir: Seq<char>,
) -> Seq<InstallStepView> {
    seq![
        InstallStepView::Write { path: unit_path(), content: unit_of(exe, token, port, compose_dir) },
        managed("systemctl daemon-reload"@, "Reloaded systemd"@),
        managed("systemctl enable ops-serve"@, "Enabled ops-serve"@),
        managed("systemctl restart ops-serve"@, "Restarted ops-serve"@),
    ]
}

/// A certificate is made only where there is none.
pub open spec fn certificate_steps(certificate_exists: bool) -> Seq<InstallStepView> {
    if certificate_exists {
        Seq::empty()
    } else {
        seq![
            InstallStepView::MakeDir { path: "/etc/nginx/ssl"@ },
            InstallStepView::Run {
                command: certificate_command_of(),
                done: "Generated self-signed SSL certificate"@,
                failed: "Failed to generate SSL certificate"@,
            },
        ]
    }
}

/// The proxy before the daemon: a certificate where there is none, the
/// site, and the proxy reloaded once its configuration has been tested.
pub open spec fn proxy_steps(
    domain: Seq<char>,
    port: nat,
    certificate_exists: bool,
    sites_enabled: bool,
) -> Seq<InstallStepView> {
    certificate_steps(certificate_exists) + seq![
        InstallStepView::Write { path: site_path_of(sites_enabled), content: site_of(domain, port) },
        managed("nginx -t"@, "Nginx config test passed"@),
        managed("systemctl reload nginx"@, "Reloaded nginx"@),
    ]
}

/// The whole installation: the service, and the proxy where a domain is
/// given.
pub open spec fn install_of(
    exe: Seq<char>,
    token: Seq<char>,
    port: nat,
    compose_dir: Seq<char>,
    domain: Option<Seq<char>>,
    certificate_exists: bool,
    sites_enabled: bool,
) -> Seq<InstallStepView> {
    service_steps(exe, token, port, compose_dir) + (match domain {
        Some(name) => proxy_steps(name, port, certificate_exists, sites_enabled),
        None => Seq::empty(),
    })
}

/// What the machine is like before an installation.
#[derive(Debug, Clone, Copy, PartialEq, Eq, Structural)]
pub struct Machine {
    /// The certificate of the proxy is there.
    pub certificate_exists: bool,
    /// The proxy keeps a directory of enabled sites.
    pub sites_enabled: bool,
}

/// Plans an installation.
pub fn install_plan(
    exe: &str,
    token: &str,
    port: u16,
    compose_dir: &str,
    domain: &Option<String>,
    machine: Machine,
) -> (steps: Vec<InstallStep>)
    ensures
        steps.deep_view() == install_of(
            exe@,
            token@,
            port as nat,
            compose_dir@,
            crate::text::opt_text(*domain),
            machine.certificate_exists,
            machine.sites_enabled,
        ),
{
    let mut steps: Vec<InstallStep> = Vec::new();
    steps.push(
        InstallStep::Write {
            path: "/etc/systemd/system/ops-serve.service".to_owned(),
            content: unit(exe, token, port, compose_dir),
        },
    );
    steps.push(run_managed("systemctl daemon-reload", "Reloaded systemd"));
    steps.push(run_managed("systemctl enable ops-serve", "Enabled ops-serve"));
    steps.push(run_managed("systemctl restart ops-serve", "Restarted ops-serve"));
    assert(steps.deep_view() =~= service_steps(exe@, token@, port as nat, compose_dir@));
    match domain {
        Some(name) => {
            let ghost service = steps.deep_view();
            if !machine.certificate_exists {
                steps.push(InstallStep::MakeDir { path: "/etc/nginx/ssl".to_owned() });
                steps.push(
                    InstallStep::Run {
                        command: certificate_command(),
                        done: "Generated self-signed SSL certificate".to_owned(),
                        failed: "Failed to generate SSL certificate".to_owned(),
                    },
                );
            }
            assert(steps.deep_view() =~= service + certificate_steps(machine.certificate_exists));
            steps.push(
                InstallStep::Write {
                    path: site_path(machine.sites_enabled).to_owned(),
                    content: site(name.as_str(), port),
                },
            );
            steps.push(run_managed("nginx -t", "Nginx config test passed"));
            steps.push(run_managed("systemctl reload nginx", "Reloaded nginx"));
            assert(steps.deep_view() =~= service + proxy_steps(
                name@,
                port as nat,
                machine.certificate_exists,
                machine.sites_enabled,
            ));
        },
        None => {
            assert(steps.deep_view() =~= steps.deep_view() + Seq::<InstallStepView>::empty());
        },
    }
    steps
}

/// What is said of a step that was carried out.
pub open spec fn said_of(mark: Seq<char>, text: Seq<char>) -> Seq<char> {
    mark + " "@ + text
}

/// The line for a file that was written.
pub fn wrote_line(path: &str) -> (line: String)
    ensures
        line@ == "✓ Wrote "@ + path@,
{
    let mut line = "✓ Wrote ".to_owned();
    line.append(path);
    line
}

/// The line for a command that was run: what it did where it succeeded,
/// what failed where it did not.
pub fn ran_line(done: &str, failed: &str, succeeded: bool) -> (line: String)
    ensures
        line@ == (if succeeded {
            said_of("✓"@, done@)
        } else {
            said_of("✗"@, failed@)
        }),
{
    let mut line = if succeeded {
        "✓".to_owned()
    } else {
        "✗".to_owned()
    };
    line.append(" ");
    if succeeded {
        line.append(done);
    } else {
        line.append(failed);
    }
    line
}

} // verus!
