//! A reverse tunnel from a public subdomain on a node to a local port.
//!
//! A tunnel is long-lived and ends on an interrupt. Whatever ends it, and at
//! whatever stage, what it created on the way is taken down before the
//! program exits: the routing fragment on the node, and the record with its
//! DNS entry in the control plane.

use crate::text::{
    count_char, count_in, decimal, find_char, format_decimal, from_chars_range, index_of_from,
    to_chars,
};
use rand::Rng;
use vstd::prelude::*;

verus! {

/// The lowest and highest remote port a tunnel may listen on.
pub const PORT_MIN: u16 = 10000;

pub const PORT_MAX: u16 = 60000;

/// `Rng::gen_range` on the thread-local generator returns a value of the
/// inclusive range it is given; which one is left to chance. It panics on an
/// empty range, which the precondition excludes, and where the operating
/// system cannot seed the generator.
#[verifier::external_body]
fn random_between(low: u16, high: u16) -> (port: u16)
    requires
        low <= high,
    ensures
        low <= port <= high,
{
    rand::thread_rng().gen_range(low..=high)
}

/// A remote port for a new tunnel.
pub fn pick_remote_port() -> (port: u16)
    ensures
        PORT_MIN <= port <= PORT_MAX,
{
    random_between(PORT_MIN, PORT_MAX)
}

/// The subdomain and project that a tunnel target names.
#[derive(Debug)]
pub struct TunnelTarget {
    pub subdomain: String,
    pub project: String,
}

/// The target is not of the form `subdomain.project`.
#[derive(Debug, Clone, Copy, PartialEq, Eq, Structural)]
pub struct InvalidTunnelTarget;

impl InvalidTunnelTarget {
    pub fn message(&self) -> (m: &'static str)
        ensures
            m@ == "Invalid target format. Expected 'subdomain.project' (e.g., webhook.redq)"@,
    {
        "Invalid target format. Expected 'subdomain.project' (e.g., webhook.redq)"
    }
}

/// Reads a tunnel target: two parts with one dot between them.
pub fn parse_tunnel_target(target: &str) -> (r: Result<TunnelTarget, InvalidTunnelTarget>)
    ensures
        r is Ok <==> count_char(target@, '.') == 1,
        r matches Ok(t) ==> {
            &&& t.subdomain@ == target@.take(find_char(target@, '.'))
            &&& t.project@ == target@.skip(find_char(target@, '.') + 1)
        },
{
    let v = to_chars(target);
    assert(v@.take(v.len() as int) =~= v@);
    if count_in(&v, v.len(), '.') != 1 {
        return Err(InvalidTunnelTarget);
    }
    assert(v@.skip(0) =~= v@);
    let dot = index_of_from(&v, '.', 0);
    proof {
        crate::text::lemma_find_char(v@, '.');
        crate::target::lemma_count_zero(v@, '.');
        assert(v@.subrange(0, dot as int) =~= v@.take(dot as int));
        assert(v@.subrange(dot + 1, v.len() as int) =~= v@.skip(dot + 1));
    }
    Ok(
        TunnelTarget {
            subdomain: from_chars_range(&v, 0, dot),
            project: from_chars_range(&v, dot + 1, v.len()),
        },
    )
}

// ---------------------------------------------------------------------------
// What is written to the node
// ---------------------------------------------------------------------------

/// The name of the routing fragment of a tunnel.
pub open spec fn conf_name_of(subdomain: Seq<char>, project: Seq<char>) -> Seq<char> {
    "ops-tunnel-"@ + subdomain + "-"@ + project + ".conf"@
}

pub fn conf_name(subdomain: &str, project: &str) -> (name: String)
    ensures
        name@ == conf_name_of(subdomain@, project@),
{
    let mut name = "ops-tunnel-".to_owned();
    name.append(subdomain);
    name.append("-");
    name.append(project);
    name.append(".conf");
    name
}

/// The routing fragment: requests for the domain go to the remote port, with
/// upgrades passed on and buffering off.
pub open spec fn server_block_of(domain: Seq<char>, remote_port: nat) -> Seq<char> {
    "server {\n    listen 80;\n    server_name "@ + domain
        + ";\n\n    location / {\n        proxy_pass http://127.0.0.1:"@ + decimal(remote_port)
        + ";\n        proxy_http_version 1.1;\n        proxy_set_header Upgrade $http_upgrade;\n        proxy_set_header Connection \"upgrade\";\n        proxy_set_header Host $host;\n        proxy_set_header X-Real-IP $remote_addr;\n        proxy_set_header X-Forwarded-For $proxy_add_x_forwarded_for;\n        proxy_set_header X-Forwarded-Proto $scheme;\n        proxy_read_timeout 86400;\n        proxy_buffering off;\n    }\n}\n"@
}

pub fn server_block(domain: &str, remote_port: u16) -> (conf: String)
    ensures
        conf@ == server_block_of(domain@, remote_port as nat),
{
    let mut conf = "server {\n    listen 80;\n    server_name ".to_owned();
    conf.append(domain);
    conf.append(";\n\n    location / {\n        proxy_pass http://127.0.0.1:");
    conf.append(format_decimal(remote_port as u64).as_str());
    conf.append(
        ";\n        proxy_http_version 1.1;\n        proxy_set_header Upgrade $http_upgrade;\n        proxy_set_header Connection \"upgrade\";\n        proxy_set_header Host $host;\n        proxy_set_header X-Real-IP $remote_addr;\n        proxy_set_header X-Forwarded-For $proxy_add_x_forwarded_for;\n        proxy_set_header X-Forwarded-Proto $scheme;\n        proxy_read_timeout 86400;\n        proxy_buffering off;\n    }\n}\n",
    );
    conf
}

/// Writes the fragment from its input.
pub open spec fn upload_of(conf_name: Seq<char>) -> Seq<char> {
    "cat > /etc/nginx/sites-available/"@ + conf_name
}

pub fn upload_command(conf_name: &str) -> (cmd: String)
    ensures
        cmd@ == upload_of(conf_name@),
{
    let mut cmd = "cat > /etc/nginx/sites-available/".to_owned();
    cmd.append(conf_name);
    cmd
}

/// Enables the fragment and reloads the proxy if its configuration is valid.
pub open spec fn enable_of(conf_name: Seq<char>) -> Seq<char> {
    "ln -sf /etc/nginx/sites-available/"@ + conf_name
        + " /etc/nginx/sites-enabled/ && nginx -t && systemctl reload nginx"@
}

pub fn enable_command(conf_name: &str) -> (cmd: String)
    ensures
        cmd@ == enable_of(conf_name@),
{
    let mut cmd = "ln -sf /etc/nginx/sites-available/".to_owned();
    cmd.append(conf_name);
    cmd.append(" /etc/nginx/sites-enabled/ && nginx -t && systemctl reload nginx");
    cmd
}

/// Removes the fragment and reloads the proxy.
pub open spec fn remove_of(conf_name: Seq<char>) -> Seq<char> {
    "rm -f /etc/nginx/sites-enabled/"@ + conf_name + " /etc/nginx/sites-available/"@ + conf_name
        + " && nginx -t && systemctl reload nginx"@
}

pub fn remove_command(conf_name: &str) -> (cmd: String)
    ensures
        cmd@ == remove_of(conf_name@),
{
    let mut cmd = "rm -f /etc/nginx/sites-enabled/".to_owned();
    cmd.append(conf_name);
    cmd.append(" /etc/nginx/sites-available/");
    cmd.append(conf_name);
    cmd.append(" && nginx -t && systemctl reload nginx");
    cmd
}

/// Requests a certificate for the domain without asking anything.
pub open spec fn certificate_of(domain: Seq<char>) -> Seq<char> {
    "certbot --nginx -d "@ + domain
        + " --non-interactive --agree-tos --email admin@ops.autos"@
}

pub fn certificate_command(domain: &str) -> (cmd: String)
    ensures
        cmd@ == certificate_of(domain@),
{
    let mut cmd = "certbot --nginx -d ".to_owned();
    cmd.append(domain);
    cmd.append(" --non-interactive --agree-tos --email admin@ops.autos");
    cmd
}

/// The forwarding of the remote port to the local one.
pub open spec fn forward_of(remote_port: nat, local_port: nat) -> Seq<char> {
    decimal(remote_port) + ":127.0.0.1:"@ + decimal(local_port)
}

pub fn forward_spec(remote_port: u16, local_port: u16) -> (spec: String)
    ensures
        spec@ == forward_of(remote_port as nat, local_port as nat),
{
    let mut spec = format_decimal(remote_port as u64);
    spec.append(":127.0.0.1:");
    spec.append(format_decimal(local_port as u64).as_str());
    spec
}

/// The address of the login on a node.
pub open spec fn login_of(node_id: nat) -> Seq<char> {
    "root@"@ + decimal(node_id) + ".node.ops.autos"@
}

pub fn node_login(node_id: u64) -> (login: String)
    ensures
        login@ == login_of(node_id as nat),
{
    let mut login = "root@".to_owned();
    login.append(format_decimal(node_id).as_str());
    login.append(".node.ops.autos");
    login
}

/// The public URL of a tunnel: secure where the certificate was issued.
pub open spec fn url_of(secure: bool, domain: Seq<char>) -> Seq<char> {
    (if secure {
        "https://"@
    } else {
        "http://"@
    }) + domain
}

pub fn tunnel_url(secure: bool, domain: &str) -> (url: String)
    ensures
        url@ == url_of(secure, domain@),
{
    let mut url = if secure {
        "https://".to_owned()
    } else {
        "http://".to_owned()
    };
    url.append(domain);
    url
}

// ---------------------------------------------------------------------------
// The life of a tunnel
// ---------------------------------------------------------------------------

/// Where a tunnel stands.
#[derive(Debug, Clone, Copy, PartialEq, Eq, Structural)]
pub enum Stage {
    /// Nothing has been done.
    Idle,
    /// The record is being created in the control plane.
    Registering,
    /// The credential of the node is being fetched.
    FetchingKey,
    /// The routing fragment is being written.
    Uploading,
    /// The routing fragment is being enabled.
    Enabling,
    /// A certificate is being requested.
    Certifying,
    /// The tunnel forwards, until it is interrupted or the session ends.
    Forwarding,
    /// The routing fragment is being removed.
    RemovingConfig,
    /// The record is being deleted.
    DeletingRecord,
    /// Everything is taken down.
    Closed,
}

/// What the driver does next.
#[derive(Debug, Clone, Copy, PartialEq, Eq, Structural)]
pub enum TunnelAction {
    Register,
    FetchKey,
    UploadConfig,
    EnableConfig,
    RequestCertificate,
    Forward,
    RemoveConfig,
    DeleteRecord,
    /// Leave; `succeeded` says whether the tunnel ever forwarded.
    Exit { succeeded: bool },
}

/// What happened to the action the driver was given.
#[derive(Debug, Clone, Copy, PartialEq, Eq, Structural)]
pub enum TunnelEvent {
    /// The action succeeded; for `Forward`, the session ended by itself.
    Done,
    /// The action failed.
    Failed,
    /// The operator interrupted the program.
    Interrupted,
}

/// The state of a tunnel: its stage, and what it has created and not yet
/// taken down.
#[derive(Debug, Clone, Copy, PartialEq, Eq, Structural)]
pub struct Tunnel {
    pub stage: Stage,
    /// The record, with its DNS entry, exists in the control plane.
    pub record_live: bool,
    /// The routing fragment may be on the node.
    pub config_live: bool,
    /// The certificate was issued.
    pub secure: bool,
    /// The tunnel has forwarded.
    pub forwarded: bool,
}

impl Tunnel {
    /// The tunnel before anything is done: nothing exists, no certificate
    /// was issued, and nothing was forwarded.
    pub open spec fn idle() -> Tunnel {
        Tunnel {
            stage: Stage::Idle,
            record_live: false,
            config_live: false,
            secure: false,
            forwarded: false,
        }
    }

    /// What exists at each stage.
    pub open spec fn well_formed(self) -> bool {
        match self.stage {
            Stage::Idle | Stage::Registering => !self.record_live && !self.config_live
                && !self.forwarded,
            Stage::FetchingKey => self.record_live && !self.config_live && !self.forwarded,
            Stage::Uploading => self.record_live && !self.config_live && !self.forwarded,
            Stage::Enabling | Stage::Certifying => self.record_live && self.config_live
                && !self.forwarded,
            Stage::Forwarding => self.record_live && self.config_live && self.forwarded,
            Stage::RemovingConfig => self.config_live,
            Stage::DeletingRecord => self.record_live && !self.config_live,
            Stage::Closed => !self.record_live && !self.config_live,
        }
    }

    /// The action that belongs to a stage.
    pub open spec fn action(self) -> TunnelAction {
        match self.stage {
            Stage::Idle => TunnelAction::Register,
            Stage::Registering => TunnelAction::Register,
            Stage::FetchingKey => TunnelAction::FetchKey,
            Stage::Uploading => TunnelAction::UploadConfig,
            Stage::Enabling => TunnelAction::EnableConfig,
            Stage::Certifying => TunnelAction::RequestCertificate,
            Stage::Forwarding => TunnelAction::Forward,
            Stage::RemovingConfig => TunnelAction::RemoveConfig,
            Stage::DeletingRecord => TunnelAction::DeleteRecord,
            Stage::Closed => TunnelAction::Exit { succeeded: self.forwarded },
        }
    }

    /// The stage at which taking down starts: the fragment first, if there is
    /// one, then the record, if there is one.
    pub open spec fn teardown(self) -> Tunnel {
        Tunnel {
            stage: if self.config_live {
                Stage::RemovingConfig
            } else if self.record_live {
                Stage::DeletingRecord
            } else {
                Stage::Closed
            },
            ..self
        }
    }

    /// The tunnel after `event`. Setting up goes stage by stage; a failure
    /// or an interrupt at any stage starts the taking down of what exists.
    /// A certificate that is not issued is no failure: the tunnel then serves
    /// plain HTTP. Taking down is best effort: a step of it that fails is not
    /// tried again, and the next one follows.
    pub open spec fn after(self, event: TunnelEvent) -> Tunnel {
        match self.stage {
            Stage::Idle => Tunnel { stage: Stage::Registering, ..self },
            Stage::Registering => match event {
                TunnelEvent::Done => Tunnel {
                    stage: Stage::FetchingKey,
                    record_live: true,
                    ..self
                },
                _ => Tunnel { stage: Stage::Closed, ..self },
            },
            Stage::FetchingKey => match event {
                TunnelEvent::Done => Tunnel { stage: Stage::Uploading, ..self },
                _ => self.teardown(),
            },
            Stage::Uploading => match event {
                TunnelEvent::Done => Tunnel { stage: Stage::Enabling, config_live: true, ..self },
                TunnelEvent::Failed => self.teardown(),
                TunnelEvent::Interrupted => (Tunnel { config_live: true, ..self }).teardown(),
            },
            Stage::Enabling => match event {
                TunnelEvent::Done => Tunnel { stage: Stage::Certifying, ..self },
                _ => self.teardown(),
            },
            Stage::Certifying => match event {
                TunnelEvent::Done => Tunnel {
                    stage: Stage::Forwarding,
                    secure: true,
                    forwarded: true,
                    ..self
                },
                TunnelEvent::Failed => Tunnel { stage: Stage::Forwarding, forwarded: true, ..self },
                TunnelEvent::Interrupted => self.teardown(),
            },
            Stage::Forwarding => self.teardown(),
            Stage::RemovingConfig => (Tunnel { config_live: false, ..self }).teardown(),
            Stage::DeletingRecord => Tunnel { stage: Stage::Closed, record_live: false, ..self },
            Stage::Closed => self,
        }
    }

    /// A tunnel of which nothing exists yet.
    pub fn new() -> (t: Tunnel)
        ensures
            t == Tunnel::idle(),
            t.well_formed(),
    {
        Tunnel {
            stage: Stage::Idle,
            record_live: false,
            config_live: false,
            secure: false,
            forwarded: false,
        }
    }

    /// Checks that the state is one that a tunnel can be in.
    pub fn validate(&self) -> (ok: bool)
        ensures
            ok == self.well_formed(),
    {
        match self.stage {
            Stage::Idle | Stage::Registering => !self.record_live && !self.config_live
                && !self.forwarded,
            Stage::FetchingKey | Stage::Uploading => self.record_live && !self.config_live
                && !self.forwarded,
            Stage::Enabling | Stage::Certifying => self.record_live && self.config_live
                && !self.forwarded,
            Stage::Forwarding => self.record_live && self.config_live && self.forwarded,
            Stage::RemovingConfig => self.config_live,
            Stage::DeletingRecord => self.record_live && !self.config_live,
            Stage::Closed => !self.record_live && !self.config_live,
        }
    }

    fn begin_teardown(&mut self)
        ensures
            *final(self) == old(self).teardown(),
    {
        self.stage = if self.config_live {
            Stage::RemovingConfig
        } else if self.record_live {
            Stage::DeletingRecord
        } else {
            Stage::Closed
        };
    }

    /// Takes what happened to the last action and says what to do next. The
    /// first call, on an idle tunnel, takes any event and starts the set-up.
    pub fn step(&mut self, event: TunnelEvent) -> (action: TunnelAction)
        requires
            old(self).well_formed(),
        ensures
            final(self).well_formed(),
            *final(self) == old(self).after(event),
            action == final(self).action(),
            action is Exit ==> !final(self).record_live && !final(self).config_live,
    {
        match self.stage {
            Stage::Idle => {
                self.stage = Stage::Registering;
            },
            Stage::Registering => match event {
                TunnelEvent::Done => {
                    self.record_live = true;
                    self.stage = Stage::FetchingKey;
                },
                _ => {
                    self.stage = Stage::Closed;
                },
            },
            Stage::FetchingKey => match event {
                TunnelEvent::Done => {
                    self.stage = Stage::Uploading;
                },
                _ => {
                    self.begin_teardown();
                },
            },
            Stage::Uploading => match event {
                TunnelEvent::Done => {
                    self.config_live = true;
                    self.stage = Stage::Enabling;
                },
                TunnelEvent::Failed => {
                    self.begin_teardown();
                },
                TunnelEvent::Interrupted => {
                    self.config_live = true;
                    self.begin_teardown();
                },
            },
            Stage::Enabling => match event {
                TunnelEvent::Done => {
                    self.stage = Stage::Certifying;
                },
                _ => {
                    self.begin_teardown();
                },
            },
            Stage::Certifying => match event {
                TunnelEvent::Done => {
                    self.secure = true;
                    self.forwarded = true;
                    self.stage = Stage::Forwarding;
                },
                TunnelEvent::Failed => {
                    self.forwarded = true;
                    self.stage = Stage::Forwarding;
                },
                TunnelEvent::Interrupted => {
                    self.begin_teardown();
                },
            },
            Stage::Forwarding => {
                self.begin_teardown();
            },
            Stage::RemovingConfig => {
                self.config_live = false;
                self.begin_teardown();
            },
            Stage::DeletingRecord => {
                self.record_live = false;
                self.stage = Stage::Closed;
            },
            Stage::Closed => {},
        }
        self.current()
    }

    /// The action that belongs to the current stage.
    pub fn current(&self) -> (action: TunnelAction)
        ensures
            action == self.action(),
    {
        match self.stage {
            Stage::Idle | Stage::Registering => TunnelAction::Register,
            Stage::FetchingKey => TunnelAction::FetchKey,
            Stage::Uploading => TunnelAction::UploadConfig,
            Stage::Enabling => TunnelAction::EnableConfig,
            Stage::Certifying => TunnelAction::RequestCertificate,
            Stage::Forwarding => TunnelAction::Forward,
            Stage::RemovingConfig => TunnelAction::RemoveConfig,
            Stage::DeletingRecord => TunnelAction::DeleteRecord,
            Stage::Closed => TunnelAction::Exit { succeeded: self.forwarded },
        }
    }
}

// ---------------------------------------------------------------------------
// Laws
// ---------------------------------------------------------------------------

/// The tunnel after a run of events.
pub open spec fn after_events(start: Tunnel, events: Seq<TunnelEvent>) -> Tunnel
    decreases events.len(),
{
    if events.len() == 0 {
        start
    } else {
        after_events(start, events.drop_last()).after(events.last())
    }
}

/// How many steps a tunnel is from `Closed` at most, once taking down has
/// started.
pub open spec fn teardown_distance(t: Tunnel) -> nat {
    match t.stage {
        Stage::RemovingConfig => 2,
        Stage::DeletingRecord => 1,
        Stage::Closed => 0,
        _ => 3,
    }
}

/// Whatever happens, the state stays consistent, and the driver is told to
/// exit only when neither the record nor the routing fragment is left. An
/// interrupt at any stage starts taking down, and taking down ends after two
/// more events at most, whatever these are.
pub proof fn lemma_tunnel_always_cleans_up(events: Seq<TunnelEvent>, a: TunnelEvent, b: TunnelEvent)
    ensures
        ({
            let t = after_events(Tunnel::idle(), events);
            &&& t.well_formed()
            &&& t.action() is Exit ==> !t.record_live && !t.config_live
            &&& t.stage != Stage::Idle ==> {
                let stopping = t.after(TunnelEvent::Interrupted);
                &&& teardown_distance(stopping) <= 2
                &&& stopping.after(a).after(b).stage == Stage::Closed
                &&& stopping.after(a).after(b).action() is Exit
            }
        }),
    decreases events.len(),
{
    if events.len() > 0 {
        lemma_tunnel_always_cleans_up(events.drop_last(), a, b);
    }
}

} // verus!
