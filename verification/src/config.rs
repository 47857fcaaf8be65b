//! The declarative description of an application, read once per run and
//! never changed by it, and the locally stored credentials.

use crate::text::same_text;
use vstd::prelude::*;

verus! {

/// A local file or directory and the place it is copied to under the remote
/// deploy path.
#[derive(Debug)]
pub struct FileMapping {
    pub local: String,
    pub remote: String,
}

/// A domain routed to a local port.
#[derive(Debug)]
pub struct Route {
    pub domain: String,
    pub port: u16,
    pub tls: bool,
}

/// A named URL that the pipeline polls after start.
#[derive(Debug)]
pub struct HealthCheck {
    pub name: String,
    pub url: String,
}

/// A group of services deployed under one name.
#[derive(Debug)]
pub struct AppDef {
    pub name: String,
    pub services: Vec<String>,
    pub port: Option<u16>,
    pub domains: Vec<String>,
}

/// Where a git deploy clones from.
#[derive(Debug)]
pub struct GitConfig {
    pub repo: String,
    pub ssh_key: Option<String>,
}

/// The registry an image deploy logs in to.
#[derive(Debug)]
pub struct RegistryConfig {
    pub url: String,
    pub username: String,
    pub token: String,
}

/// How code or images reach a node.
#[derive(Debug)]
pub struct DeployConfig {
    pub source: String,
    pub branch: Option<String>,
    pub git: Option<GitConfig>,
    pub registry: Option<RegistryConfig>,
    pub compose_files: Option<Vec<String>>,
}

/// The application description.
#[derive(Debug)]
pub struct OpsToml {
    pub project: String,
    pub target: Option<String>,
    pub deploy_path: String,
    pub deploy: DeployConfig,
    pub apps: Vec<AppDef>,
    pub env_files: Vec<FileMapping>,
    pub sync: Vec<FileMapping>,
    pub routes: Vec<Route>,
    pub healthchecks: Vec<HealthCheck>,
}

/// The three ways of bringing code to a node.
#[derive(Debug, Clone, Copy, PartialEq, Eq, Structural)]
pub enum Source {
    /// Clone on first deploy, pull afterwards.
    Git,
    /// Push the working directory with an ephemeral credential.
    Push,
    /// Log in to the registry and pull images.
    Image,
}

/// Why a description cannot be deployed.
#[derive(Debug)]
pub enum ConfigError {
    /// `deploy.source` is none of `git`, `push`, `image`.
    UnknownSource(String),
    /// `deploy.source` is `git` and there is no `[deploy.git]` section.
    MissingGitSection,
}

impl ConfigError {
    /// What the operator is told.
    pub open spec fn message_of(self) -> Seq<char> {
        match self {
            ConfigError::UnknownSource(word) => "Unknown deploy source: "@ + word@,
            ConfigError::MissingGitSection => "deploy.source='git' requires [deploy.git] section"@,
        }
    }

    pub fn message(&self) -> (m: String)
        ensures
            m@ == self.message_of(),
    {
        match self {
            ConfigError::UnknownSource(word) => {
                let mut m = "Unknown deploy source: ".to_owned();
                m.append(word.as_str());
                m
            },
            ConfigError::MissingGitSection => {
                "deploy.source='git' requires [deploy.git] section".to_owned()
            },
        }
    }
}

impl Source {
    pub open spec fn from_name(s: Seq<char>) -> Option<Source> {
        if s == "git"@ {
            Some(Source::Git)
        } else if s == "push"@ {
            Some(Source::Push)
        } else if s == "image"@ {
            Some(Source::Image)
        } else {
            None
        }
    }

    pub open spec fn name(self) -> Seq<char> {
        match self {
            Source::Git => "git"@,
            Source::Push => "push"@,
            Source::Image => "image"@,
        }
    }

    pub fn as_str(self) -> (r: &'static str)
        ensures
            r@ == self.name(),
    {
        match self {
            Source::Git => "git",
            Source::Push => "push",
            Source::Image => "image",
        }
    }

    /// Reads `deploy.source`; any other word is a configuration error that
    /// carries the word.
    pub fn parse(s: &str) -> (r: Result<Source, ConfigError>)
        ensures
            match Source::from_name(s@) {
                Some(source) => r == Ok::<Source, ConfigError>(source),
                None => r matches Err(ConfigError::UnknownSource(word)) && word@ == s@,
            },
    {
        if same_text(s, "git") {
            Ok(Source::Git)
        } else if same_text(s, "push") {
            Ok(Source::Push)
        } else if same_text(s, "image") {
            Ok(Source::Image)
        } else {
            Err(ConfigError::UnknownSource(s.to_owned()))
        }
    }

    pub proof fn lemma_name_round_trip(self)
        ensures
            Source::from_name(self.name()) == Some(self),
    {
        reveal_strlit("git");
        reveal_strlit("push");
        reveal_strlit("image");
        let g = "git"@;
        let p = "push"@;
        let i = "image"@;
        assert(g[0] == 'g' && p[0] == 'p' && i[0] == 'i');
    }
}

/// The name of the application a description deploys: that of its first
/// `[[apps]]` entry, the project name when there is none.
pub open spec fn app_name_of(config: &OpsToml) -> Seq<char> {
    if config.apps@.len() > 0 {
        config.apps@[0].name@
    } else {
        config.project@
    }
}

pub fn resolve_app_name(config: &OpsToml) -> (name: String)
    ensures
        name@ == app_name_of(config),
{
    if config.apps.len() > 0 {
        config.apps[0].name.clone()
    } else {
        config.project.clone()
    }
}

/// The locally stored credentials.
#[derive(Debug)]
pub struct Config {
    pub token: Option<String>,
}

/// The operator has not logged in.
#[derive(Debug, Clone, Copy, PartialEq, Eq, Structural)]
pub struct NotLoggedIn;

impl Config {
    /// Credentials without a token.
    pub fn empty() -> (c: Config)
        ensures
            c.token is None,
    {
        Config { token: None }
    }

    /// Takes the token of a login.
    pub fn log_in(&mut self, answer: crate::account::LoginResponse)
        ensures
            final(self).token matches Some(token) && token@ == answer.token@,
    {
        self.token = Some(answer.token);
    }

    /// Forgets the token. Says whether there was one.
    pub fn log_out(&mut self) -> (was_logged_in: bool)
        ensures
            was_logged_in == old(self).token is Some,
            final(self).token is None,
    {
        let was_logged_in = self.token.is_some();
        self.token = None;
        was_logged_in
    }

    /// The token, which every call to the control plane needs.
    pub fn require_token(&self) -> (r: Result<&String, NotLoggedIn>)
        ensures
            match self.token {
                Some(token) => r matches Ok(t) && t@ == token@,
                None => r is Err,
            },
    {
        match &self.token {
            Some(token) => Ok(token),
            None => Err(NotLoggedIn),
        }
    }
}

} // verus!
