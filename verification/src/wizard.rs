//! The launch wizard as a conversation: which question comes next, what is
//! shown with it, and what an answer settles.
//!
//! The wizard asks nothing itself. Its driver shows each prompt, reads a
//! line where the run is interactive, and hands the line back; a run that
//! is not interactive hands back nothing and every question takes its
//! default.

use crate::launch::{LaunchConfig, ProjectScan};
use crate::prompt::{confirm, confirmed, input_optional, input_or, input_with_default};
use crate::scanner::pair_views;
use crate::text::{
    copy_all, decimal, format_decimal_wide, opt_text, same_text, trimmed, views,
};
use vstd::prelude::*;

verus! {

/// What the wizard asks.
#[derive(Debug, Clone, Copy, PartialEq, Eq, Structural)]
pub enum Question {
    /// Whether to overwrite the description that is there already.
    Overwrite,
    AppName,
    Source,
    DeployPath,
    Target,
    GitRepo,
    GitBranch,
    /// Whether to use the compose files that were found.
    UseComposeFiles,
    /// Whether to configure a container registry.
    UseRegistry,
    /// Whether to sync the environment file.
    SyncEnv,
    /// Whether to sync the configuration file at this position among the
    /// candidates.
    SyncFile(usize),
    HealthUrl,
}

/// How a question is put.
#[derive(Debug, Clone, Copy, PartialEq, Eq, Structural)]
pub enum PromptStyle {
    /// A text, with a default that is shown.
    Text,
    /// A text that may stay empty.
    Optional,
    /// Yes or no, yes unless told otherwise.
    YesByDefault,
    /// Yes or no, no unless told otherwise.
    NoByDefault,
}

// ---------------------------------------------------------------------------
// The model
// ---------------------------------------------------------------------------

/// What the wizard reads of a scan.
pub struct ScanView {
    pub dir_name: Seq<char>,
    pub compose_files: Seq<Seq<char>>,
    pub has_dockerfile: bool,
    pub git_remote: Option<Seq<char>>,
    pub has_env_file: bool,
    pub sync_candidates: Seq<Seq<char>>,
}

pub open spec fn scan_view(scan: &ProjectScan) -> ScanView {
    ScanView {
        dir_name: scan.dir_name@,
        compose_files: views(scan.compose_files@),
        has_dockerfile: scan.has_dockerfile,
        git_remote: opt_text(scan.git_remote),
        has_env_file: scan.has_env_file,
        sync_candidates: views(scan.sync_candidates@),
    }
}

/// What has been settled.
pub struct ConfigView {
    pub app_name: Seq<char>,
    pub target: Seq<char>,
    pub deploy_path: Seq<char>,
    pub source: Seq<char>,
    pub git_repo: Option<Seq<char>>,
    pub git_branch: Option<Seq<char>>,
    pub compose_files: Seq<Seq<char>>,
    pub use_registry: bool,
    pub env_files: Seq<(Seq<char>, Seq<char>)>,
    pub sync_files: Seq<(Seq<char>, Seq<char>)>,
    pub health_url: Option<Seq<char>>,
}

pub open spec fn config_view(cfg: &LaunchConfig) -> ConfigView {
    ConfigView {
        app_name: cfg.app_name@,
        target: cfg.target@,
        deploy_path: cfg.deploy_path@,
        source: cfg.source@,
        git_repo: opt_text(cfg.git_repo),
        git_branch: opt_text(cfg.git_branch),
        compose_files: views(cfg.compose_files@),
        use_registry: cfg.use_registry,
        env_files: pair_views(cfg.env_files@),
        sync_files: pair_views(cfg.sync_files@),
        health_url: opt_text(cfg.health_url),
    }
}

/// A configuration in which nothing is settled.
pub open spec fn blank_config() -> ConfigView {
    ConfigView {
        app_name: Seq::empty(),
        target: Seq::empty(),
        deploy_path: Seq::empty(),
        source: Seq::empty(),
        git_repo: None,
        git_branch: None,
        compose_files: Seq::empty(),
        use_registry: false,
        env_files: Seq::empty(),
        sync_files: Seq::empty(),
        health_url: None,
    }
}

impl ScanView {
    /// The deploy source suggested for the project: images where there are
    /// compose files and nothing to build; a push where there is something
    /// to build; git where there is only a remote; a push otherwise.
    pub open spec fn suggested_source(self) -> Seq<char> {
        if self.compose_files.len() > 0 && !self.has_dockerfile {
            "image"@
        } else if self.has_dockerfile {
            "push"@
        } else if self.git_remote is Some {
            "git"@
        } else {
            "push"@
        }
    }
}

/// The state of the conversation.
pub struct WizardView {
    pub scan: ScanView,
    /// The description exists and the operator is asked before it is
    /// overwritten.
    pub overwrite: bool,
    /// The question that is open; none once the conversation is over.
    pub question: Option<Question>,
    /// The operator declined to overwrite.
    pub aborted: bool,
    pub config: ConfigView,
}

impl WizardView {
    /// The conversation before the first question.
    pub open spec fn start(scan: ScanView, overwrite: bool) -> WizardView {
        WizardView {
            scan,
            overwrite,
            question: Some(
                if overwrite {
                    Question::Overwrite
                } else {
                    Question::AppName
                },
            ),
            aborted: false,
            config: blank_config(),
        }
    }

    /// The question after the configuration files up to `i` are dealt
    /// with: the next candidate, the health check after the last.
    pub open spec fn sync_stage(self, i: int) -> Question {
        if 0 <= i < self.scan.sync_candidates.len() {
            Question::SyncFile(i as usize)
        } else {
            Question::HealthUrl
        }
    }

    /// The environment file is asked about only where there is one.
    pub open spec fn env_stage(self) -> Question {
        if self.scan.has_env_file {
            Question::SyncEnv
        } else {
            self.sync_stage(0)
        }
    }

    /// A registry is asked about only for a deploy from images.
    pub open spec fn registry_stage(self) -> Question {
        if self.config.source == "image"@ {
            Question::UseRegistry
        } else {
            self.env_stage()
        }
    }

    /// The compose files are asked about only where some were found.
    pub open spec fn compose_stage(self) -> Question {
        if self.scan.compose_files.len() > 0 {
            Question::UseComposeFiles
        } else {
            self.registry_stage()
        }
    }

    /// The repository is asked about only for a deploy from git.
    pub open spec fn git_stage(self) -> Question {
        if self.config.source == "git"@ {
            Question::GitRepo
        } else {
            self.compose_stage()
        }
    }

    /// The text that stands in for an empty answer to the open question.
    pub open spec fn default_of(self, question: Question) -> Seq<char> {
        match question {
            Question::AppName => self.scan.dir_name,
            Question::Source => self.scan.suggested_source(),
            Question::DeployPath => "/opt/"@ + self.config.app_name,
            Question::GitRepo => match self.scan.git_remote {
                Some(remote) => remote,
                None => Seq::empty(),
            },
            Question::GitBranch => "main"@,
            _ => Seq::empty(),
        }
    }

    /// How each question is put.
    pub open spec fn style_of(question: Question) -> PromptStyle {
        match question {
            Question::Overwrite | Question::UseRegistry => PromptStyle::NoByDefault,
            Question::UseComposeFiles | Question::SyncEnv | Question::SyncFile(_) =>
                PromptStyle::YesByDefault,
            Question::Target | Question::HealthUrl => PromptStyle::Optional,
            _ => PromptStyle::Text,
        }
    }

    /// The conversation with the next question open.
    pub open spec fn ask(self, question: Question) -> WizardView {
        WizardView { question: Some(question), ..self }
    }

    /// The conversation after the operator answered the open question with
    /// `typed`; `None` stands for a run in which nobody is asked. An answer
    /// after the end changes nothing.
    pub open spec fn answered(self, typed: Option<Seq<char>>) -> WizardView {
        match self.question {
            None => self,
            Some(question) => {
                let text = input_or(typed, self.default_of(question));
                let free = match typed {
                    Some(t) => trimmed(t),
                    None => Seq::<char>::empty(),
                };
                let yes = match typed {
                    Some(t) => confirmed(t, true),
                    None => true,
                };
                let sure = match typed {
                    Some(t) => confirmed(t, false),
                    None => false,
                };
                match question {
                    Question::Overwrite => if sure {
                        self.ask(Question::AppName)
                    } else {
                        WizardView { question: None, aborted: true, ..self }
                    },
                    Question::AppName => WizardView {
                        config: ConfigView { app_name: text, ..self.config },
                        ..self
                    }.ask(Question::Source),
                    Question::Source => WizardView {
                        config: ConfigView { source: text, ..self.config },
                        ..self
                    }.ask(Question::DeployPath),
                    Question::DeployPath => WizardView {
                        config: ConfigView { deploy_path: text, ..self.config },
                        ..self
                    }.ask(Question::Target),
                    Question::Target => {
                        let next = WizardView {
                            config: ConfigView { target: free, ..self.config },
                            ..self
                        };
                        next.ask(next.git_stage())
                    },
                    Question::GitRepo => WizardView {
                        config: ConfigView { git_repo: Some(text), ..self.config },
                        ..self
                    }.ask(Question::GitBranch),
                    Question::GitBranch => {
                        let next = WizardView {
                            config: ConfigView { git_branch: Some(text), ..self.config },
                            ..self
                        };
                        next.ask(next.compose_stage())
                    },
                    Question::UseComposeFiles => {
                        let next = WizardView {
                            config: ConfigView {
                                compose_files: if yes {
                                    self.scan.compose_files
                                } else {
                                    Seq::empty()
                                },
                                ..self.config
                            },
                            ..self
                        };
                        next.ask(next.registry_stage())
                    },
                    Question::UseRegistry => {
                        let next = WizardView {
                            config: ConfigView { use_registry: sure, ..self.config },
                            ..self
                        };
                        next.ask(next.env_stage())
                    },
                    Question::SyncEnv => {
                        let next = WizardView {
                            config: ConfigView {
                                env_files: if yes {
                                    seq![(".env"@, ".env"@)]
                                } else {
                                    Seq::empty()
                                },
                                ..self.config
                            },
                            ..self
                        };
                        next.ask(next.sync_stage(0))
                    },
                    Question::SyncFile(i) => if i < self.scan.sync_candidates.len() {
                        let file = self.scan.sync_candidates[i as int];
                        let next = WizardView {
                            config: ConfigView {
                                sync_files: if yes {
                                    self.config.sync_files.push(("./"@ + file, file))
                                } else {
                                    self.config.sync_files
                                },
                                ..self.config
                            },
                            ..self
                        };
                        next.ask(next.sync_stage(i + 1))
                    } else {
                        self.ask(Question::HealthUrl)
                    },
                    Question::HealthUrl => WizardView {
                        question: None,
                        config: ConfigView {
                            health_url: if free.len() == 0 {
                                None
                            } else {
                                Some(free)
                            },
                            ..self.config
                        },
                        ..self
                    },
                }
            },
        }
    }

    /// How far the conversation is: the place of the open question in the
    /// order of all questions, the number of all questions once it is over.
    pub open spec fn progress(self) -> int {
        let files = self.scan.sync_candidates.len() as int;
        match self.question {
            None => 12 + files,
            Some(Question::Overwrite) => 0,
            Some(Question::AppName) => 1,
            Some(Question::Source) => 2,
            Some(Question::DeployPath) => 3,
            Some(Question::Target) => 4,
            Some(Question::GitRepo) => 5,
            Some(Question::GitBranch) => 6,
            Some(Question::UseComposeFiles) => 7,
            Some(Question::UseRegistry) => 8,
            Some(Question::SyncEnv) => 9,
            Some(Question::SyncFile(i)) => 10 + if i < files {
                i as int
            } else {
                files
            },
            Some(Question::HealthUrl) => 11 + files,
        }
    }
}

impl WizardView {
    /// The candidates are few enough to be counted by the machine, as those
    /// of every scan are.
    pub open spec fn well_formed(self) -> bool {
        self.scan.sync_candidates.len() <= usize::MAX
    }
}

/// Every answer takes the conversation forward: a question is never asked
/// twice, and after at most twelve questions and one for each configuration
/// file that was found the conversation is over. Only declining to
/// overwrite aborts it, and an answer never changes what was scanned.
pub proof fn lemma_wizard_advances(w: WizardView, typed: Option<Seq<char>>)
    requires
        w.well_formed(),
        w.question is Some,
    ensures
        w.answered(typed).progress() > w.progress(),
        w.answered(typed).progress() <= 12 + w.scan.sync_candidates.len(),
        w.answered(typed).scan == w.scan,
        w.answered(typed).aborted ==> w.aborted || w.question == Some(Question::Overwrite),
{
}

/// The conversation after `count` questions went unanswered.
pub open spec fn after_silence(w: WizardView, count: nat) -> WizardView
    decreases count,
{
    if count == 0 {
        w
    } else {
        after_silence(w, (count - 1) as nat).answered(None)
    }
}

/// Each of the files, synced from the project directory to the deploy
/// path under its own name.
pub open spec fn all_synced(files: Seq<Seq<char>>) -> Seq<(Seq<char>, Seq<char>)> {
    Seq::new(files.len(), |i: int| ("./"@ + files[i], files[i]))
}

impl ScanView {
    /// What a run settles on in which nobody is asked: the name of the
    /// directory, the suggested source, the repository and the main branch
    /// for a deploy from git, every file that was found, no target, no
    /// registry and no health check.
    pub open spec fn defaults(self) -> ConfigView {
        let git = self.suggested_source() == "git"@;
        ConfigView {
            app_name: self.dir_name,
            target: Seq::empty(),
            deploy_path: "/opt/"@ + self.dir_name,
            source: self.suggested_source(),
            git_repo: if git {
                self.git_remote
            } else {
                None
            },
            git_branch: if git {
                Some("main"@)
            } else {
                None
            },
            compose_files: self.compose_files,
            use_registry: false,
            env_files: if self.has_env_file {
                seq![(".env"@, ".env"@)]
            } else {
                Seq::empty()
            },
            sync_files: all_synced(self.sync_candidates),
            health_url: None,
        }
    }
}

impl WizardView {
    /// What holds of a silent conversation at every point: what has been
    /// asked is settled as the defaults say, and nothing else is.
    pub open spec fn silent_so_far(self, scan: ScanView) -> bool {
        let d = scan.defaults();
        let at = self.progress();
        let files = scan.sync_candidates.len() as int;
        let git = scan.suggested_source() == "git"@;
        &&& self.scan == scan
        &&& !self.overwrite
        &&& !self.aborted
        &&& at >= 1
        &&& self.config.app_name == (if at > 1 {
            d.app_name
        } else {
            Seq::<char>::empty()
        })
        &&& self.config.source == (if at > 2 {
            d.source
        } else {
            Seq::<char>::empty()
        })
        &&& self.config.deploy_path == (if at > 3 {
            d.deploy_path
        } else {
            Seq::<char>::empty()
        })
        &&& self.config.target == Seq::<char>::empty()
        &&& (at == 5 || at == 6) ==> git
        &&& self.config.git_repo == (if at > 5 {
            d.git_repo
        } else {
            None
        })
        &&& self.config.git_branch == (if at > 6 {
            d.git_branch
        } else {
            None
        })
        &&& self.config.compose_files == (if at > 7 {
            d.compose_files
        } else {
            Seq::<Seq<char>>::empty()
        })
        &&& !self.config.use_registry
        &&& self.config.env_files == (if at > 9 {
            d.env_files
        } else {
            Seq::<(Seq<char>, Seq<char>)>::empty()
        })
        &&& self.config.sync_files == all_synced(
            scan.sync_candidates.take(
                if at <= 10 {
                    0
                } else if at - 10 <= files {
                    at - 10
                } else {
                    files
                },
            ),
        )
        &&& self.config.health_url is None
        &&& self.question matches Some(Question::SyncFile(i)) ==> i < files
        &&& self.question == Some(Question::SyncEnv) ==> scan.has_env_file
    }
}

proof fn lemma_silent_step(w: WizardView, scan: ScanView)
    requires
        w.well_formed(),
        w.silent_so_far(scan),
    ensures
        w.answered(None).silent_so_far(scan),
{
    let files = scan.sync_candidates;
    reveal_strlit("git");
    reveal_strlit("push");
    reveal_strlit("image");
    assert("git"@ != "push"@ && "git"@ != "image"@) by {
        assert("git"@.len() == 3 && "push"@.len() == 4 && "image"@.len() == 5);
    }
    assert(files.take(0) =~= Seq::<Seq<char>>::empty());
    assert(all_synced(files.take(0)) =~= Seq::<(Seq<char>, Seq<char>)>::empty());
    match w.question {
        None => {},
        Some(Question::SyncFile(i)) => {
            assert(all_synced(files.take(i + 1)) =~= all_synced(files.take(i as int)).push(
                ("./"@ + files[i as int], files[i as int]),
            ));
            assert(files.take(files.len() as int) =~= files);
        },
        Some(Question::HealthUrl) => {
            assert(files.take(files.len() as int) =~= files);
        },
        Some(_) => {
            if scan.compose_files.len() == 0 {
                assert(scan.compose_files =~= Seq::<Seq<char>>::empty());
            }
        },
    }
}

/// A run in which nobody is asked settles on the defaults: after one
/// unanswered question for each that can be asked the conversation is over,
/// it was not aborted, and the configuration is that of `defaults`.
pub proof fn lemma_silent_run(scan: ScanView, count: nat)
    requires
        scan.sync_candidates.len() <= usize::MAX,
    ensures
        ({
            let end = after_silence(WizardView::start(scan, false), count);
            &&& end.well_formed()
            &&& end.silent_so_far(scan)
            &&& end.progress() >= count + 1 || end.question is None
            &&& count >= 11 + scan.sync_candidates.len() ==> end.question is None && !end.aborted
                && end.config == scan.defaults()
        }),
    decreases count,
{
    let start = WizardView::start(scan, false);
    let files = scan.sync_candidates;
    assert(files.take(0) =~= Seq::<Seq<char>>::empty());
    assert(all_synced(files.take(0)) =~= Seq::<(Seq<char>, Seq<char>)>::empty());
    assert(files.take(files.len() as int) =~= files);
    if count > 0 {
        let before = after_silence(start, (count - 1) as nat);
        lemma_silent_run(scan, (count - 1) as nat);
        lemma_silent_step(before, scan);
        if before.question is Some {
            lemma_wizard_advances(before, None);
        }
    }
}

// ---------------------------------------------------------------------------
// The wizard
// ---------------------------------------------------------------------------

/// The launch wizard.
#[derive(Debug)]
pub struct Wizard {
    pub scan: ProjectScan,
    pub overwrite: bool,
    pub question: Option<Question>,
    pub aborted: bool,
    pub config: LaunchConfig,
}

impl View for Wizard {
    type V = WizardView;

    open spec fn view(&self) -> WizardView {
        WizardView {
            scan: scan_view(&self.scan),
            overwrite: self.overwrite,
            question: self.question,
            aborted: self.aborted,
            config: config_view(&self.config),
        }
    }
}

/// What the driver shows for a question.
#[derive(Debug)]
pub struct Prompt {
    pub question: Question,
    pub style: PromptStyle,
    /// The lines shown before the question.
    pub preamble: Vec<String>,
    pub text: String,
    /// What an empty answer stands for, for a question that shows it.
    pub default: String,
}

/// The files that were found, numbered from one.
pub open spec fn numbered(files: Seq<Seq<char>>) -> Seq<Seq<char>>
    decreases files.len(),
{
    if files.len() == 0 {
        Seq::empty()
    } else {
        numbered(files.drop_last()).push(
            "    "@ + decimal(files.len()) + ". "@ + files.last(),
        )
    }
}

impl WizardView {
    /// The lines shown before a question.
    pub open spec fn preamble_of(self, question: Question) -> Seq<Seq<char>> {
        match question {
            Question::AppName => if self.overwrite {
                seq![Seq::<char>::empty()]
            } else {
                Seq::empty()
            },
            Question::UseComposeFiles => seq![
                Seq::<char>::empty(),
                "  Found docker-compose files:"@,
            ] + numbered(self.scan.compose_files),
            Question::UseRegistry | Question::HealthUrl => seq![Seq::<char>::empty()],
            _ => Seq::empty(),
        }
    }

    /// The words of a question. `output` is the name of the description
    /// that is written.
    pub open spec fn text_of(self, question: Question, output: Seq<char>) -> Seq<char> {
        match question {
            Question::Overwrite => output + " already exists. Overwrite?"@,
            Question::AppName => "App name"@,
            Question::Source => "Deploy source (git/push/image)"@,
            Question::DeployPath => "Deploy path"@,
            Question::Target => "Target (e.g. prod.myproject, enter to skip):"@,
            Question::GitRepo => "Git repo URL"@,
            Question::GitBranch => "Git branch"@,
            Question::UseComposeFiles => "Use these compose files?"@,
            Question::UseRegistry => "Configure container registry (ghcr.io)?"@,
            Question::SyncEnv => "Sync .env to remote?"@,
            Question::SyncFile(i) => "Sync "@ + (if i < self.scan.sync_candidates.len() {
                self.scan.sync_candidates[i as int]
            } else {
                Seq::<char>::empty()
            }) + " to remote?"@,
            Question::HealthUrl => "Health check URL (enter to skip):"@,
        }
    }
}

/// The line with which a question is put: the words, and the default or
/// the choice between square brackets.
pub open spec fn line_of(style: PromptStyle, text: Seq<char>, default: Seq<char>) -> Seq<char> {
    match style {
        PromptStyle::Text => "  "@ + text + " ["@ + default + "]: "@,
        PromptStyle::Optional => "  "@ + text + " "@,
        PromptStyle::YesByDefault => "  "@ + text + " [Y/n]: "@,
        PromptStyle::NoByDefault => "  "@ + text + " [y/N]: "@,
    }
}

impl Prompt {
    /// The line with which the question is put.
    pub fn line(&self) -> (line: String)
        ensures
            line@ == line_of(self.style, self.text@, self.default@),
    {
        let mut line = "  ".to_owned();
        line.append(self.text.as_str());
        match self.style {
            PromptStyle::Text => {
                line.append(" [");
                line.append(self.default.as_str());
                line.append("]: ");
            },
            PromptStyle::Optional => {
                line.append(" ");
            },
            PromptStyle::YesByDefault => {
                line.append(" [Y/n]: ");
            },
            PromptStyle::NoByDefault => {
                line.append(" [y/N]: ");
            },
        }
        line
    }
}

fn style(question: Question) -> (s: PromptStyle)
    ensures
        s == WizardView::style_of(question),
{
    match question {
        Question::Overwrite | Question::UseRegistry => PromptStyle::NoByDefault,
        Question::UseComposeFiles | Question::SyncEnv | Question::SyncFile(_) => {
            PromptStyle::YesByDefault
        },
        Question::Target | Question::HealthUrl => PromptStyle::Optional,
        _ => PromptStyle::Text,
    }
}

fn number_files(files: &Vec<String>) -> (lines: Vec<String>)
    ensures
        views(lines@) == numbered(views(files@)),
{
    let mut lines: Vec<String> = Vec::new();
    let mut i: usize = 0;
    assert(views(lines@) =~= numbered(views(files@).take(0)));
    while i < files.len()
        invariant
            i <= files.len(),
            views(lines@) == numbered(views(files@).take(i as int)),
        decreases files.len() - i,
    {
        proof {
            let t = views(files@).take(i + 1);
            assert(t.drop_last() =~= views(files@).take(i as int));
            assert(t.last() == files@[i as int]@);
        }
        let ghost before = views(lines@);
        let mut line = "    ".to_owned();
        line.append(format_decimal_wide(i as u128 + 1).as_str());
        line.append(". ");
        line.append(files[i].as_str());
        lines.push(line);
        assert(views(lines@) =~= before.push("    "@ + decimal((i + 1) as nat) + ". "@ + files@[i as int]@));
        i += 1;
    }
    assert(views(files@).take(files.len() as int) =~= views(files@));
    lines
}

impl Wizard {
    /// A wizard for what was scanned. `output_exists` says whether the
    /// description is there already; the operator is asked before it is
    /// overwritten, unless the run is not interactive.
    pub fn new(scan: ProjectScan, output_exists: bool, interactive: bool) -> (w: Wizard)
        ensures
            w@ == WizardView::start(scan_view(&scan), output_exists && interactive),
    {
        let overwrite = output_exists && interactive;
        let w = Wizard {
            scan,
            overwrite,
            question: Some(
                if overwrite {
                    Question::Overwrite
                } else {
                    Question::AppName
                },
            ),
            aborted: false,
            config: LaunchConfig {
                app_name: String::new(),
                target: String::new(),
                deploy_path: String::new(),
                source: String::new(),
                git_repo: None,
                git_branch: None,
                compose_files: Vec::new(),
                use_registry: false,
                env_files: Vec::new(),
                sync_files: Vec::new(),
                health_url: None,
            },
        };
        assert(w@.config.compose_files =~= Seq::<Seq<char>>::empty());
        assert(w@.config.env_files =~= Seq::<(Seq<char>, Seq<char>)>::empty());
        assert(w@.config.sync_files =~= Seq::<(Seq<char>, Seq<char>)>::empty());
        w
    }

    fn default_text(&self, question: Question) -> (text: String)
        ensures
            text@ == self@.default_of(question),
    {
        match question {
            Question::AppName => self.scan.dir_name.clone(),
            Question::Source => crate::launch::suggest_source(&self.scan).to_owned(),
            Question::DeployPath => crate::launch::default_deploy_path(self.config.app_name.as_str()),
            Question::GitRepo => match &self.scan.git_remote {
                Some(remote) => remote.clone(),
                None => String::new(),
            },
            Question::GitBranch => "main".to_owned(),
            _ => String::new(),
        }
    }

    fn words(&self, question: Question, output: &str) -> (text: String)
        ensures
            text@ == self@.text_of(question, output@),
    {
        match question {
            Question::Overwrite => {
                let mut text = output.to_owned();
                text.append(" already exists. Overwrite?");
                text
            },
            Question::AppName => "App name".to_owned(),
            Question::Source => "Deploy source (git/push/image)".to_owned(),
            Question::DeployPath => "Deploy path".to_owned(),
            Question::Target => "Target (e.g. prod.myproject, enter to skip):".to_owned(),
            Question::GitRepo => "Git repo URL".to_owned(),
            Question::GitBranch => "Git branch".to_owned(),
            Question::UseComposeFiles => "Use these compose files?".to_owned(),
            Question::UseRegistry => "Configure container registry (ghcr.io)?".to_owned(),
            Question::SyncEnv => "Sync .env to remote?".to_owned(),
            Question::SyncFile(i) => {
                let mut text = "Sync ".to_owned();
                if i < self.scan.sync_candidates.len() {
                    text.append(self.scan.sync_candidates[i].as_str());
                }
                text.append(" to remote?");
                text
            },
            Question::HealthUrl => "Health check URL (enter to skip):".to_owned(),
        }
    }

    fn preamble(&self, question: Question) -> (lines: Vec<String>)
        ensures
            views(lines@) == self@.preamble_of(question),
    {
        let mut lines: Vec<String> = Vec::new();
        match question {
            Question::AppName => {
                if self.overwrite {
                    lines.push(String::new());
                }
            },
            Question::UseComposeFiles => {
                lines.push(String::new());
                lines.push("  Found docker-compose files:".to_owned());
                let ghost head = views(lines@);
                let mut files = number_files(&self.scan.compose_files);
                let ghost tail = views(files@);
                lines.append(&mut files);
                assert(views(lines@) =~= head + tail);
                assert(head =~= seq![Seq::<char>::empty(), "  Found docker-compose files:"@]);
            },
            Question::UseRegistry | Question::HealthUrl => {
                lines.push(String::new());
            },
            _ => {},
        }
        assert(views(lines@) =~= self@.preamble_of(question));
        lines
    }

    /// What the driver shows next; nothing once the conversation is over.
    pub fn prompt(&self, output: &str) -> (p: Option<Prompt>)
        ensures
            match self@.question {
                Some(question) => p matches Some(shown) && shown.question == question
                    && shown.style == WizardView::style_of(question) && views(shown.preamble@)
                    == self@.preamble_of(question) && shown.text@ == self@.text_of(
                    question,
                    output@,
                ) && shown.default@ == self@.default_of(question),
                None => p is None,
            },
    {
        match self.question {
            Some(question) => Some(
                Prompt {
                    question,
                    style: style(question),
                    preamble: self.preamble(question),
                    text: self.words(question, output),
                    default: self.default_text(question),
                },
            ),
            None => None,
        }
    }

    fn git_stage(&self) -> (q: Question)
        ensures
            q == self@.git_stage(),
    {
        if same_text(self.config.source.as_str(), "git") {
            Question::GitRepo
        } else {
            self.compose_stage()
        }
    }

    fn compose_stage(&self) -> (q: Question)
        ensures
            q == self@.compose_stage(),
    {
        if self.scan.compose_files.len() > 0 {
            Question::UseComposeFiles
        } else {
            self.registry_stage()
        }
    }

    fn registry_stage(&self) -> (q: Question)
        ensures
            q == self@.registry_stage(),
    {
        if same_text(self.config.source.as_str(), "image") {
            Question::UseRegistry
        } else {
            self.env_stage()
        }
    }

    fn env_stage(&self) -> (q: Question)
        ensures
            q == self@.env_stage(),
    {
        if self.scan.has_env_file {
            Question::SyncEnv
        } else {
            self.sync_stage(0)
        }
    }

    fn sync_stage(&self, i: usize) -> (q: Question)
        ensures
            q == self@.sync_stage(i as int),
    {
        if i < self.scan.sync_candidates.len() {
            Question::SyncFile(i)
        } else {
            Question::HealthUrl
        }
    }

    /// Takes the answer to the open question. `None` stands for a run in
    /// which nobody is asked.
    pub fn answer(&mut self, typed: &Option<String>)
        ensures
            final(self)@ == old(self)@.answered(opt_text(*typed)),
    {
        let question = match self.question {
            Some(question) => question,
            None => {
                return ;
            },
        };
        let yes = match typed {
            Some(t) => confirm(t.as_str(), true),
            None => true,
        };
        let sure = match typed {
            Some(t) => confirm(t.as_str(), false),
            None => false,
        };
        match question {
            Question::Overwrite => {
                if sure {
                    self.question = Some(Question::AppName);
                } else {
                    self.question = None;
                    self.aborted = true;
                }
            },
            Question::AppName => {
                let default = self.default_text(question);
                self.config.app_name = input_with_default(typed, default.as_str());
                self.question = Some(Question::Source);
            },
            Question::Source => {
                let default = self.default_text(question);
                self.config.source = input_with_default(typed, default.as_str());
                self.question = Some(Question::DeployPath);
            },
            Question::DeployPath => {
                let default = self.default_text(question);
                self.config.deploy_path = input_with_default(typed, default.as_str());
                self.question = Some(Question::Target);
            },
            Question::Target => {
                self.config.target = input_optional(typed);
                let next = self.git_stage();
                self.question = Some(next);
            },
            Question::GitRepo => {
                let default = self.default_text(question);
                self.config.git_repo = Some(input_with_default(typed, default.as_str()));
                self.question = Some(Question::GitBranch);
            },
            Question::GitBranch => {
                let default = self.default_text(question);
                self.config.git_branch = Some(input_with_default(typed, default.as_str()));
                let next = self.compose_stage();
                self.question = Some(next);
            },
            Question::UseComposeFiles => {
                if yes {
                    self.config.compose_files = copy_all(&self.scan.compose_files);
                } else {
                    self.config.compose_files = Vec::new();
                    assert(views(self.config.compose_files@) =~= Seq::<Seq<char>>::empty());
                }
                let next = self.registry_stage();
                self.question = Some(next);
            },
            Question::UseRegistry => {
                self.config.use_registry = sure;
                let next = self.env_stage();
                self.question = Some(next);
            },
            Question::SyncEnv => {
                let mut files: Vec<(String, String)> = Vec::new();
                if yes {
                    files.push((".env".to_owned(), ".env".to_owned()));
                    assert(pair_views(files@) =~= seq![(".env"@, ".env"@)]);
                } else {
                    assert(pair_views(files@) =~= Seq::<(Seq<char>, Seq<char>)>::empty());
                }
                self.config.env_files = files;
                let next = self.sync_stage(0);
                self.question = Some(next);
            },
            Question::SyncFile(i) => {
                if i < self.scan.sync_candidates.len() {
                    if yes {
                        let ghost before = pair_views(self.config.sync_files@);
                        let file = self.scan.sync_candidates[i].clone();
                        let mut local = "./".to_owned();
                        local.append(file.as_str());
                        self.config.sync_files.push((local, file));
                        assert(pair_views(self.config.sync_files@) =~= before.push(
                            ("./"@ + old(self).scan.sync_candidates@[i as int]@, old(
                                self,
                            ).scan.sync_candidates@[i as int]@),
                        ));
                    }
                    let next = self.sync_stage(i + 1);
                    self.question = Some(next);
                } else {
                    self.question = Some(Question::HealthUrl);
                }
            },
            Question::HealthUrl => {
                let url = input_optional(typed);
                if url.as_str().unicode_len() == 0 {
                    self.config.health_url = None;
                } else {
                    self.config.health_url = Some(url);
                }
                self.question = None;
            },
        }
    }

    /// Whether the conversation is over.
    pub fn finished(&self) -> (r: bool)
        ensures
            r == self@.question is None,
    {
        self.question.is_none()
    }

    /// What the operator settled on, once the conversation is over; nothing
    /// where it was aborted or is still going on.
    pub fn finish(self) -> (cfg: Option<LaunchConfig>)
        ensures
            match cfg {
                Some(c) => self@.question is None && !self@.aborted && config_view(&c)
                    == self@.config,
                None => self@.question is Some || self@.aborted,
            },
    {
        if self.question.is_none() && !self.aborted {
            Some(self.config)
        } else {
            None
        }
    }
}

} // verus!
