//! Custom domains: which application of which project a domain command
//! addresses, and what has to change for the control plane to hold the
//! domains that the description declares.

use crate::config::AppDef;
use crate::remote::{app_position, find_app};
use crate::text::{
    contains_text, copy_all, decimal, format_decimal, has_substring, join, joined, lowercase_of,
    opt_text, same_text, trim, trimmed, views,
};
use vstd::prelude::*;

verus! {

/// What a description declares about its project, its applications and
/// their domains. A description in the old form names one application at
/// the top and lists its domains there.
#[derive(Debug)]
pub struct Declared {
    pub project: Option<String>,
    pub app: Option<String>,
    pub domains: Vec<String>,
    pub apps: Vec<AppDef>,
}

/// Why the application of a domain command cannot be told.
#[derive(Debug)]
pub enum DomainError {
    /// The description names neither a project nor an application.
    MissingProject,
    /// The application asked for is not among the declared ones.
    AppNotFound { name: String, available: String },
    /// No application is declared and none was asked for.
    NoApps,
    /// Several applications are declared and none was asked for.
    MultipleApps { available: String },
}

pub enum DomainErrorView {
    MissingProject,
    AppNotFound { name: Seq<char>, available: Seq<char> },
    NoApps,
    MultipleApps { available: Seq<char> },
}

impl View for DomainError {
    type V = DomainErrorView;

    open spec fn view(&self) -> DomainErrorView {
        match self {
            DomainError::MissingProject => DomainErrorView::MissingProject,
            DomainError::AppNotFound { name, available } => DomainErrorView::AppNotFound {
                name: name@,
                available: available@,
            },
            DomainError::NoApps => DomainErrorView::NoApps,
            DomainError::MultipleApps { available } => DomainErrorView::MultipleApps {
                available: available@,
            },
        }
    }
}

impl DomainErrorView {
    pub open spec fn message(self) -> Seq<char> {
        match self {
            DomainErrorView::MissingProject => "ops.toml must have 'project' or 'app'"@,
            DomainErrorView::AppNotFound { name, available } => "App '"@ + name
                + "' not found in [[apps]]. Available: "@ + available,
            DomainErrorView::NoApps =>
                "No [[apps]] defined in ops.toml. Use --app to specify the app name."@,
            DomainErrorView::MultipleApps { available } =>
                "Multiple apps in ops.toml. Use --app to specify which one.\nAvailable: "@
                    + available,
        }
    }
}

impl DomainError {
    pub fn message(&self) -> (m: String)
        ensures
            m@ == self@.message(),
    {
        match self {
            DomainError::MissingProject => "ops.toml must have 'project' or 'app'".to_owned(),
            DomainError::AppNotFound { name, available } => {
                let mut m = "App '".to_owned();
                m.append(name.as_str());
                m.append("' not found in [[apps]]. Available: ");
                m.append(available.as_str());
                m
            },
            DomainError::NoApps => {
                "No [[apps]] defined in ops.toml. Use --app to specify the app name.".to_owned()
            },
            DomainError::MultipleApps { available } => {
                let mut m = "Multiple apps in ops.toml. Use --app to specify which one.\nAvailable: ".to_owned();
                m.append(available.as_str());
                m
            },
        }
    }
}

/// The names of the applications, in order.
pub open spec fn names_of(apps: Seq<AppDef>) -> Seq<Seq<char>> {
    Seq::new(apps.len(), |i: int| apps[i].name@)
}

/// The names of the applications, separated by commas.
pub open spec fn available_of(apps: Seq<AppDef>) -> Seq<char> {
    joined(names_of(apps), ", "@)
}

pub fn available_apps(apps: &Vec<AppDef>) -> (text: String)
    ensures
        text@ == available_of(apps@),
{
    let mut names: Vec<String> = Vec::new();
    let mut i: usize = 0;
    while i < apps.len()
        invariant
            i <= apps.len(),
            names.len() == i,
            forall|j: int| 0 <= j < i ==> names@[j]@ == apps@[j].name@,
        decreases apps.len() - i,
    {
        names.push(apps[i].name.clone());
        i += 1;
    }
    assert(views(names@) =~= names_of(apps@));
    join(&names, ", ")
}

/// The project of a description: the declared one, or, in the old form, the
/// application where no project is declared.
pub open spec fn project_of(d: &Declared) -> Option<Seq<char>> {
    match d.app {
        Some(app) => Some(
            match d.project {
                Some(p) => p@,
                None => app@,
            },
        ),
        None => opt_text(d.project),
    }
}

/// The project and application that a domain command addresses. In the old
/// form it is the application at the top. Otherwise it is the application
/// asked for, which must be declared if any is; or the only declared one.
pub open spec fn project_app_of(d: &Declared, app_flag: Option<Seq<char>>) -> Result<
    (Seq<char>, Seq<char>),
    DomainErrorView,
> {
    match d.app {
        Some(app) => Ok((project_of(d)->0, app@)),
        None => match d.project {
            None => Err(DomainErrorView::MissingProject),
            Some(project) => match app_flag {
                Some(name) => if d.apps@.len() > 0 && app_position(d.apps@, name)
                    >= d.apps@.len() {
                    Err(DomainErrorView::AppNotFound { name, available: available_of(d.apps@) })
                } else {
                    Ok((project@, name))
                },
                None => if d.apps@.len() == 1 {
                    Ok((project@, d.apps@[0].name@))
                } else if d.apps@.len() == 0 {
                    Err(DomainErrorView::NoApps)
                } else {
                    Err(DomainErrorView::MultipleApps { available: available_of(d.apps@) })
                },
            },
        },
    }
}

pub fn resolve_project_app(d: &Declared, app_flag: Option<&str>) -> (r: Result<
    (String, String),
    DomainError,
>)
    ensures
        match project_app_of(
            d,
            match app_flag {
                Some(name) => Some(name@),
                None => None,
            },
        ) {
            Ok(pair) => r matches Ok(found) && found.0@ == pair.0 && found.1@ == pair.1,
            Err(e) => r matches Err(err) && err@ == e,
        },
{
    match &d.app {
        Some(app) => {
            let project = match &d.project {
                Some(p) => p.clone(),
                None => app.clone(),
            };
            return Ok((project, app.clone()));
        },
        None => {},
    }
    let project = match &d.project {
        Some(p) => p,
        None => {
            return Err(DomainError::MissingProject);
        },
    };
    match app_flag {
        Some(name) => {
            if d.apps.len() > 0 && find_app(&d.apps, name) >= d.apps.len() {
                return Err(
                    DomainError::AppNotFound {
                        name: name.to_owned(),
                        available: available_apps(&d.apps),
                    },
                );
            }
            Ok((project.clone(), name.to_owned()))
        },
        None => {
            if d.apps.len() == 1 {
                Ok((project.clone(), d.apps[0].name.clone()))
            } else if d.apps.len() == 0 {
                Err(DomainError::NoApps)
            } else {
                Err(DomainError::MultipleApps { available: available_apps(&d.apps) })
            }
        },
    }
}

/// The domains to keep in sync for one application of one project.
#[derive(Debug)]
pub struct SyncTarget {
    pub project: String,
    pub app: String,
    pub domains: Vec<String>,
}

pub struct SyncTargetView {
    pub project: Seq<char>,
    pub app: Seq<char>,
    pub domains: Seq<Seq<char>>,
}

impl View for SyncTarget {
    type V = SyncTargetView;

    open spec fn view(&self) -> SyncTargetView {
        SyncTargetView { project: self.project@, app: self.app@, domains: views(self.domains@) }
    }
}

impl DeepView for SyncTarget {
    type V = SyncTargetView;

    open spec fn deep_view(&self) -> SyncTargetView {
        self.view()
    }
}

/// The sync targets of the applications that declare domains, in order.
pub open spec fn app_sync_targets(project: Seq<char>, apps: Seq<AppDef>) -> Seq<SyncTargetView>
    decreases apps.len(),
{
    if apps.len() == 0 {
        Seq::empty()
    } else {
        let before = app_sync_targets(project, apps.drop_last());
        let app = apps.last();
        if app.domains@.len() > 0 {
            before.push(
                SyncTargetView { project, app: app.name@, domains: views(app.domains@) },
            )
        } else {
            before
        }
    }
}

/// What is to be synced. In the old form, the domains at the top, for the
/// application at the top. Otherwise the domains of the application asked
/// for, which must be declared, or of every application. An application
/// without domains is left out.
pub open spec fn sync_targets_of(d: &Declared, app_flag: Option<Seq<char>>) -> Result<
    Seq<SyncTargetView>,
    DomainErrorView,
> {
    match d.app {
        Some(app) => Ok(
            if d.domains@.len() > 0 {
                seq![
                    SyncTargetView {
                        project: project_of(d)->0,
                        app: app@,
                        domains: views(d.domains@),
                    },
                ]
            } else {
                Seq::empty()
            },
        ),
        None => match d.project {
            None => Err(DomainErrorView::MissingProject),
            Some(project) => match app_flag {
                Some(name) => {
                    let i = app_position(d.apps@, name);
                    if i >= d.apps@.len() {
                        Err(
                            DomainErrorView::AppNotFound {
                                name,
                                available: available_of(d.apps@),
                            },
                        )
                    } else {
                        Ok(app_sync_targets(project@, seq![d.apps@[i]]))
                    }
                },
                None => Ok(app_sync_targets(project@, d.apps@)),
            },
        },
    }
}

fn sync_target_of(project: &String, app: &AppDef) -> (t: SyncTarget)
    ensures
        t@ == (SyncTargetView { project: project@, app: app.name@, domains: views(app.domains@) }),
{
    SyncTarget { project: project.clone(), app: app.name.clone(), domains: copy_all(&app.domains) }
}

pub fn build_sync_targets(d: &Declared, app_flag: Option<&str>) -> (r: Result<
    Vec<SyncTarget>,
    DomainError,
>)
    ensures
        match sync_targets_of(
            d,
            match app_flag {
                Some(name) => Some(name@),
                None => None,
            },
        ) {
            Ok(targets) => r matches Ok(found) && found.deep_view() == targets,
            Err(e) => r matches Err(err) && err@ == e,
        },
{
    let mut targets: Vec<SyncTarget> = Vec::new();
    match &d.app {
        Some(app) => {
            if d.domains.len() > 0 {
                let project = match &d.project {
                    Some(p) => p.clone(),
                    None => app.clone(),
                };
                targets.push(
                    SyncTarget { project, app: app.clone(), domains: copy_all(&d.domains) },
                );
                assert(targets.deep_view() =~= seq![
                    SyncTargetView {
                        project: project_of(d)->0,
                        app: app@,
                        domains: views(d.domains@),
                    },
                ]);
            } else {
                assert(targets.deep_view() =~= Seq::<SyncTargetView>::empty());
            }
            return Ok(targets);
        },
        None => {},
    }
    let project = match &d.project {
        Some(p) => p,
        None => {
            return Err(DomainError::MissingProject);
        },
    };
    match app_flag {
        Some(name) => {
            let i = find_app(&d.apps, name);
            if i >= d.apps.len() {
                return Err(
                    DomainError::AppNotFound {
                        name: name.to_owned(),
                        available: available_apps(&d.apps),
                    },
                );
            }
            let ghost one = seq![d.apps@[i as int]];
            assert(one.drop_last() =~= Seq::<AppDef>::empty());
            assert(app_sync_targets(project@, Seq::<AppDef>::empty()) =~= Seq::<
                SyncTargetView,
            >::empty());
            assert(one.last() == d.apps@[i as int]);
            if d.apps[i].domains.len() > 0 {
                targets.push(sync_target_of(project, &d.apps[i]));
            }
            assert(targets.deep_view() =~= app_sync_targets(project@, one));
            Ok(targets)
        },
        None => {
            let mut i: usize = 0;
            while i < d.apps.len()
                invariant
                    i <= d.apps.len(),
                    targets.deep_view() == app_sync_targets(project@, d.apps@.take(i as int)),
                decreases d.apps.len() - i,
            {
                proof {
                    let t = d.apps@.take(i + 1);
                    assert(t.drop_last() =~= d.apps@.take(i as int));
                    assert(t.last() == d.apps@[i as int]);
                }
                if d.apps[i].domains.len() > 0 {
                    let ghost before = targets.deep_view();
                    targets.push(sync_target_of(project, &d.apps[i]));
                    assert(targets.deep_view() =~= before.push(
                        SyncTargetView {
                            project: project@,
                            app: d.apps@[i as int].name@,
                            domains: views(d.apps@[i as int].domains@),
                        },
                    ));
                }
                i += 1;
            }
            assert(d.apps@.take(d.apps.len() as int) =~= d.apps@);
            Ok(targets)
        },
    }
}

// ---------------------------------------------------------------------------
// Desired against existing
// ---------------------------------------------------------------------------

/// The names of `wanted` that are not in `have`, each once, in the order of
/// their first occurrence.
pub open spec fn missing_of(wanted: Seq<Seq<char>>, have: Seq<Seq<char>>) -> Seq<Seq<char>>
    decreases wanted.len(),
{
    if wanted.len() == 0 {
        Seq::empty()
    } else {
        let before = missing_of(wanted.drop_last(), have);
        let name = wanted.last();
        if have.contains(name) || wanted.drop_last().contains(name) {
            before
        } else {
            before.push(name)
        }
    }
}

fn holds(names: &Vec<String>, upto: usize, name: &str) -> (r: bool)
    requires
        upto <= names.len(),
    ensures
        r == views(names@).take(upto as int).contains(name@),
{
    let mut i: usize = 0;
    while i < upto
        invariant
            i <= upto <= names.len(),
            forall|j: int| 0 <= j < i ==> views(names@)[j] != name@,
        decreases upto - i,
    {
        if same_text(names[i].as_str(), name) {
            assert(views(names@).take(upto as int)[i as int] == name@);
            return true;
        }
        i += 1;
    }
    false
}

/// What `wanted` names and `have` lacks. With the declared domains as
/// `wanted` and the existing ones as `have` this is what to add; the other
/// way round it is what to remove.
pub fn missing_from(wanted: &Vec<String>, have: &Vec<String>) -> (missing: Vec<String>)
    ensures
        views(missing@) == missing_of(views(wanted@), views(have@)),
{
    let mut missing: Vec<String> = Vec::new();
    let mut i: usize = 0;
    while i < wanted.len()
        invariant
            i <= wanted.len(),
            views(missing@) == missing_of(views(wanted@).take(i as int), views(have@)),
        decreases wanted.len() - i,
    {
        proof {
            let t = views(wanted@).take(i + 1);
            assert(t.drop_last() =~= views(wanted@).take(i as int));
            assert(t.last() == wanted@[i as int]@);
            assert(views(have@).take(have.len() as int) =~= views(have@));
        }
        let name = wanted[i].as_str();
        if !holds(have, have.len(), name) && !holds(wanted, i, name) {
            let ghost before = views(missing@);
            missing.push(wanted[i].clone());
            assert(views(missing@) =~= before.push(wanted@[i as int]@));
        }
        i += 1;
    }
    assert(views(wanted@).take(wanted.len() as int) =~= views(wanted@));
    missing
}

/// Whether the refusal of an addition only says that the domain is there
/// already, which is no error of the sync.
pub fn is_duplicate_refusal(message: &str) -> (r: bool)
    ensures
        r == (has_substring(message@, "already exists"@) || has_substring(message@, "UNIQUE"@)),
{
    contains_text(message, "already exists") || contains_text(message, "UNIQUE")
}

/// Whether an application needs nothing: no domain to add and none to
/// remove.
pub fn in_sync(to_add: &Vec<String>, to_remove: &Vec<String>) -> (r: bool)
    ensures
        r == (to_add@.len() == 0 && to_remove@.len() == 0),
{
    to_add.len() == 0 && to_remove.len() == 0
}

/// What is done about the domains that the control plane holds and the
/// description does not declare.
#[derive(Debug, Clone, Copy, PartialEq, Eq, Structural)]
pub enum Pruning {
    /// There are none.
    Nothing,
    /// Name them, and say how to have them removed.
    Report,
    /// Name them, and ask before they are removed.
    Ask,
    /// Remove them.
    Remove,
}

/// Extra domains are removed only where pruning was asked for, and then
/// only with the consent of the operator, unless it was given beforehand.
pub open spec fn pruning_of(extra: nat, prune: bool, yes: bool) -> Pruning {
    if extra == 0 {
        Pruning::Nothing
    } else if !prune {
        Pruning::Report
    } else if !yes {
        Pruning::Ask
    } else {
        Pruning::Remove
    }
}

pub fn pruning(extra: usize, prune: bool, yes: bool) -> (r: Pruning)
    ensures
        r == pruning_of(extra as nat, prune, yes),
{
    if extra == 0 {
        Pruning::Nothing
    } else if !prune {
        Pruning::Report
    } else if !yes {
        Pruning::Ask
    } else {
        Pruning::Remove
    }
}

/// Whether the operator consents to a removal: only a single `y`, in
/// either letter case, does.
pub fn prune_confirmed(answer: &str) -> (r: bool)
    ensures
        r == (lowercase_of(trimmed(answer@)) == "y"@),
{
    let word = trim(answer).as_str().to_lowercase();
    same_text(word.as_str(), "y")
}

/// What happened to one domain.
#[derive(Debug, Clone, Copy, PartialEq, Eq, Structural)]
pub enum SyncEvent {
    Added,
    /// The addition was refused because the domain is there already.
    Duplicate,
    Removed,
    Failed,
}

/// What the outcome of an addition counts as: `refusal` is the error with
/// which it was refused, if it was.
pub open spec fn addition_of(refusal: Option<Seq<char>>) -> SyncEvent {
    match refusal {
        None => SyncEvent::Added,
        Some(message) => if has_substring(message, "already exists"@) || has_substring(
            message,
            "UNIQUE"@,
        ) {
            SyncEvent::Duplicate
        } else {
            SyncEvent::Failed
        },
    }
}

pub fn addition(refusal: &Option<String>) -> (event: SyncEvent)
    ensures
        event == addition_of(opt_text(*refusal)),
{
    match refusal {
        None => SyncEvent::Added,
        Some(message) => {
            if is_duplicate_refusal(message.as_str()) {
                SyncEvent::Duplicate
            } else {
                SyncEvent::Failed
            }
        },
    }
}

/// The tally of a sync.
#[derive(Debug, Clone, Copy, PartialEq, Eq, Structural)]
pub struct SyncTally {
    pub added: u32,
    pub removed: u32,
    pub errors: u32,
}

/// One more, as far as the counter goes.
pub open spec fn one_more(count: u32) -> u32 {
    if count < u32::MAX {
        (count + 1) as u32
    } else {
        count
    }
}

fn bump(count: u32) -> (r: u32)
    ensures
        r == one_more(count),
{
    if count < u32::MAX {
        count + 1
    } else {
        count
    }
}

impl SyncTally {
    /// The tally after an event. A duplicate counts as nothing.
    pub open spec fn after(self, event: SyncEvent) -> SyncTally {
        match event {
            SyncEvent::Added => SyncTally { added: one_more(self.added), ..self },
            SyncEvent::Removed => SyncTally { removed: one_more(self.removed), ..self },
            SyncEvent::Failed => SyncTally { errors: one_more(self.errors), ..self },
            SyncEvent::Duplicate => self,
        }
    }

    /// The tally of a sync in which nothing has happened.
    pub fn new() -> (t: SyncTally)
        ensures
            t == (SyncTally { added: 0, removed: 0, errors: 0 }),
    {
        SyncTally { added: 0, removed: 0, errors: 0 }
    }

    /// Counts an event.
    pub fn record(&mut self, event: SyncEvent)
        ensures
            *final(self) == old(self).after(event),
    {
        match event {
            SyncEvent::Added => {
                self.added = bump(self.added);
            },
            SyncEvent::Removed => {
                self.removed = bump(self.removed);
            },
            SyncEvent::Failed => {
                self.errors = bump(self.errors);
            },
            SyncEvent::Duplicate => {},
        }
    }

    /// The closing line of a sync.
    pub open spec fn summary_text(self) -> Seq<char> {
        "Domain sync complete: "@ + decimal(self.added as nat) + " added, "@ + decimal(
            self.removed as nat,
        ) + " removed, "@ + decimal(self.errors as nat) + " errors"@
    }

    pub fn summary(&self) -> (line: String)
        ensures
            line@ == self.summary_text(),
    {
        let mut line = "Domain sync complete: ".to_owned();
        line.append(format_decimal(self.added as u64).as_str());
        line.append(" added, ");
        line.append(format_decimal(self.removed as u64).as_str());
        line.append(" removed, ");
        line.append(format_decimal(self.errors as u64).as_str());
        line.append(" errors");
        line
    }

    /// The error of a sync in which operations failed; none where none did.
    pub fn failure(&self) -> (r: Option<String>)
        ensures
            match r {
                Some(text) => self.errors > 0 && text@ == decimal(self.errors as nat)
                    + " domain operation(s) failed"@,
                None => self.errors == 0,
            },
    {
        if self.errors > 0 {
            let mut text = format_decimal(self.errors as u64);
            text.append(" domain operation(s) failed");
            Some(text)
        } else {
            None
        }
    }
}

} // verus!
