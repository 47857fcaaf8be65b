//! Node initialisation: the region of the node, and the files that make the
//! node daemon a service behind the edge proxy.

use crate::output::{Kind, Message, MessageView};
use crate::scanner::Snapshot;
use crate::text::{
    contains_text, decimal, eq_ignore_ascii_case, format_decimal, from_chars_range, has_prefix,
    has_substring, opt_text, prefix_at, same_ignoring_ascii_case, same_text, to_chars, trim,
    trimmed, views,
};
use vstd::prelude::*;

verus! {

/// The region of a city of the Americas.
pub open spec fn american_region(city: Seq<char>) -> Seq<char> {
    if city == "New_York"@ || city == "Toronto"@ || city == "Montreal"@ || city == "Detroit"@
        || city == "Atlanta"@ || city == "Miami"@ || city == "Boston"@ || city == "Philadelphia"@ {
        "us-east"@
    } else if city == "Chicago"@ || city == "Denver"@ || city == "Dallas"@ || city == "Houston"@
        || city == "Winnipeg"@ || city == "Mexico_City"@ {
        "us-central"@
    } else if city == "Los_Angeles"@ || city == "Vancouver"@ || city == "Seattle"@ || city
        == "Phoenix"@ || city == "San_Francisco"@ {
        "us-west"@
    } else if city == "Sao_Paulo"@ || city == "Buenos_Aires"@ || city == "Santiago"@ || city
        == "Bogota"@ || city == "Lima"@ {
        "sa-east"@
    } else {
        "us-east"@
    }
}

/// The region of a city of Europe.
pub open spec fn european_region(city: Seq<char>) -> Seq<char> {
    if city == "London"@ || city == "Dublin"@ || city == "Lisbon"@ {
        "eu-west"@
    } else {
        "eu-central"@
    }
}

/// The region of a city of Asia.
pub open spec fn asian_region(city: Seq<char>) -> Seq<char> {
    if city == "Tokyo"@ || city == "Seoul"@ {
        "ap-northeast"@
    } else if city == "Shanghai"@ || city == "Hong_Kong"@ || city == "Taipei"@ || city
        == "Chongqing"@ {
        "ap-east"@
    } else if city == "Singapore"@ || city == "Jakarta"@ || city == "Bangkok"@ || city
        == "Ho_Chi_Minh"@ || city == "Kuala_Lumpur"@ || city == "Manila"@ {
        "ap-southeast"@
    } else if city == "Mumbai"@ || city == "Kolkata"@ || city == "Colombo"@ || city == "Karachi"@ {
        "ap-south"@
    } else if city == "Dubai"@ || city == "Riyadh"@ || city == "Baghdad"@ || city == "Tehran"@ {
        "me-south"@
    } else {
        "ap-southeast"@
    }
}

/// The region of a time zone, by its continent and city; `None` for a zone
/// of no known continent.
pub open spec fn region_of(tz: Seq<char>) -> Option<Seq<char>> {
    if has_prefix(tz, "America/"@) {
        Some(american_region(tz.skip("America/"@.len() as int)))
    } else if has_prefix(tz, "Europe/"@) {
        Some(european_region(tz.skip("Europe/"@.len() as int)))
    } else if has_prefix(tz, "Asia/"@) {
        Some(asian_region(tz.skip("Asia/"@.len() as int)))
    } else if has_prefix(tz, "Australia/"@) || has_prefix(tz, "Pacific/Auckland"@) {
        Some("ap-southeast"@)
    } else if has_prefix(tz, "Africa/"@) {
        Some("af-south"@)
    } else {
        None
    }
}

fn american(city: &str) -> (region: &'static str)
    ensures
        region@ == american_region(city@),
{
    if same_text(city, "New_York") || same_text(city, "Toronto") || same_text(city, "Montreal")
        || same_text(city, "Detroit") || same_text(city, "Atlanta") || same_text(city, "Miami")
        || same_text(city, "Boston") || same_text(city, "Philadelphia") {
        "us-east"
    } else if same_text(city, "Chicago") || same_text(city, "Denver") || same_text(city, "Dallas")
        || same_text(city, "Houston") || same_text(city, "Winnipeg") || same_text(
        city,
        "Mexico_City",
    ) {
        "us-central"
    } else if same_text(city, "Los_Angeles") || same_text(city, "Vancouver") || same_text(
        city,
        "Seattle",
    ) || same_text(city, "Phoenix") || same_text(city, "San_Francisco") {
        "us-west"
    } else if same_text(city, "Sao_Paulo") || same_text(city, "Buenos_Aires") || same_text(
        city,
        "Santiago",
    ) || same_text(city, "Bogota") || same_text(city, "Lima") {
        "sa-east"
    } else {
        "us-east"
    }
}

fn european(city: &str) -> (region: &'static str)
    ensures
        region@ == european_region(city@),
{
    if same_text(city, "London") || same_text(city, "Dublin") || same_text(city, "Lisbon") {
        "eu-west"
    } else {
        "eu-central"
    }
}

fn asian(city: &str) -> (region: &'static str)
    ensures
        region@ == asian_region(city@),
{
    if same_text(city, "Tokyo") || same_text(city, "Seoul") {
        "ap-northeast"
    } else if same_text(city, "Shanghai") || same_text(city, "Hong_Kong") || same_text(
        city,
        "Taipei",
    ) || same_text(city, "Chongqing") {
        "ap-east"
    } else if same_text(city, "Singapore") || same_text(city, "Jakarta") || same_text(
        city,
        "Bangkok",
    ) || same_text(city, "Ho_Chi_Minh") || same_text(city, "Kuala_Lumpur") || same_text(
        city,
        "Manila",
    ) {
        "ap-southeast"
    } else if same_text(city, "Mumbai") || same_text(city, "Kolkata") || same_text(city, "Colombo")
        || same_text(city, "Karachi") {
        "ap-south"
    } else if same_text(city, "Dubai") || same_text(city, "Riyadh") || same_text(city, "Baghdad")
        || same_text(city, "Tehran") {
        "me-south"
    } else {
        "ap-southeast"
    }
}

/// What follows the prefix of `len` characters, where `v` has it.
fn after_prefix(v: &Vec<char>, prefix: &str) -> (rest: Option<String>)
    ensures
        match rest {
            Some(text) => has_prefix(v@, prefix@) && text@ == v@.skip(prefix@.len() as int),
            None => !has_prefix(v@, prefix@),
        },
{
    let p = to_chars(prefix);
    assert(v@.skip(0) =~= v@);
    if prefix_at(v, 0, &p) {
        assert(v@.subrange(p.len() as int, v.len() as int) =~= v@.skip(p.len() as int));
        Some(from_chars_range(v, p.len(), v.len()))
    } else {
        None
    }
}

/// Maps a time zone to a region.
pub fn timezone_to_region(tz: &str) -> (region: Option<String>)
    ensures
        opt_text(region) == region_of(tz@),
{
    let v = to_chars(tz);
    match after_prefix(&v, "America/") {
        Some(city) => {
            return Some(american(city.as_str()).to_owned());
        },
        None => {},
    }
    match after_prefix(&v, "Europe/") {
        Some(city) => {
            return Some(european(city.as_str()).to_owned());
        },
        None => {},
    }
    match after_prefix(&v, "Asia/") {
        Some(city) => {
            return Some(asian(city.as_str()).to_owned());
        },
        None => {},
    }
    if after_prefix(&v, "Australia/").is_some() || after_prefix(&v, "Pacific/Auckland").is_some() {
        return Some("ap-southeast".to_owned());
    }
    if after_prefix(&v, "Africa/").is_some() {
        return Some("af-south".to_owned());
    }
    None
}

/// The label shown with a detected region: the city, or the time zone where
/// the city is not known.
pub fn region_label(city: &str, timezone: &str) -> (label: String)
    ensures
        label@ == (if city@.len() == 0 {
            timezone@
        } else {
            city@
        }),
{
    if city.unicode_len() == 0 {
        timezone.to_owned()
    } else {
        city.to_owned()
    }
}

/// The region of a node after the operator was asked. A detected region is
/// taken on an empty answer or a yes, dropped on a no, and replaced by
/// anything else that was typed. Without a detected region, what was typed
/// is the region, if anything was. `None` as the answer stands for a run
/// that is not interactive, which takes what was detected.
pub open spec fn confirmed_region(detected: Option<Seq<char>>, answer: Option<Seq<char>>) -> Option<
    Seq<char>,
> {
    match answer {
        None => detected,
        Some(text) => {
            let typed = trimmed(text);
            match detected {
                Some(region) => if typed.len() == 0 || same_ignoring_ascii_case(typed, "y"@)
                    || same_ignoring_ascii_case(typed, "yes"@) {
                    Some(region)
                } else if same_ignoring_ascii_case(typed, "n"@) || same_ignoring_ascii_case(
                    typed,
                    "no"@,
                ) {
                    None
                } else {
                    Some(typed)
                },
                None => if typed.len() == 0 {
                    None
                } else {
                    Some(typed)
                },
            }
        },
    }
}

pub fn confirm_region(detected: Option<String>, answer: &Option<String>) -> (region: Option<String>)
    ensures
        opt_text(region) == confirmed_region(opt_text(detected), opt_text(*answer)),
{
    match answer {
        None => detected,
        Some(text) => {
            let typed = trim(text.as_str());
            let empty = typed.as_str().unicode_len() == 0;
            match detected {
                Some(region) => {
                    if empty || eq_ignore_ascii_case(typed.as_str(), "y") || eq_ignore_ascii_case(
                        typed.as_str(),
                        "yes",
                    ) {
                        Some(region)
                    } else if eq_ignore_ascii_case(typed.as_str(), "n") || eq_ignore_ascii_case(
                        typed.as_str(),
                        "no",
                    ) {
                        None
                    } else {
                        Some(typed)
                    }
                },
                None => {
                    if empty {
                        None
                    } else {
                        Some(typed)
                    }
                },
            }
        },
    }
}

/// The unit that runs the node daemon as a service.
pub open spec fn service_unit_of(
    node_id: nat,
    token: Seq<char>,
    port: nat,
    compose_dir: Seq<char>,
) -> Seq<char> {
    "[Unit]\nDescription=OPS Serve - Node "@ + decimal(node_id)
        + "\nAfter=network.target docker.service\nRequires=docker.service\n\n[Service]\nType=simple\nExecStart=/usr/local/bin/ops serve --token "@
        + token + " --port "@ + decimal(port) + " --compose-dir "@ + compose_dir
        + "\nRestart=always\nRestartSec=5\nEnvironment=RUST_LOG=info\n\n[Install]\nWantedBy=multi-user.target\n"@
}

pub fn service_unit(node_id: u64, token: &str, port: u16, compose_dir: &str) -> (unit: String)
    ensures
        unit@ == service_unit_of(node_id as nat, token@, port as nat, compose_dir@),
{
    let mut unit = "[Unit]\nDescription=OPS Serve - Node ".to_owned();
    unit.append(format_decimal(node_id).as_str());
    unit.append(
        "\nAfter=network.target docker.service\nRequires=docker.service\n\n[Service]\nType=simple\nExecStart=/usr/local/bin/ops serve --token ",
    );
    unit.append(token);
    unit.append(" --port ");
    unit.append(format_decimal(port as u64).as_str());
    unit.append(" --compose-dir ");
    unit.append(compose_dir);
    unit.append(
        "\nRestart=always\nRestartSec=5\nEnvironment=RUST_LOG=info\n\n[Install]\nWantedBy=multi-user.target\n",
    );
    unit
}

/// The proxy configuration of a node: the routing fragments first, the node
/// daemon as the fallback.
pub open spec fn caddyfile_of(port: nat) -> Seq<char> {
    ":80 {\n    import /etc/caddy/routes.d/*.caddy\n\n    # Fallback: ops-serve daemon\n    reverse_proxy 127.0.0.1:"@
        + decimal(port) + "\n}\n"@
}

pub fn caddyfile(port: u16) -> (text: String)
    ensures
        text@ == caddyfile_of(port as nat),
{
    let mut text = ":80 {\n    import /etc/caddy/routes.d/*.caddy\n\n    # Fallback: ops-serve daemon\n    reverse_proxy 127.0.0.1:".to_owned();
    text.append(format_decimal(port as u64).as_str());
    text.append("\n}\n");
    text
}

// ---------------------------------------------------------------------------
// What an earlier installation left behind
// ---------------------------------------------------------------------------

/// Whether `s` ends with `suffix`.
pub open spec fn has_suffix(s: Seq<char>, suffix: Seq<char>) -> bool {
    suffix.len() <= s.len() && s.skip(s.len() - suffix.len()) == suffix
}

pub fn ends_with(s: &str, suffix: &str) -> (r: bool)
    ensures
        r == has_suffix(s@, suffix@),
{
    let v = to_chars(s);
    let p = to_chars(suffix);
    if p.len() > v.len() {
        return false;
    }
    let at = v.len() - p.len();
    let r = prefix_at(&v, at, &p);
    proof {
        assert(v@.skip(at as int).take(p.len() as int) =~= v@.skip(at as int));
    }
    r
}

/// Whether a proxy configuration file is one that an earlier installation
/// wrote for a node.
pub fn is_node_site(name: &str) -> (r: bool)
    ensures
        r == has_suffix(name@, ".node.ops.autos"@),
{
    ends_with(name, ".node.ops.autos")
}

/// Whether a file is a routing fragment.
pub fn is_route_fragment(name: &str) -> (r: bool)
    ensures
        r == has_suffix(name@, ".caddy"@),
{
    ends_with(name, ".caddy")
}

/// The certificates that an earlier installation may have left.
pub open spec fn old_certificates_of() -> Seq<Seq<char>> {
    seq![
        "/etc/ssl/certs/ops-serve.crt"@,
        "/etc/ssl/private/ops-serve.key"@,
        "/etc/nginx/ssl/ops-serve.crt"@,
        "/etc/nginx/ssl/ops-serve.key"@,
    ]
}

pub fn old_certificates() -> (paths: Vec<String>)
    ensures
        views(paths@) == old_certificates_of(),
{
    let paths = crate::text::owned(
        &vec![
            "/etc/ssl/certs/ops-serve.crt",
            "/etc/ssl/private/ops-serve.key",
            "/etc/nginx/ssl/ops-serve.crt",
            "/etc/nginx/ssl/ops-serve.key",
        ],
    );
    assert(views(paths@) =~= old_certificates_of());
    paths
}

/// What is found on a node before it is initialised.
#[derive(Debug)]
pub struct Residue {
    /// The unit file of the node daemon is there.
    pub service: bool,
    /// The names in the directory of the available proxy sites.
    pub sites: Vec<String>,
    /// The paths, among those of old certificates, at which a file is.
    pub certificates: Vec<String>,
    /// The names in the directory of the routing fragments.
    pub fragments: Vec<String>,
}

/// One step of a clean-up.
#[derive(Debug)]
pub enum CleanupStep {
    /// Stop the node daemon.
    StopService,
    /// Keep the node daemon from starting again.
    DisableService,
    /// Have the service manager read its unit files again.
    ReloadUnits,
    /// Remove the file at this path, if there is one.
    Remove(String),
}

pub enum CleanupStepView {
    StopService,
    DisableService,
    ReloadUnits,
    Remove(Seq<char>),
}

impl View for CleanupStep {
    type V = CleanupStepView;

    open spec fn view(&self) -> CleanupStepView {
        match self {
            CleanupStep::StopService => CleanupStepView::StopService,
            CleanupStep::DisableService => CleanupStepView::DisableService,
            CleanupStep::ReloadUnits => CleanupStepView::ReloadUnits,
            CleanupStep::Remove(path) => CleanupStepView::Remove(path@),
        }
    }
}

impl DeepView for CleanupStep {
    type V = CleanupStepView;

    open spec fn deep_view(&self) -> CleanupStepView {
        self.view()
    }
}

/// The unit file of the node daemon.
pub open spec fn unit_path() -> Seq<char> {
    "/etc/systemd/system/ops-serve.service"@
}

/// The daemon is stopped and disabled before its unit file goes, and the
/// service manager is told afterwards.
pub open spec fn service_steps(present: bool) -> Seq<CleanupStepView> {
    if present {
        seq![
            CleanupStepView::StopService,
            CleanupStepView::DisableService,
            CleanupStepView::Remove(unit_path()),
            CleanupStepView::ReloadUnits,
        ]
    } else {
        Seq::empty()
    }
}

/// Each proxy site of a node goes, first where it is enabled and then where
/// it is kept.
pub open spec fn site_steps(names: Seq<Seq<char>>) -> Seq<CleanupStepView>
    decreases names.len(),
{
    if names.len() == 0 {
        Seq::empty()
    } else {
        let before = site_steps(names.drop_last());
        if has_suffix(names.last(), ".node.ops.autos"@) {
            before.push(
                CleanupStepView::Remove("/etc/nginx/sites-enabled/"@ + names.last()),
            ).push(CleanupStepView::Remove("/etc/nginx/sites-available/"@ + names.last()))
        } else {
            before
        }
    }
}

/// Each of the known certificates goes where a file is at its path.
pub open spec fn certificate_steps(known: Seq<Seq<char>>, present: Seq<Seq<char>>) -> Seq<
    CleanupStepView,
>
    decreases known.len(),
{
    if known.len() == 0 {
        Seq::empty()
    } else {
        let before = certificate_steps(known.drop_last(), present);
        if present.contains(known.last()) {
            before.push(CleanupStepView::Remove(known.last()))
        } else {
            before
        }
    }
}

/// Each routing fragment goes.
pub open spec fn fragment_steps(names: Seq<Seq<char>>) -> Seq<CleanupStepView>
    decreases names.len(),
{
    if names.len() == 0 {
        Seq::empty()
    } else {
        let before = fragment_steps(names.drop_last());
        if has_suffix(names.last(), ".caddy"@) {
            before.push(CleanupStepView::Remove("/etc/caddy/routes.d/"@ + names.last()))
        } else {
            before
        }
    }
}

/// The clean-up of what an earlier installation left: the node daemon, the
/// proxy sites of nodes, the old certificates, the routing fragments, in
/// this order. Nothing else is touched.
pub open spec fn cleanup_of(found: &Residue) -> Seq<CleanupStepView> {
    service_steps(found.service) + site_steps(views(found.sites@)) + certificate_steps(
        old_certificates_of(),
        views(found.certificates@),
    ) + fragment_steps(views(found.fragments@))
}

/// `dir` and `name`, as one path.
fn path_in(dir: &str, name: &str) -> (path: String)
    ensures
        path@ == dir@ + name@,
{
    let mut path = dir.to_owned();
    path.append(name);
    path
}

fn plan_sites(steps: &mut Vec<CleanupStep>, names: &Vec<String>)
    ensures
        final(steps).deep_view() == old(steps).deep_view() + site_steps(views(names@)),
{
    let ghost start = steps.deep_view();
    let mut i: usize = 0;
    assert(site_steps(views(names@).take(0)) =~= Seq::<CleanupStepView>::empty());
    assert(steps.deep_view() =~= start + site_steps(views(names@).take(0)));
    while i < names.len()
        invariant
            i <= names.len(),
            steps.deep_view() == start + site_steps(views(names@).take(i as int)),
        decreases names.len() - i,
    {
        proof {
            let t = views(names@).take(i + 1);
            assert(t.drop_last() =~= views(names@).take(i as int));
            assert(t.last() == names@[i as int]@);
        }
        let name = names[i].as_str();
        if is_node_site(name) {
            let ghost before = steps.deep_view();
            steps.push(CleanupStep::Remove(path_in("/etc/nginx/sites-enabled/", name)));
            steps.push(CleanupStep::Remove(path_in("/etc/nginx/sites-available/", name)));
            assert(steps.deep_view() =~= before.push(
                CleanupStepView::Remove("/etc/nginx/sites-enabled/"@ + name@),
            ).push(CleanupStepView::Remove("/etc/nginx/sites-available/"@ + name@)));
        }
        assert(steps.deep_view() =~= start + site_steps(views(names@).take(i + 1)));
        i += 1;
    }
    assert(views(names@).take(names.len() as int) =~= views(names@));
}

/// Whether `path` is one of `paths`.
fn is_among(paths: &Vec<String>, path: &str) -> (r: bool)
    ensures
        r == views(paths@).contains(path@),
{
    let mut i: usize = 0;
    while i < paths.len()
        invariant
            i <= paths.len(),
            forall|j: int| 0 <= j < i ==> views(paths@)[j] != path@,
        decreases paths.len() - i,
    {
        if same_text(paths[i].as_str(), path) {
            assert(views(paths@)[i as int] == path@);
            return true;
        }
        i += 1;
    }
    false
}

fn plan_certificates(steps: &mut Vec<CleanupStep>, present: &Vec<String>)
    ensures
        final(steps).deep_view() == old(steps).deep_view() + certificate_steps(
            old_certificates_of(),
            views(present@),
        ),
{
    let ghost start = steps.deep_view();
    let known = old_certificates();
    let mut i: usize = 0;
    assert(certificate_steps(views(known@).take(0), views(present@)) =~= Seq::<
        CleanupStepView,
    >::empty());
    assert(steps.deep_view() =~= start + certificate_steps(
        views(known@).take(0),
        views(present@),
    ));
    while i < known.len()
        invariant
            i <= known.len(),
            views(known@) == old_certificates_of(),
            steps.deep_view() == start + certificate_steps(
                views(known@).take(i as int),
                views(present@),
            ),
        decreases known.len() - i,
    {
        proof {
            let t = views(known@).take(i + 1);
            assert(t.drop_last() =~= views(known@).take(i as int));
            assert(t.last() == known@[i as int]@);
        }
        if is_among(present, known[i].as_str()) {
            let ghost before = steps.deep_view();
            steps.push(CleanupStep::Remove(known[i].clone()));
            assert(steps.deep_view() =~= before.push(CleanupStepView::Remove(known@[i as int]@)));
        }
        assert(steps.deep_view() =~= start + certificate_steps(
            views(known@).take(i + 1),
            views(present@),
        ));
        i += 1;
    }
    assert(views(known@).take(known.len() as int) =~= views(known@));
}

fn plan_fragments(steps: &mut Vec<CleanupStep>, names: &Vec<String>)
    ensures
        final(steps).deep_view() == old(steps).deep_view() + fragment_steps(views(names@)),
{
    let ghost start = steps.deep_view();
    let mut i: usize = 0;
    assert(fragment_steps(views(names@).take(0)) =~= Seq::<CleanupStepView>::empty());
    assert(steps.deep_view() =~= start + fragment_steps(views(names@).take(0)));
    while i < names.len()
        invariant
            i <= names.len(),
            steps.deep_view() == start + fragment_steps(views(names@).take(i as int)),
        decreases names.len() - i,
    {
        proof {
            let t = views(names@).take(i + 1);
            assert(t.drop_last() =~= views(names@).take(i as int));
            assert(t.last() == names@[i as int]@);
        }
        let name = names[i].as_str();
        if is_route_fragment(name) {
            let ghost before = steps.deep_view();
            steps.push(CleanupStep::Remove(path_in("/etc/caddy/routes.d/", name)));
            assert(steps.deep_view() =~= before.push(
                CleanupStepView::Remove("/etc/caddy/routes.d/"@ + name@),
            ));
        }
        assert(steps.deep_view() =~= start + fragment_steps(views(names@).take(i + 1)));
        i += 1;
    }
    assert(views(names@).take(names.len() as int) =~= views(names@));
}

/// Plans the clean-up of what was found. An empty plan says that nothing
/// of an earlier installation is there.
pub fn cleanup_plan(found: &Residue) -> (steps: Vec<CleanupStep>)
    ensures
        steps.deep_view() == cleanup_of(found),
{
    let mut steps: Vec<CleanupStep> = Vec::new();
    if found.service {
        steps.push(CleanupStep::StopService);
        steps.push(CleanupStep::DisableService);
        steps.push(CleanupStep::Remove("/etc/systemd/system/ops-serve.service".to_owned()));
        steps.push(CleanupStep::ReloadUnits);
    }
    assert(steps.deep_view() =~= service_steps(found.service));
    plan_sites(&mut steps, &found.sites);
    plan_certificates(&mut steps, &found.certificates);
    plan_fragments(&mut steps, &found.fragments);
    steps
}

/// What is said of a clean-up that removed these paths: that old
/// configuration was found, each path that went, and that the clean-up is
/// done where anything went.
pub open spec fn removal_lines(removed: Seq<Seq<char>>) -> Seq<MessageView>
    decreases removed.len(),
{
    if removed.len() == 0 {
        Seq::empty()
    } else {
        removal_lines(removed.drop_last()).push(
            MessageView { kind: Kind::Detail, text: "  Removed: "@ + removed.last() },
        )
    }
}

pub open spec fn cleanup_report_of(removed: Seq<Seq<char>>) -> Seq<MessageView> {
    seq![
        MessageView { kind: Kind::Warn, text: "Found old OPS configuration, cleaning up..."@ },
    ] + removal_lines(removed) + (if removed.len() > 0 {
        seq![MessageView { kind: Kind::Success, text: "✔ Old configuration cleaned"@ }]
    } else {
        Seq::<MessageView>::empty()
    })
}

/// The report of a clean-up that had something to do.
pub fn cleanup_report(removed: &Vec<String>) -> (messages: Vec<Message>)
    ensures
        messages.deep_view() == cleanup_report_of(views(removed@)),
{
    let mut messages: Vec<Message> = Vec::new();
    messages.push(Message::new(Kind::Warn, "Found old OPS configuration, cleaning up..."));
    let ghost head = messages.deep_view();
    assert(head =~= seq![
        MessageView { kind: Kind::Warn, text: "Found old OPS configuration, cleaning up..."@ },
    ]);
    let mut i: usize = 0;
    assert(removal_lines(views(removed@).take(0)) =~= Seq::<MessageView>::empty());
    assert(messages.deep_view() =~= head + removal_lines(views(removed@).take(0)));
    while i < removed.len()
        invariant
            i <= removed.len(),
            messages.deep_view() == head + removal_lines(views(removed@).take(i as int)),
        decreases removed.len() - i,
    {
        proof {
            let t = views(removed@).take(i + 1);
            assert(t.drop_last() =~= views(removed@).take(i as int));
            assert(t.last() == removed@[i as int]@);
        }
        let ghost before = messages.deep_view();
        let text = path_in("  Removed: ", removed[i].as_str());
        messages.push(Message { kind: Kind::Detail, text });
        assert(messages.deep_view() =~= before.push(
            MessageView { kind: Kind::Detail, text: "  Removed: "@ + removed@[i as int]@ },
        ));
        i += 1;
    }
    assert(views(removed@).take(removed.len() as int) =~= views(removed@));
    if removed.len() > 0 {
        let ghost before = messages.deep_view();
        messages.push(Message::new(Kind::Success, "✔ Old configuration cleaned"));
        assert(messages.deep_view() =~= before.push(
            MessageView { kind: Kind::Success, text: "✔ Old configuration cleaned"@ },
        ));
    }
    assert(messages.deep_view() =~= cleanup_report_of(views(removed@)));
    messages
}

/// Whether one of the removed paths mentions `word`.
pub open spec fn any_mentions(paths: Seq<Seq<char>>, word: Seq<char>) -> bool {
    exists|i: int| 0 <= i < paths.len() && has_substring(#[trigger] paths[i], word)
}

/// Whether a proxy has to be reloaded after a clean-up: one of the paths
/// that were removed belongs to it.
pub fn needs_reload(removed: &Vec<String>, proxy: &str) -> (r: bool)
    ensures
        r == any_mentions(views(removed@), proxy@),
{
    let mut i: usize = 0;
    while i < removed.len()
        invariant
            i <= removed.len(),
            forall|j: int| 0 <= j < i ==> !has_substring(#[trigger] views(removed@)[j], proxy@),
        decreases removed.len() - i,
    {
        if contains_text(removed[i].as_str(), proxy) {
            assert(has_substring(views(removed@)[i as int], proxy@));
            return true;
        }
        i += 1;
    }
    false
}

/// Whether the refusal of a registration says that the server is a node
/// already, which the operator may choose to overwrite.
pub fn is_already_registered(message: &str) -> (r: bool)
    ensures
        r == has_substring(message@, "already registered"@),
{
    contains_text(message, "already registered")
}

/// The public key of the operator: the first of the usual key files that is
/// there.
pub open spec fn public_key_file_of(ssh_dir: &Snapshot) -> Option<Seq<char>> {
    if ssh_dir.holds("id_ed25519.pub"@) {
        Some("id_ed25519.pub"@)
    } else if ssh_dir.holds("id_rsa.pub"@) {
        Some("id_rsa.pub"@)
    } else if ssh_dir.holds("id_ecdsa.pub"@) {
        Some("id_ecdsa.pub"@)
    } else {
        None
    }
}

pub fn public_key_file(ssh_dir: &Snapshot) -> (file: Option<&'static str>)
    ensures
        match file {
            Some(name) => public_key_file_of(ssh_dir) == Some(name@),
            None => public_key_file_of(ssh_dir) is None,
        },
{
    if ssh_dir.has_file("id_ed25519.pub") {
        Some("id_ed25519.pub")
    } else if ssh_dir.has_file("id_rsa.pub") {
        Some("id_rsa.pub")
    } else if ssh_dir.has_file("id_ecdsa.pub") {
        Some("id_ecdsa.pub")
    } else {
        None
    }
}

/// What is appended to the authorized keys for a key of the control plane.
pub open spec fn authorized_entry_of(pubkey: Seq<char>) -> Seq<char> {
    "\n# Added by ops.autos CLI for CI/CD\n"@ + pubkey + "\n"@
}

pub fn authorized_entry(pubkey: &str) -> (entry: String)
    ensures
        entry@ == authorized_entry_of(pubkey@),
{
    let mut entry = "\n# Added by ops.autos CLI for CI/CD\n".to_owned();
    entry.append(pubkey);
    entry.append("\n");
    entry
}

/// The directory of the compose files of a node: the one given, the home of
/// the administrator otherwise.
pub fn compose_directory(given: &Option<String>) -> (dir: String)
    ensures
        dir@ == (match given {
            Some(d) => d@,
            None => "/root"@,
        }),
{
    match given {
        Some(d) => d.clone(),
        None => "/root".to_owned(),
    }
}

} // verus!
