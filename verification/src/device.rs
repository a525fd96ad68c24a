//! This device: its name, its pairing and what it tells of itself.

use crate::alerts::AlertThresholds;
use crate::clock;
use crate::clock::Moment;
use crate::text;
use vstd::prelude::*;
use vstd::string::*;

verus! {

pub const DEVICE_TYPE_WIN: &'static str = "Windows";

pub const DEVICE_TYPE_LINUX: &'static str = "Linux";

pub const DEVICE_TYPE_MAC: &'static str = "macOS";

/// The kind of device that the name of an operating system stands for.
pub open spec fn device_type_of(os: Seq<char>) -> Seq<char> {
    if os == "windows"@ {
        DEVICE_TYPE_WIN@
    } else if os == "linux"@ {
        DEVICE_TYPE_LINUX@
    } else if os == "macos"@ {
        DEVICE_TYPE_MAC@
    } else {
        "Desktop"@
    }
}

/// The kind of device that the name of an operating system stands for.
pub fn device_type(os: &str) -> (r: &'static str)
    ensures
        r@ == device_type_of(os@),
{
    if text::same(os, "windows") {
        DEVICE_TYPE_WIN
    } else if text::same(os, "linux") {
        DEVICE_TYPE_LINUX
    } else if text::same(os, "macos") {
        DEVICE_TYPE_MAC
    } else {
        "Desktop"
    }
}

/// The first of two environment values that is set and not empty.
pub open spec fn hostname_of(host: Option<Seq<char>>, computer: Option<Seq<char>>) -> Option<
    Seq<char>,
> {
    if host is Some && host->0.len() > 0 {
        host
    } else if computer is Some && computer->0.len() > 0 {
        computer
    } else {
        None
    }
}

fn filled(value: Option<&str>) -> (r: bool)
    ensures
        r == (value is Some && value->0@.len() > 0),
{
    match value {
        Some(v) => v.unicode_len() > 0,
        None => false,
    }
}

/// The name of the host: the first of `HOSTNAME` and `COMPUTERNAME` that is set and not empty.
pub fn hostname(host: Option<&str>, computer: Option<&str>) -> (r: Option<String>)
    ensures
        text::opt(r) == hostname_of(text::opt_str(host), text::opt_str(computer)),
{
    if filled(host) {
        text::owned_opt(host)
    } else if filled(computer) {
        text::owned_opt(computer)
    } else {
        None
    }
}

/// How the system is named to the server.
pub open spec fn system_label_of(host: Option<Seq<char>>, os: Seq<char>) -> Seq<char> {
    let name = if host is Some {
        host->0
    } else {
        "desktop"@
    };
    name + " ("@ + device_type_of(os) + ")"@
}

/// How the system is named to the server.
pub fn system_label(host: Option<&str>, os: &str) -> (r: String)
    ensures
        r@ == system_label_of(text::opt_str(host), os@),
{
    let mut r = match host {
        Some(h) => text::join(h, " ("),
        None => text::join("desktop", " ("),
    };
    r.append(device_type(os));
    r.append(")");
    r
}

/// The name that a device goes by where the user gives none: its own name unless that is blank,
/// then the name of the host.
pub open spec fn default_name_of(device: Seq<char>, host: Option<Seq<char>>) -> Seq<char> {
    if text::trimmed(device).len() > 0 {
        device
    } else if host is Some {
        host->0
    } else {
        "Desktop"@
    }
}

/// The name that a device goes by where the user gives none.
pub fn device_name_from(device: String, host: Option<String>) -> (r: String)
    ensures
        r@ == default_name_of(device@, text::opt(host)),
{
    if text::trim(device.as_str()).as_str().unicode_len() > 0 {
        device
    } else {
        match host {
            Some(h) => h,
            None => text::owned("Desktop"),
        }
    }
}

/// `whoami::devicename` reads the name of the device. What comes back rests on the machine, so
/// nothing is said of it.
#[verifier::external_body]
fn own_name() -> (r: String) {
    whoami::devicename()
}

/// `whoami::fallible::hostname` reads the name of the host, nothing where it cannot be read. What
/// comes back rests on the machine, so nothing is said of it.
#[verifier::external_body]
fn host_name() -> (r: Option<String>) {
    whoami::fallible::hostname().ok()
}

/// The name that this device goes by where the user gives none, whatever the machine reports.
pub fn default_device_name() -> (r: String)
    ensures
        exists|device: Seq<char>, host: Option<Seq<char>>|
            r@ == #[trigger] default_name_of(device, host),
{
    let device = own_name();
    let ghost named = device@;
    if text::trim(device.as_str()).as_str().unicode_len() > 0 {
        let r = device_name_from(device, None);
        assert(r@ == default_name_of(named, None));
        r
    } else {
        let host = host_name();
        let ghost hosted = text::opt(host);
        let r = device_name_from(device, host);
        assert(r@ == default_name_of(named, hosted));
        r
    }
}

/// What a paired device keeps.
pub struct HelperConfig {
    pub device_id: String,
    pub user_id: String,
    pub device_name: String,
    pub helper_version: String,
    pub helper_secret: String,
    pub thresholds: AlertThresholds,
    pub email: String,
}

/// What the user interface shows of the pairing.
pub struct ConfigView {
    pub paired: bool,
    pub device_id: Option<String>,
    pub device_name: Option<String>,
    pub device_type: String,
    pub helper_version: String,
    pub user_id: Option<String>,
}

/// A pairing behind a reference.
pub open spec fn pairing(cfg: Option<&HelperConfig>) -> Option<HelperConfig> {
    match cfg {
        Some(c) => Some(*c),
        None => None,
    }
}

impl ConfigView {
    /// The view shows this pairing, or that there is none, on this system.
    pub open spec fn shows(
        self,
        cfg: Option<HelperConfig>,
        os: Seq<char>,
        version: Seq<char>,
    ) -> bool {
        &&& self.paired == cfg is Some
        &&& cfg is Some ==> self.device_id == Some(cfg->0.device_id) && self.device_name == Some(
            cfg->0.device_name,
        ) && self.user_id == Some(cfg->0.user_id)
        &&& cfg is None ==> self.device_id is None && self.device_name is None
            && self.user_id is None
        &&& self.device_type@ == device_type_of(os)
        &&& self.helper_version@ == version
    }

    /// What is shown of a pairing, or of none: who and where, never the secret.
    pub fn from_optional(cfg: Option<&HelperConfig>, os: &str, version: &str) -> (r: ConfigView)
        ensures
            r.shows(pairing(cfg), os@, version@),
    {
        let (device_id, device_name, user_id) = match cfg {
            Some(c) => (
                Some(c.device_id.clone()),
                Some(c.device_name.clone()),
                Some(c.user_id.clone()),
            ),
            None => (None, None, None),
        };
        ConfigView {
            paired: cfg.is_some(),
            device_id,
            device_name,
            device_type: text::owned(device_type(os)),
            helper_version: text::owned(version),
            user_id,
        }
    }
}

/// These thresholds are in force.
pub open spec fn in_force(cfg: Result<Option<HelperConfig>, String>, t: AlertThresholds) -> bool {
    match cfg {
        Ok(Some(c)) => t == c.thresholds,
        _ => t.is_default(),
    }
}

/// The configuration with new thresholds.
pub open spec fn with_thresholds(c: HelperConfig, t: AlertThresholds) -> HelperConfig {
    HelperConfig { thresholds: t, ..c }
}

/// The thresholds that are in force: those of the pairing, the defaults where there is none or it
/// could not be read.
pub fn get_thresholds(cfg: Result<Option<HelperConfig>, String>) -> (r: AlertThresholds)
    ensures
        cfg is Ok && cfg->Ok_0 is Some ==> r == (cfg->Ok_0->0).thresholds,
        cfg is Err || cfg->Ok_0 is None ==> r.is_default(),
        in_force(cfg, r),
{
    match cfg {
        Ok(Some(c)) => c.thresholds,
        _ => AlertThresholds::default(),
    }
}

/// The configuration with new thresholds, to be saved; a device that is not paired keeps none.
pub fn set_thresholds(cfg: Option<HelperConfig>, thresholds: AlertThresholds) -> (r: Result<
    HelperConfig,
    String,
>)
    ensures
        cfg is Some ==> r == Ok::<HelperConfig, String>(
            (HelperConfig { thresholds, ..cfg->0 }),
        ),
        cfg is Some ==> r == Ok::<HelperConfig, String>(with_thresholds(cfg->0, thresholds)),
        cfg is None ==> r is Err && r->Err_0@
            == "Device not paired — pair first, then set budgets"@,
{
    match cfg {
        Some(c) => {
            let mut c = c;
            c.thresholds = thresholds;
            Ok(c)
        },
        None => Err(text::owned("Device not paired — pair first, then set budgets")),
    }
}

/// Where provider credentials are kept.
#[derive(Clone, Copy, Debug, PartialEq, Eq, Structural)]
pub enum Backend {
    OsKeychain,
    File,
}

/// What a bug report says of the device.
pub struct DiagnosticSnapshot {
    pub app_version: String,
    pub os: String,
    pub arch: String,
    pub family: String,
    pub paired: bool,
    pub device_id_short: Option<String>,
    pub cache_dir: Option<String>,
    pub log_dir: Option<String>,
    pub provider_creds_backend: Backend,
}

/// What a bug report says of the pairing.
pub open spec fn short_id_of(cfg: Option<HelperConfig>) -> Option<Seq<char>> {
    match cfg {
        Some(c) => Some(text::first(c.device_id@, 8)),
        None => None,
    }
}

impl DiagnosticSnapshot {
    /// The report is of this pairing, or of none, on this system.
    pub open spec fn reports(
        self,
        cfg: Option<HelperConfig>,
        os: Seq<char>,
        arch: Seq<char>,
        version: Seq<char>,
    ) -> bool {
        &&& self.app_version@ == version
        &&& self.os@ == device_type_of(os)
        &&& self.arch@ == arch
        &&& self.family@ == os
        &&& self.paired == cfg is Some
        &&& text::opt(self.device_id_short) == short_id_of(cfg)
    }
}

/// What a bug report says of the device: of a pairing only the first eight characters of the device
/// identifier.
pub fn diagnostic_snapshot(
    cfg: Option<&HelperConfig>,
    os: &str,
    arch: &str,
    version: &str,
    cache_dir: Option<String>,
    log_dir: Option<String>,
    backend: Backend,
) -> (r: DiagnosticSnapshot)
    ensures
        r.app_version@ == version@,
        r.os@ == device_type_of(os@),
        r.arch@ == arch@,
        r.family@ == os@,
        r.paired == cfg is Some,
        text::opt(r.device_id_short) == short_id_of(pairing(cfg)),
        r.cache_dir == cache_dir,
        r.log_dir == log_dir,
        r.provider_creds_backend == backend,
        r.reports(pairing(cfg), os@, arch@, version@),
{
    DiagnosticSnapshot {
        app_version: text::owned(version),
        os: text::owned(device_type(os)),
        arch: text::owned(arch),
        family: text::owned(os),
        paired: cfg.is_some(),
        device_id_short: match cfg {
            Some(c) => Some(text::take(c.device_id.as_str(), 8)),
            None => None,
        },
        cache_dir,
        log_dir,
        provider_creds_backend: backend,
    }
}

/// The name and the text of a file in a diagnostic bundle.
pub struct BundleFile {
    pub name: String,
    pub content: String,
}

/// The files are those of a diagnostic bundle.
pub open spec fn is_bundle(
    files: Seq<BundleFile>,
    snapshot_json: String,
    version: Seq<char>,
) -> bool {
    &&& files.len() == 2
    &&& files[0].name@ == "diagnostic_snapshot.json"@
    &&& files[0].content == snapshot_json
    &&& files[1].name@ == "versions.txt"@
    &&& files[1].content@ == "tauri.conf.json version: "@ + version + "\nCargo.toml version: "@
        + version + "\n"@
}

/// The files that a diagnostic bundle holds besides the logs: the snapshot, as JSON, and the
/// version.
pub fn bundle_extras(snapshot_json: String, version: &str) -> (r: Vec<BundleFile>)
    ensures
        r@.len() == 2,
        r@[0].name@ == "diagnostic_snapshot.json"@,
        r@[0].content == snapshot_json,
        r@[1].name@ == "versions.txt"@,
        r@[1].content@ == "tauri.conf.json version: "@ + version@ + "\nCargo.toml version: "@
            + version@ + "\n"@,
        is_bundle(r@, snapshot_json, version@),
{
    let mut versions = text::join("tauri.conf.json version: ", version);
    versions.append("\nCargo.toml version: ");
    versions.append(version);
    versions.append("\n");
    let mut r: Vec<BundleFile> = Vec::new();
    r.push(
        BundleFile { name: text::owned("diagnostic_snapshot.json"), content: snapshot_json },
    );
    r.push(BundleFile { name: text::owned("versions.txt"), content: versions });
    r
}

/// A tag of a crash report.
pub struct Tag {
    pub name: String,
    pub value: String,
}

/// A report that only tests whether reports arrive.
pub struct TestReport {
    pub tags: Vec<Tag>,
    pub message: String,
}

impl TestReport {
    /// The report is a test and carries its time.
    pub open spec fn is_test_of(self, now: Moment) -> bool {
        &&& self.tags@.len() == 2
        &&& self.tags@[0].name@ == "diagnostic_test"@ && self.tags@[0].value@ == "true"@
        &&& self.tags@[1].name@ == "emitted_at"@
        &&& self.tags@[1].value@ == clock::formatted_of(now.secs, now.nanos, clock::STAMP_FORMAT@)
    }
}

/// A report that only tests whether reports arrive: tagged as a test and with its time, so that it
/// can be told from a real one.
pub fn emit_test_sentry_event(now: &Moment) -> (r: TestReport)
    requires
        now.wf(),
    ensures
        r.tags@.len() == 2,
        r.tags@[0].name@ == "diagnostic_test"@ && r.tags@[0].value@ == "true"@,
        r.tags@[1].name@ == "emitted_at"@,
        r.tags@[1].value@ == clock::formatted_of(now.secs, now.nanos, clock::STAMP_FORMAT@),
        r.message@ == "CLI Pulse desktop diagnostic test event — manual emit, ignore."@,
        r.is_test_of(*now),
{
    let mut tags: Vec<Tag> = Vec::new();
    tags.push(Tag { name: text::owned("diagnostic_test"), value: text::owned("true") });
    tags.push(Tag { name: text::owned("emitted_at"), value: now.stamp() });
    TestReport {
        tags,
        message: text::owned("CLI Pulse desktop diagnostic test event — manual emit, ignore."),
    }
}

/// The interface shows the same of two pairings with the same device, user and name, whatever
/// their secrets are.
pub proof fn lemma_view_hides_the_secret(
    a: HelperConfig,
    b: HelperConfig,
    os: Seq<char>,
    version: Seq<char>,
    shown_a: ConfigView,
    shown_b: ConfigView,
)
    requires
        a.device_id == b.device_id,
        a.user_id == b.user_id,
        a.device_name == b.device_name,
        shown_a.shows(Some(a), os, version),
        shown_b.shows(Some(b), os, version),
    ensures
        shown_a.device_id == shown_b.device_id,
        shown_a.device_name == shown_b.device_name,
        shown_a.user_id == shown_b.user_id,
        shown_a.device_type@ == shown_b.device_type@,
        shown_a.helper_version@ == shown_b.helper_version@,
{
}

/// A bug report says the same of two pairings whose device identifiers begin with the same eight
/// characters, whatever their secrets, users and names are.
pub proof fn lemma_snapshot_hides_the_pairing(a: HelperConfig, b: HelperConfig)
    requires
        text::first(a.device_id@, 8) == text::first(b.device_id@, 8),
    ensures
        short_id_of(Some(a)) == short_id_of(Some(b)),
        short_id_of(Some(a)) is Some,
        short_id_of(Some(a))->0.len() <= 8,
{
}

/// The kinds of device: three systems by their names, any other a desktop.
pub proof fn lemma_kinds_of_device(os: Seq<char>)
    ensures
        os == "windows"@ ==> device_type_of(os) == "Windows"@,
        os == "linux"@ ==> device_type_of(os) == "Linux"@,
        os == "macos"@ ==> device_type_of(os) == "macOS"@,
        os != "windows"@ && os != "linux"@ && os != "macos"@ ==> device_type_of(os) == "Desktop"@,
{
    reveal_strlit("windows");
    reveal_strlit("linux");
    reveal_strlit("macos");
    assert("windows"@.len() == 7 && "linux"@.len() == 5 && "macos"@.len() == 5);
    assert("linux"@[0] != "macos"@[0]);
}

/// The host goes by the first of its two names that is set and not empty.
pub proof fn lemma_first_name_counts(host: Seq<char>, computer: Option<Seq<char>>)
    ensures
        host.len() > 0 ==> hostname_of(Some(host), computer) == Some(host),
        host.len() == 0 ==> hostname_of(Some(host), computer) == hostname_of(None, computer),
        computer is Some && computer->0.len() > 0 ==> hostname_of(None, computer) == computer,
        computer is Some && computer->0.len() == 0 ==> hostname_of(None, computer) is None,
        hostname_of(None, None) is None,
{
}

/// The system is named by its host, `desktop` where it has none, and its kind in brackets.
pub proof fn lemma_system_is_named(host: Seq<char>, os: Seq<char>)
    ensures
        system_label_of(Some(host), os) == host + " ("@ + device_type_of(os) + ")"@,
        system_label_of(None, os) == "desktop"@ + " ("@ + device_type_of(os) + ")"@,
        os == "linux"@ ==> system_label_of(Some(host), os) == host + " (Linux)"@,
{
    lemma_kinds_of_device(os);
    reveal_strlit(" (");
    reveal_strlit(")");
    reveal_strlit("Linux");
    reveal_strlit(" (Linux)");
    if os == "linux"@ {
        assert(host + " ("@ + "Linux"@ + ")"@ =~= host + " (Linux)"@);
    }
}

/// A device goes by its own name, whole, unless that is blank; by its host's name then, and by
/// `Desktop` where there is none.
pub proof fn lemma_own_name_comes_first(own: Seq<char>, host: Option<Seq<char>>)
    ensures
        text::trimmed(own).len() > 0 ==> default_name_of(own, host) == own,
        text::trimmed(own).len() == 0 && host is Some ==> default_name_of(own, host) == host->0,
        text::trimmed(own).len() == 0 && host is None ==> default_name_of(own, host) == "Desktop"@,
{
}

/// What is shown of a pairing is that pairing: its device, its name and its user, each in its place;
/// and nothing where there is none.
pub proof fn lemma_view_shows_the_pairing(
    v: ConfigView,
    cfg: Option<HelperConfig>,
    os: Seq<char>,
    version: Seq<char>,
)
    requires
        v.shows(cfg, os, version),
    ensures
        v.paired <==> cfg is Some,
        cfg matches Some(c) ==> v.device_id == Some(c.device_id) && v.device_name == Some(
            c.device_name,
        ) && v.user_id == Some(c.user_id),
        cfg is None ==> v.device_id is None && v.device_name is None && v.user_id is None,
        v.helper_version@ == version,
        os == "macos"@ ==> v.device_type@ == "macOS"@,
        v.device_type@ == device_type_of(os),
{
    lemma_kinds_of_device(os);
}

/// Thresholds that are set are the ones in force from then on, and nothing else of the pairing
/// changes.
pub proof fn lemma_set_thresholds_are_in_force(
    c: HelperConfig,
    t: AlertThresholds,
    read: AlertThresholds,
)
    requires
        in_force(Ok(Some(with_thresholds(c, t))), read),
    ensures
        read == t,
        with_thresholds(c, t).device_id == c.device_id,
        with_thresholds(c, t).user_id == c.user_id,
        with_thresholds(c, t).device_name == c.device_name,
        with_thresholds(c, t).helper_version == c.helper_version,
        with_thresholds(c, t).helper_secret == c.helper_secret,
        with_thresholds(c, t).email == c.email,
{
}

/// Without a pairing that can be read, the default thresholds are in force.
pub proof fn lemma_defaults_are_in_force(
    cfg: Result<Option<HelperConfig>, String>,
    t: AlertThresholds,
)
    requires
        in_force(cfg, t),
        cfg is Err || cfg->Ok_0 is None,
    ensures
        t.daily_budget_usd is None,
        t.weekly_budget_usd is None,
        t.cpu_spike_pct.value() == 80 * vstd::arithmetic::power2::pow2(1074),
{
}

/// A bug report says of the pairing the start of its device identifier, eight characters at most, and
/// of the device its system, its kind, its processor and the version of the app.
pub proof fn lemma_report_tells_the_device(
    r: DiagnosticSnapshot,
    cfg: Option<HelperConfig>,
    os: Seq<char>,
    arch: Seq<char>,
    version: Seq<char>,
)
    requires
        r.reports(cfg, os, arch, version),
    ensures
        r.app_version@ == version,
        r.arch@ == arch,
        r.family@ == os,
        os == "windows"@ ==> r.os@ == "Windows"@,
        r.os@ == device_type_of(os),
        r.paired <==> cfg is Some,
        cfg is None ==> r.device_id_short is None,
        cfg matches Some(c) ==> {
            &&& r.device_id_short is Some
            &&& c.device_id@.len() <= 8 ==> r.device_id_short->0@ == c.device_id@
            &&& c.device_id@.len() > 8 ==> r.device_id_short->0@ == c.device_id@.take(8)
        },
{
    lemma_kinds_of_device(os);
}

/// A bundle holds the snapshot as it is given and the version of the app.
pub proof fn lemma_bundle_holds_snapshot_and_version(
    files: Seq<BundleFile>,
    snapshot_json: String,
    version: Seq<char>,
)
    requires
        is_bundle(files, snapshot_json, version),
    ensures
        files.len() == 2,
        files[0].name@ == "diagnostic_snapshot.json"@ && files[0].content == snapshot_json,
        files[1].name@ == "versions.txt"@ && text::has(files[1].content@, version),
{
    let lead = "tauri.conf.json version: "@;
    let rest = "\nCargo.toml version: "@ + version + "\n"@;
    text::lemma_parts_are_found(lead, version, rest);
    assert(files[1].content@ =~= lead + version + rest);
}

/// A test report is told from a real one by its first tag, and says to the second when it was made.
pub proof fn lemma_test_report_says_that_it_is_one(r: TestReport, now: Moment)
    requires
        r.is_test_of(now),
    ensures
        r.tags@.len() == 2,
        r.tags@[0].name@ == "diagnostic_test"@ && r.tags@[0].value@ == "true"@,
        r.tags@[1].name@ == "emitted_at"@,
        r.tags@[1].value@ == clock::formatted_of(now.secs, now.nanos, "%Y-%m-%dT%H:%M:%SZ"@),
{
}

} // verus!
