//! Alerts computed on this device: budgets that are exceeded and sessions that use much CPU.

use crate::clock;
use crate::clock::{Moment, DATE_FORMAT, WEEK};
use crate::number::Double;
use crate::text;
use crate::usage::{DailyEntry, LiveSession, Measured, ScanResult, SessionsSnapshot};
use vstd::prelude::*;
use vstd::string::*;

verus! {

/// At most this many alerts are sent at a time.
pub const MAX_ALERTS: usize = 20;

/// An alert, in the columns of the server's table.
pub struct Alert {
    pub id: String,
    pub alert_type: String,
    pub severity: String,
    pub title: String,
    pub message: String,
    pub created_at: String,
    pub related_project_id: Option<String>,
    pub related_project_name: Option<String>,
    pub related_session_id: Option<String>,
    pub related_session_name: Option<String>,
    pub related_provider: Option<String>,
    pub related_device_name: Option<String>,
    pub source_kind: Option<String>,
    pub source_id: Option<String>,
    pub grouping_key: Option<String>,
    pub suppression_key: Option<String>,
}

/// The texts of an alert.
#[verifier::ext_equal]
pub struct AlertView {
    pub id: Seq<char>,
    pub alert_type: Seq<char>,
    pub severity: Seq<char>,
    pub title: Seq<char>,
    pub message: Seq<char>,
    pub created_at: Seq<char>,
    pub related_project_id: Option<Seq<char>>,
    pub related_project_name: Option<Seq<char>>,
    pub related_session_id: Option<Seq<char>>,
    pub related_session_name: Option<Seq<char>>,
    pub related_provider: Option<Seq<char>>,
    pub related_device_name: Option<Seq<char>>,
    pub source_kind: Option<Seq<char>>,
    pub source_id: Option<Seq<char>>,
    pub grouping_key: Option<Seq<char>>,
    pub suppression_key: Option<Seq<char>>,
}

impl View for Alert {
    type V = AlertView;

    open spec fn view(&self) -> AlertView {
        AlertView {
            id: self.id@,
            alert_type: self.alert_type@,
            severity: self.severity@,
            title: self.title@,
            message: self.message@,
            created_at: self.created_at@,
            related_project_id: text::opt(self.related_project_id),
            related_project_name: text::opt(self.related_project_name),
            related_session_id: text::opt(self.related_session_id),
            related_session_name: text::opt(self.related_session_name),
            related_provider: text::opt(self.related_provider),
            related_device_name: text::opt(self.related_device_name),
            source_kind: text::opt(self.source_kind),
            source_id: text::opt(self.source_id),
            grouping_key: text::opt(self.grouping_key),
            suppression_key: text::opt(self.suppression_key),
        }
    }
}

/// The limits that the user sets; a budget that is absent never alerts. Budgets are shown with two
/// decimals.
pub struct AlertThresholds {
    pub daily_budget_usd: Option<Measured>,
    pub weekly_budget_usd: Option<Measured>,
    pub cpu_spike_pct: Double,
}

/// What the alerts of one evaluation speak of: the spend of today and of the last seven days, the
/// label of the week and the time.
pub struct Figures {
    pub today: Measured,
    pub week: Measured,
    pub week_label: String,
    pub now_iso: String,
}

impl Figures {
    /// The amounts carry texts that numbers are printed as.
    pub open spec fn wf(self) -> bool {
        self.today.wf() && self.week.wf()
    }
}

impl AlertThresholds {
    /// The budgets that are set carry texts that numbers are printed as.
    pub open spec fn wf(self) -> bool {
        &&& self.daily_budget_usd matches Some(m) ==> m.wf()
        &&& self.weekly_budget_usd matches Some(m) ==> m.wf()
    }

    /// The limits before the user sets any: no budget, and eighty percent of a CPU.
    pub open spec fn is_default(self) -> bool {
        &&& self.daily_budget_usd is None
        &&& self.weekly_budget_usd is None
        &&& self.cpu_spike_pct.is_finite()
        &&& self.cpu_spike_pct.value() == crate::number::whole(80)
    }
}

impl Default for AlertThresholds {
    fn default() -> (r: Self)
        ensures
            r.is_default(),
    {
        AlertThresholds {
            daily_budget_usd: None,
            weekly_budget_usd: None,
            cpu_spike_pct: Double::eighty(),
        }
    }
}

/// The entry is usage of the day `today` with a known cost.
pub open spec fn spent_on(today: Seq<char>) -> spec_fn(DailyEntry) -> bool {
    |e: DailyEntry| e.date@ == today && !e.is_bucket() && e.cost_usd is Some
}

/// The entry is usage with a known cost on a day numbered `cutoff` or later.
pub open spec fn spent_since(cutoff: int) -> spec_fn((DailyEntry, Option<i32>)) -> bool {
    |p: (DailyEntry, Option<i32>)|
        !p.0.is_bucket() && p.1 is Some && p.1->0 >= cutoff && p.0.cost_usd is Some
}

/// The cost of an entry that has one.
pub open spec fn cost_of() -> spec_fn(DailyEntry) -> Double {
    |e: DailyEntry| e.cost_usd->0
}

/// The day on which the last seven days begin.
pub open spec fn week_cutoff(now: Moment) -> int {
    match now.after(-WEEK) {
        Some(t) => t.day_of(),
        None => now.day_of(),
    }
}

/// The days that the entries name.
pub open spec fn days_named(entries: Seq<DailyEntry>) -> Seq<Option<i32>> {
    entries.map_values(|e: DailyEntry| clock::parsed_day(e.date@, DATE_FORMAT@))
}

/// The entries, each with its day.
pub open spec fn dated(entries: Seq<DailyEntry>, days: Seq<Option<i32>>) -> Seq<
    (DailyEntry, Option<i32>),
> {
    Seq::new(entries.len(), |i: int| (entries[i], days[i]))
}

/// The costs of the last seven days, the entries' days given.
pub open spec fn costs_from(entries: Seq<DailyEntry>, days: Seq<Option<i32>>, cutoff: int) -> Seq<
    Double,
> {
    dated(entries, days).filter(spent_since(cutoff)).map_values(
        |p: (DailyEntry, Option<i32>)| p.0.cost_usd->0,
    )
}

/// A year and a week, as `2026-W38`.
pub open spec fn week_label_of(week: (i32, u32)) -> Seq<char> {
    text::padded_of(week.0 as int, 4) + "-W"@ + text::padded_of(week.1 as int, 2)
}

proof fn lemma_filter_step<A>(s: Seq<A>, i: int, p: spec_fn(A) -> bool)
    requires
        0 <= i < s.len(),
    ensures
        s.take(i + 1).filter(p) == if p(s[i]) {
            s.take(i).filter(p).push(s[i])
        } else {
            s.take(i).filter(p)
        },
{
    reveal(Seq::filter);
    assert(s.take(i + 1).drop_last() =~= s.take(i));
}

/// The costs of today's usage, message counts left out.
pub fn today_costs(scan: &ScanResult) -> (r: Vec<Double>)
    ensures
        r@ == scan.entries@.filter(spent_on(scan.today_key@)).map_values(cost_of()),
{
    let mut r: Vec<Double> = Vec::new();
    let ghost p = spent_on(scan.today_key@);
    let mut i: usize = 0;
    proof {
        reveal(Seq::filter);
        assert(r@ =~= scan.entries@.take(0).filter(p).map_values(cost_of()));
    }
    while i < scan.entries.len()
        invariant
            i <= scan.entries@.len(),
            p == spent_on(scan.today_key@),
            r@ == scan.entries@.take(i as int).filter(p).map_values(cost_of()),
        decreases scan.entries@.len() - i,
    {
        let e = &scan.entries[i];
        proof {
            lemma_filter_step(scan.entries@, i as int, p);
        }
        let ghost before = scan.entries@.take(i as int).filter(p);
        if text::same(e.date.as_str(), scan.today_key.as_str()) && !e.counts_messages() {
            match e.cost_usd {
                Some(c) => {
                    r.push(c);
                    assert(before.push(*e).map_values(cost_of()) =~= before.map_values(
                        cost_of(),
                    ).push(c));
                },
                None => {},
            }
        }
        i = i + 1;
    }
    assert(scan.entries@.take(i as int) =~= scan.entries@);
    r
}

/// The costs of the usage on days numbered `cutoff` or later, each entry's day given.
pub fn costs_since(entries: &Vec<DailyEntry>, days: &Vec<Option<i32>>, cutoff: i32) -> (r: Vec<
    Double,
>)
    requires
        entries@.len() == days@.len(),
    ensures
        r@ == costs_from(entries@, days@, cutoff as int),
{
    let mut r: Vec<Double> = Vec::new();
    let ghost all = dated(entries@, days@);
    let ghost p = spent_since(cutoff as int);
    let ghost f = |p: (DailyEntry, Option<i32>)| p.0.cost_usd->0;
    let mut i: usize = 0;
    proof {
        reveal(Seq::filter);
        assert(r@ =~= all.take(0).filter(p).map_values(f));
    }
    while i < entries.len()
        invariant
            i <= entries@.len(),
            entries@.len() == days@.len(),
            all == dated(entries@, days@),
            p == spent_since(cutoff as int),
            f == |p: (DailyEntry, Option<i32>)| p.0.cost_usd->0,
            r@ == all.take(i as int).filter(p).map_values(f),
        decreases entries@.len() - i,
    {
        let e = &entries[i];
        proof {
            lemma_filter_step(all, i as int, p);
        }
        let ghost before = all.take(i as int).filter(p);
        if !e.counts_messages() {
            match (days[i], e.cost_usd) {
                (Some(d), Some(c)) => {
                    if d >= cutoff {
                        r.push(c);
                        assert(before.push(all[i as int]).map_values(f) =~= before.map_values(
                            f,
                        ).push(c));
                    }
                },
                _ => {},
            }
        }
        i = i + 1;
    }
    assert(all.take(i as int) =~= all);
    r
}

/// The costs of the last seven days' usage, message counts and unreadable dates left out.
pub fn last_7_days_costs(scan: &ScanResult, now: &Moment) -> (r: Vec<Double>)
    requires
        now.wf(),
    ensures
        r@ == costs_from(scan.entries@, days_named(scan.entries@), week_cutoff(*now)),
{
    let cutoff: i32 = match now.shifted(-WEEK) {
        Some(t) => t.day(),
        None => now.day(),
    };
    let mut days: Vec<Option<i32>> = Vec::new();
    let mut i: usize = 0;
    while i < scan.entries.len()
        invariant
            i <= scan.entries@.len(),
            days@ == days_named(scan.entries@.take(i as int)),
        decreases scan.entries@.len() - i,
    {
        days.push(clock::parse_day(scan.entries[i].date.as_str(), DATE_FORMAT));
        assert(days@ =~= days_named(scan.entries@.take(i + 1)));
        i = i + 1;
    }
    assert(scan.entries@.take(i as int) =~= scan.entries@);
    costs_since(&scan.entries, &days, cutoff)
}

/// A year and a week, as `2026-W38`.
pub fn week_label(year: i32, week: u32) -> (r: String)
    ensures
        r@ == week_label_of((year, week)),
{
    let head = text::join(text::padded(year as i64, 4).as_str(), "-W");
    text::join(head.as_str(), text::padded(week as i64, 2).as_str())
}

/// The ISO year and week of a moment, as `2026-W38`.
pub fn iso_week_label(d: &Moment) -> (r: String)
    requires
        d.wf(),
    ensures
        clock::iso_week_of(d.day_of() as i32) is Some,
        r@ == week_label_of(clock::iso_week_of(d.day_of() as i32)->0),
{
    match clock::iso_week(d.day()) {
        Some(w) => week_label(w.0, w.1),
        None => String::new(),
    }
}

/// The figures carry the week and the time of a moment.
pub open spec fn stamped(f: Figures, now: Moment) -> bool {
    &&& f.week_label@ == week_label_of(clock::iso_week_of(now.day_of() as i32)->0)
    &&& f.now_iso@ == clock::rfc3339_of(now.secs, now.nanos)
}

/// These are the figures of two amounts at a moment.
pub open spec fn is_figures(f: Figures, now: Moment, today: Measured, week: Measured) -> bool {
    f.today == today && f.week == week && stamped(f, now)
}

/// What the alerts of a moment speak of: the two amounts, the week and the time.
pub fn figures(now: &Moment, today: Measured, week: Measured) -> (r: Figures)
    requires
        now.wf(),
    ensures
        r.today == today,
        r.week == week,
        stamped(r, *now),
        today.wf() && week.wf() ==> r.wf(),
        is_figures(r, *now, today, week),
{
    Figures { today, week, week_label: iso_week_label(now), now_iso: now.to_rfc3339() }
}

/// The figures are those of a scan at a moment, amounts being added up by `sum` and printed by
/// `print`.
pub open spec fn figures_of(
    f: Figures,
    scan: ScanResult,
    now: Moment,
    sum: spec_fn(Seq<Double>) -> Double,
    print: spec_fn(Double) -> Seq<char>,
) -> bool {
    &&& f.today.value == sum(scan.entries@.filter(spent_on(scan.today_key@)).map_values(cost_of()))
    &&& f.week.value == sum(costs_from(scan.entries@, days_named(scan.entries@), week_cutoff(now)))
    &&& f.today.text@ == print(f.today.value)
    &&& f.week.text@ == print(f.week.value)
    &&& stamped(f, now)
}

/// A session name cut to 32 characters, the last three of a longer one being dots.
pub open spec fn short_name_of(name: Seq<char>) -> Seq<char> {
    if name.len() <= 32 {
        name
    } else {
        name.take(29) + "..."@
    }
}

/// A letter or number as it is, a dash for anything else.
pub open spec fn dashed(c: char) -> char {
    if text::alphanumeric(c) {
        c
    } else {
        '-'
    }
}

/// `s` with dashes for what is no letter or number, without a dash at the start or behind another.
pub open spec fn collapsed(s: Seq<char>) -> Seq<char>
    decreases s.len(),
{
    if s.len() == 0 {
        s
    } else {
        let head = collapsed(s.drop_last());
        let c = dashed(s.last());
        if c == '-' && (head.len() == 0 || head.last() == '-') {
            head
        } else {
            head.push(c)
        }
    }
}

/// `s` without the dashes at its end.
pub open spec fn undashed(s: Seq<char>) -> Seq<char>
    decreases s.len(),
{
    if s.len() > 0 && s.last() == '-' {
        undashed(s.drop_last())
    } else {
        s
    }
}

/// The identifier of a project, its name given in lower case: the runs of letters and numbers,
/// with one dash between them; `local-workspace` where there are none.
pub open spec fn slug_of(lower: Seq<char>) -> Seq<char> {
    let s = undashed(collapsed(lower));
    if s.len() == 0 {
        "local-workspace"@
    } else {
        s
    }
}

/// A session name cut to 32 characters, the last three of a longer one being dots.
pub fn short_name(name: &str) -> (r: String)
    ensures
        r@ == short_name_of(name@),
{
    if name.unicode_len() <= 32 {
        text::owned(name)
    } else {
        text::join(text::take(name, 29).as_str(), "...")
    }
}

/// The identifier of a project, its name given in lower case.
pub fn slug(lower: &str) -> (r: String)
    ensures
        r@ == slug_of(lower@),
{
    let v: Vec<char> = text::chars_of(lower);
    let mut out: Vec<char> = Vec::new();
    let mut i: usize = 0;
    while i < v.len()
        invariant
            v@ == lower@,
            i <= v@.len(),
            out@ == collapsed(v@.take(i as int)),
        decreases v@.len() - i,
    {
        assert(v@.take(i + 1).drop_last() =~= v@.take(i as int));
        let c: char = if v[i].is_alphanumeric() {
            v[i]
        } else {
            '-'
        };
        if !(c == '-' && (out.len() == 0 || out[out.len() - 1] == '-')) {
            out.push(c);
        }
        i = i + 1;
    }
    assert(v@.take(i as int) =~= lower@);
    let mut n: usize = out.len();
    assert(out@.take(n as int) =~= out@);
    while n > 0 && out[n - 1] == '-'
        invariant
            n <= out@.len(),
            undashed(out@.take(n as int)) == undashed(out@),
        decreases n,
    {
        assert(out@.take(n as int).drop_last() =~= out@.take(n - 1));
        n = n - 1;
    }
    assert(out@.subrange(0, n as int) =~= out@.take(n as int));
    if n == 0 {
        text::owned("local-workspace")
    } else {
        text::slice_text(&out, 0, n)
    }
}

/// The identifier of a project.
pub fn project_id(project: &str) -> (r: String)
    ensures
        r@ == slug_of(text::lowercase_of(project@)),
{
    slug(text::lowercase(project).as_str())
}

/// The alert that the day's budget is exceeded.
pub open spec fn daily_alert(
    today_key: Seq<char>,
    spend: Seq<char>,
    limit: Seq<char>,
    now_iso: Seq<char>,
    device: Option<Seq<char>>,
) -> AlertView {
    AlertView {
        id: "budget-daily-"@ + today_key,
        alert_type: "Daily Budget Exceeded"@,
        severity: "Warning"@,
        title: "Daily budget exceeded — $"@ + spend,
        message: "Today's spend of $"@ + spend + " is above your daily budget of $"@ + limit + "."@,
        created_at: now_iso,
        related_project_id: None,
        related_project_name: None,
        related_session_id: None,
        related_session_name: None,
        related_provider: None,
        related_device_name: device,
        source_kind: Some("budget"@),
        source_id: Some("daily:"@ + today_key),
        grouping_key: Some("budget:daily"@),
        suppression_key: Some("budget-daily:"@ + today_key),
    }
}

/// The alert that the week's budget is exceeded.
pub open spec fn weekly_alert(
    week_label: Seq<char>,
    spend: Seq<char>,
    limit: Seq<char>,
    now_iso: Seq<char>,
    device: Option<Seq<char>>,
) -> AlertView {
    AlertView {
        id: "budget-weekly-"@ + week_label,
        alert_type: "Weekly Budget Exceeded"@,
        severity: "Warning"@,
        title: "Weekly budget exceeded — $"@ + spend,
        message: "Last 7 days of spend totals $"@ + spend + ", above your weekly budget of $"@
            + limit + "."@,
        created_at: now_iso,
        related_project_id: None,
        related_project_name: None,
        related_session_id: None,
        related_session_name: None,
        related_provider: None,
        related_device_name: device,
        source_kind: Some("budget"@),
        source_id: Some("weekly:"@ + week_label),
        grouping_key: Some("budget:weekly"@),
        suppression_key: Some("budget-weekly:"@ + week_label),
    }
}

/// The alert that a session uses much CPU.
pub open spec fn spike_alert(s: LiveSession, now_iso: Seq<char>, device: Option<Seq<char>>) -> AlertView {
    AlertView {
        id: "session-spike-"@ + s.id@,
        alert_type: "Usage Spike"@,
        severity: "Warning"@,
        title: short_name_of(s.name@) + " is consuming high CPU"@,
        message: "Process CPU is "@ + s.cpu_usage.text@ + "% for "@ + s.provider@ + " in "@
            + s.project@ + "."@,
        created_at: now_iso,
        related_project_id: Some(slug_of(text::lowercase_of(s.project@))),
        related_project_name: Some(s.project@),
        related_session_id: Some(s.id@),
        related_session_name: Some(s.name@),
        related_provider: Some(s.provider@),
        related_device_name: device,
        source_kind: Some("session"@),
        source_id: Some(s.id@),
        grouping_key: Some("usage:"@ + s.provider@),
        suppression_key: Some(
            "usage-spike:"@ + s.id@ + ":"@ + match device {
                Some(d) => d,
                None => "desktop"@,
            },
        ),
    }
}

/// A budget that is set, above zero and exceeded.
pub open spec fn breached(limit: Option<Measured>, spend: Measured) -> bool {
    limit is Some && (limit->0).value.above(Double { bits: 0 }) && spend.value.above((limit->0).value)
}

/// The session's CPU share reaches the threshold.
pub open spec fn spiking(threshold: Double) -> spec_fn(LiveSession) -> bool {
    |s: LiveSession| s.cpu_usage.value.from_up(threshold)
}

/// Every alert that the figures call for: the day's budget, the week's budget, then the sessions
/// in their order.
pub open spec fn due_alerts(
    scan: ScanResult,
    sessions: SessionsSnapshot,
    thresholds: AlertThresholds,
    device: Option<Seq<char>>,
    figures: Figures,
) -> Seq<AlertView> {
    let now = figures.now_iso@;
    let daily = if breached(thresholds.daily_budget_usd, figures.today) {
        seq![
            daily_alert(
                scan.today_key@,
                figures.today.text@,
                (thresholds.daily_budget_usd->0).text@,
                now,
                device,
            ),
        ]
    } else {
        Seq::empty()
    };
    let weekly = if breached(thresholds.weekly_budget_usd, figures.week) {
        seq![
            weekly_alert(
                figures.week_label@,
                figures.week.text@,
                (thresholds.weekly_budget_usd->0).text@,
                now,
                device,
            ),
        ]
    } else {
        Seq::empty()
    };
    daily + weekly + sessions.sessions@.filter(spiking(thresholds.cpu_spike_pct)).map_values(
        |s: LiveSession| spike_alert(s, now, device),
    )
}

/// The first twenty alerts, or all of them.
pub open spec fn capped(alerts: Seq<AlertView>) -> Seq<AlertView> {
    if alerts.len() > MAX_ALERTS {
        alerts.take(MAX_ALERTS as int)
    } else {
        alerts
    }
}

/// The texts of the alerts.
pub open spec fn views(alerts: Seq<Alert>) -> Seq<AlertView> {
    alerts.map_values(|a: Alert| a@)
}

/// The alert that a session uses much CPU.
pub fn cpu_spike_alert(s: &LiveSession, now_iso: &str, device_name: Option<&str>) -> (r: Alert)
    ensures
        r@ == spike_alert(*s, now_iso@, text::opt_str(device_name)),
{
    let mut message = text::join("Process CPU is ", s.cpu_usage.text.as_str());
    message.append("% for ");
    message.append(s.provider.as_str());
    message.append(" in ");
    message.append(s.project.as_str());
    message.append(".");
    let mut suppression = text::join("usage-spike:", s.id.as_str());
    suppression.append(":");
    suppression.append(
        match device_name {
            Some(d) => d,
            None => "desktop",
        },
    );
    Alert {
        id: text::join("session-spike-", s.id.as_str()),
        alert_type: text::owned("Usage Spike"),
        severity: text::owned("Warning"),
        title: text::join(short_name(s.name.as_str()).as_str(), " is consuming high CPU"),
        message,
        created_at: text::owned(now_iso),
        related_project_id: Some(project_id(s.project.as_str())),
        related_project_name: Some(s.project.clone()),
        related_session_id: Some(s.id.clone()),
        related_session_name: Some(s.name.clone()),
        related_provider: Some(s.provider.clone()),
        related_device_name: text::owned_opt(device_name),
        source_kind: Some(text::owned("session")),
        source_id: Some(s.id.clone()),
        grouping_key: Some(text::join("usage:", s.provider.as_str())),
        suppression_key: Some(suppression),
    }
}

/// Whether a budget is set, above zero and exceeded.
fn is_breached(limit: &Option<Measured>, spend: &Measured) -> (r: bool)
    ensures
        r == breached(*limit, *spend),
{
    match limit {
        Some(l) => l.value.exceeds(&Double { bits: 0 }) && spend.value.exceeds(&l.value),
        None => false,
    }
}

/// The alerts that the figures call for, twenty at most. The same figures on the same day make
/// the same identifiers and suppression keys, so the server refreshes a row and adds none.
pub fn compute(
    scan: &ScanResult,
    sessions: &SessionsSnapshot,
    thresholds: &AlertThresholds,
    device_name: Option<&str>,
    figures: &Figures,
) -> (r: Vec<Alert>)
    ensures
        views(r@) == capped(
            due_alerts(*scan, *sessions, *thresholds, text::opt_str(device_name), *figures),
        ),
        r@.len() <= MAX_ALERTS,
{
    let mut out: Vec<Alert> = Vec::new();
    let ghost device = text::opt_str(device_name);
    let ghost now = figures.now_iso@;
    if is_breached(&thresholds.daily_budget_usd, &figures.today) {
        if let Some(limit) = &thresholds.daily_budget_usd {
            let spend = figures.today.text.as_str();
            let mut message = text::join("Today's spend of $", spend);
            message.append(" is above your daily budget of $");
            message.append(limit.text.as_str());
            message.append(".");
            let key = scan.today_key.as_str();
            out.push(
                Alert {
                    id: text::join("budget-daily-", key),
                    alert_type: text::owned("Daily Budget Exceeded"),
                    severity: text::owned("Warning"),
                    title: text::join("Daily budget exceeded — $", spend),
                    message,
                    created_at: figures.now_iso.clone(),
                    related_project_id: None,
                    related_project_name: None,
                    related_session_id: None,
                    related_session_name: None,
                    related_provider: None,
                    related_device_name: text::owned_opt(device_name),
                    source_kind: Some(text::owned("budget")),
                    source_id: Some(text::join("daily:", key)),
                    grouping_key: Some(text::owned("budget:daily")),
                    suppression_key: Some(text::join("budget-daily:", key)),
                },
            );
        }
    }
    if is_breached(&thresholds.weekly_budget_usd, &figures.week) {
        if let Some(limit) = &thresholds.weekly_budget_usd {
            let spend = figures.week.text.as_str();
            let mut message = text::join("Last 7 days of spend totals $", spend);
            message.append(", above your weekly budget of $");
            message.append(limit.text.as_str());
            message.append(".");
            let label = figures.week_label.as_str();
            out.push(
                Alert {
                    id: text::join("budget-weekly-", label),
                    alert_type: text::owned("Weekly Budget Exceeded"),
                    severity: text::owned("Warning"),
                    title: text::join("Weekly budget exceeded — $", spend),
                    message,
                    created_at: figures.now_iso.clone(),
                    related_project_id: None,
                    related_project_name: None,
                    related_session_id: None,
                    related_session_name: None,
                    related_provider: None,
                    related_device_name: text::owned_opt(device_name),
                    source_kind: Some(text::owned("budget")),
                    source_id: Some(text::join("weekly:", label)),
                    grouping_key: Some(text::owned("budget:weekly")),
                    suppression_key: Some(text::join("budget-weekly:", label)),
                },
            );
        }
    }
    let ghost budgets = views(out@);
    let ghost p = spiking(thresholds.cpu_spike_pct);
    let ghost f = |s: LiveSession| spike_alert(s, now, device);
    let mut i: usize = 0;
    proof {
        reveal(Seq::filter);
        assert(views(out@) =~= budgets + sessions.sessions@.take(0).filter(p).map_values(f));
    }
    while i < sessions.sessions.len()
        invariant
            i <= sessions.sessions@.len(),
            p == spiking(thresholds.cpu_spike_pct),
            f == |s: LiveSession| spike_alert(s, now, device),
            device == text::opt_str(device_name),
            now == figures.now_iso@,
            views(out@) == budgets + sessions.sessions@.take(i as int).filter(p).map_values(f),
        decreases sessions.sessions@.len() - i,
    {
        let s = &sessions.sessions[i];
        let ghost before = sessions.sessions@.take(i as int).filter(p);
        let ghost had = out@;
        proof {
            lemma_filter_step(sessions.sessions@, i as int, p);
        }
        if s.cpu_usage.value.reaches(&thresholds.cpu_spike_pct) {
            out.push(cpu_spike_alert(s, figures.now_iso.as_str(), device_name));
            assert(views(out@) =~= views(had).push(out@.last()@));
            assert(budgets + before.push(*s).map_values(f) =~= (budgets + before.map_values(
                f,
            )).push(out@.last()@));
        }
        i = i + 1;
    }
    proof {
        assert(sessions.sessions@.take(i as int) =~= sessions.sessions@);
        assert(budgets =~= due_alerts(*scan, *sessions, *thresholds, device, *figures).take(
            budgets.len() as int,
        ));
        assert(views(out@) =~= due_alerts(*scan, *sessions, *thresholds, device, *figures));
    }
    let ghost all = out@;
    out.truncate(MAX_ALERTS);
    assert(views(out@) =~= capped(views(all)));
    out
}

/// The identifiers of the alerts.
pub open spec fn ids(alerts: Seq<AlertView>) -> Seq<Seq<char>> {
    alerts.map_values(|a: AlertView| a.id)
}

/// The suppression keys of the alerts.
pub open spec fn keys(alerts: Seq<AlertView>) -> Seq<Option<Seq<char>>> {
    alerts.map_values(|a: AlertView| a.suppression_key)
}

/// Alerts computed from the same amounts in the same week carry the same identifiers and the same
/// suppression keys, whatever the time.
pub proof fn lemma_keys_ignore_the_time(
    scan: ScanResult,
    sessions: SessionsSnapshot,
    thresholds: AlertThresholds,
    device: Option<Seq<char>>,
    a: Figures,
    b: Figures,
)
    requires
        a.today.value == b.today.value,
        a.week.value == b.week.value,
        a.week_label@ == b.week_label@,
    ensures
        ids(capped(due_alerts(scan, sessions, thresholds, device, a))) == ids(
            capped(due_alerts(scan, sessions, thresholds, device, b)),
        ),
        keys(capped(due_alerts(scan, sessions, thresholds, device, a))) == keys(
            capped(due_alerts(scan, sessions, thresholds, device, b)),
        ),
{
    let x = due_alerts(scan, sessions, thresholds, device, a);
    let y = due_alerts(scan, sessions, thresholds, device, b);
    assert(ids(capped(x)) =~= ids(capped(y)));
    assert(keys(capped(x)) =~= keys(capped(y)));
}

/// The last seven days begin on the same day at any time of a day.
pub proof fn lemma_week_begins_by_the_day(a: Moment, b: Moment)
    requires
        a.wf(),
        b.wf(),
        a.day_of() == b.day_of(),
    ensures
        week_cutoff(a) == week_cutoff(b),
{
}

/// The alert without its time.
pub open spec fn timeless(a: AlertView) -> AlertView {
    AlertView { created_at: Seq::empty(), ..a }
}

/// Alerts computed from one scan and one set of sessions at two times of one UTC day differ in their
/// time only: they carry the same identifiers and the same suppression keys, however amounts are
/// added up and printed.
pub proof fn lemma_one_day_has_one_set_of_keys(
    scan: ScanResult,
    sessions: SessionsSnapshot,
    thresholds: AlertThresholds,
    device: Option<Seq<char>>,
    sum: spec_fn(Seq<Double>) -> Double,
    print: spec_fn(Double) -> Seq<char>,
    a: Figures,
    at_a: Moment,
    b: Figures,
    at_b: Moment,
)
    requires
        at_a.wf(),
        at_b.wf(),
        at_a.day_of() == at_b.day_of(),
        figures_of(a, scan, at_a, sum, print),
        figures_of(b, scan, at_b, sum, print),
    ensures
        capped(due_alerts(scan, sessions, thresholds, device, a)).map_values(
            |x: AlertView| timeless(x),
        ) == capped(due_alerts(scan, sessions, thresholds, device, b)).map_values(
            |x: AlertView| timeless(x),
        ),
        ids(capped(due_alerts(scan, sessions, thresholds, device, a))) == ids(
            capped(due_alerts(scan, sessions, thresholds, device, b)),
        ),
        keys(capped(due_alerts(scan, sessions, thresholds, device, a))) == keys(
            capped(due_alerts(scan, sessions, thresholds, device, b)),
        ),
{
    lemma_week_begins_by_the_day(at_a, at_b);
    lemma_keys_ignore_the_time(scan, sessions, thresholds, device, a, b);
    let x = due_alerts(scan, sessions, thresholds, device, a);
    let y = due_alerts(scan, sessions, thresholds, device, b);
    assert(x.len() == y.len());
    assert forall|i: int| 0 <= i < x.len() implies timeless(#[trigger] x[i]) == timeless(y[i]) by {}
    assert(capped(x).map_values(|v: AlertView| timeless(v)) =~= capped(y).map_values(
        |v: AlertView| timeless(v),
    ));
}

/// Where no budget is set, every alert speaks of a session.
pub proof fn lemma_no_budget_no_budget_alert(
    scan: ScanResult,
    sessions: SessionsSnapshot,
    thresholds: AlertThresholds,
    device: Option<Seq<char>>,
    figures: Figures,
)
    requires
        thresholds.daily_budget_usd is None,
        thresholds.weekly_budget_usd is None,
    ensures
        forall|i: int|
            0 <= i < due_alerts(scan, sessions, thresholds, device, figures).len() ==> (
            #[trigger] due_alerts(scan, sessions, thresholds, device, figures)[i]).source_kind
                == Some("session"@),
{
}

/// An entry that counts messages adds nothing to the day's costs or to the week's.
pub proof fn lemma_message_counts_cost_nothing(
    entries: Seq<DailyEntry>,
    days: Seq<Option<i32>>,
    bucket: DailyEntry,
    day: Option<i32>,
    today: Seq<char>,
    cutoff: int,
)
    requires
        entries.len() == days.len(),
        bucket.is_bucket(),
    ensures
        entries.push(bucket).filter(spent_on(today)).map_values(cost_of()) == entries.filter(
            spent_on(today),
        ).map_values(cost_of()),
        costs_from(entries.push(bucket), days.push(day), cutoff) == costs_from(
            entries,
            days,
            cutoff,
        ),
{
    reveal(Seq::filter);
    assert(entries.push(bucket).drop_last() =~= entries);
    assert(dated(entries.push(bucket), days.push(day)).drop_last() =~= dated(entries, days));
}

/// A session name is never shown longer than 32 characters.
pub proof fn lemma_short_name_is_short(name: Seq<char>)
    ensures
        short_name_of(name).len() <= 32,
{
    reveal_strlit("...");
}

/// `s` neither begins with a dash nor holds two in a row.
pub open spec fn single_dashes(s: Seq<char>) -> bool {
    &&& s.len() > 0 ==> s[0] != '-'
    &&& forall|i: int| 0 <= i < s.len() - 1 && #[trigger] s[i] == '-' ==> s[i + 1] != '-'
}

proof fn lemma_collapsed(s: Seq<char>)
    ensures
        single_dashes(collapsed(s)),
        forall|i: int|
            0 <= i < collapsed(s).len() ==> #[trigger] collapsed(s)[i] == '-' || text::alphanumeric(
                collapsed(s)[i],
            ),
    decreases s.len(),
{
    if s.len() > 0 {
        lemma_collapsed(s.drop_last());
    }
}

proof fn lemma_undashed(s: Seq<char>)
    ensures
        undashed(s).len() <= s.len(),
        undashed(s) == s.take(undashed(s).len() as int),
        undashed(s).len() > 0 ==> undashed(s).last() != '-',
    decreases s.len(),
{
    if s.len() > 0 && s.last() == '-' {
        lemma_undashed(s.drop_last());
        assert(s.drop_last().take(undashed(s).len() as int) =~= s.take(undashed(s).len() as int));
    } else {
        assert(s.take(s.len() as int) =~= s);
    }
}

/// The identifier of a project is never empty, never begins or ends with a dash and never holds
/// two dashes in a row; unless it is `local-workspace`, it holds letters, numbers and dashes only.
pub proof fn lemma_slug_shape(lower: Seq<char>)
    ensures
        slug_of(lower).len() > 0,
        single_dashes(slug_of(lower)),
        slug_of(lower).last() != '-',
        slug_of(lower) == "local-workspace"@ || forall|i: int|
            0 <= i < slug_of(lower).len() ==> #[trigger] slug_of(lower)[i] == '-'
                || text::alphanumeric(slug_of(lower)[i]),
{
    reveal_strlit("local-workspace");
    lemma_collapsed(lower);
    lemma_undashed(collapsed(lower));
}

proof fn lemma_collapsed_is_kept(s: Seq<char>)
    requires
        single_dashes(s),
        forall|i: int| 0 <= i < s.len() ==> #[trigger] s[i] == '-' || text::alphanumeric(s[i]),
    ensures
        collapsed(s) == s,
    decreases s.len(),
{
    if s.len() > 0 {
        let head = s.drop_last();
        assert forall|i: int| 0 <= i < head.len() - 1 && #[trigger] head[i] == '-' implies head[i
            + 1] != '-' by {
            assert(s[i] == '-');
        }
        assert forall|i: int| 0 <= i < head.len() implies #[trigger] head[i] == '-'
            || text::alphanumeric(head[i]) by {
            assert(s[i] == head[i]);
        }
        lemma_collapsed_is_kept(head);
        assert(s[s.len() - 1] == '-' || text::alphanumeric(s.last()));
        if s.last() == '-' {
            assert(s.len() > 1);
            assert(s[s.len() - 2] != '-');
        }
        assert(collapsed(s) =~= s);
    }
}

/// The identifier of an identifier is the identifier itself.
pub proof fn lemma_slug_is_kept(lower: Seq<char>)
    ensures
        slug_of(slug_of(lower)) == slug_of(lower),
{
    let s = slug_of(lower);
    lemma_slug_shape(lower);
    if s == "local-workspace"@ {
        reveal_strlit("local-workspace");
        assert forall|i: int| 0 <= i < s.len() implies #[trigger] s[i] == '-' || text::alphanumeric(
            s[i],
        ) by {}
    }
    lemma_collapsed_is_kept(s);
}

/// The text holds ASCII characters only, none of them a capital letter.
spec fn plain(s: Seq<char>) -> bool {
    forall|i: int|
        0 <= i < s.len() ==> (#[trigger] s[i]) as u32 <= 127 && text::lower_letter(s[i]) == s[i]
}

proof fn lemma_collapsed_is_plain(s: Seq<char>)
    requires
        plain(s),
    ensures
        plain(collapsed(s)),
    decreases s.len(),
{
    if s.len() > 0 {
        let head = s.drop_last();
        assert forall|i: int| 0 <= i < head.len() implies (#[trigger] head[i]) as u32 <= 127
            && text::lower_letter(head[i]) == head[i] by {
            assert(s[i] == head[i]);
        }
        lemma_collapsed_is_plain(head);
        assert(s[s.len() - 1] as u32 <= 127);
    }
}

/// A project of an ASCII name has an identifier that is its own identifier: taking it once more,
/// lower case and all, changes nothing. So has any project whose identifier is its own lower-case
/// form.
pub proof fn lemma_project_id_is_kept(project: Seq<char>)
    requires
        text::ascii(project) || text::lowercase_of(slug_of(text::lowercase_of(project))) == slug_of(
            text::lowercase_of(project),
        ),
    ensures
        ({
            let id = slug_of(text::lowercase_of(project));
            slug_of(text::lowercase_of(id)) == id
        }),
{
    let lower = text::lowercase_of(project);
    let id = slug_of(lower);
    if text::ascii(project) {
        text::lemma_lowercase_is_kept(project);
        assert forall|i: int| 0 <= i < lower.len() implies (#[trigger] lower[i]) as u32 <= 127
            && text::lower_letter(lower[i]) == lower[i] by {
            assert(text::lowered(lower)[i] == lower[i]);
        }
        lemma_collapsed_is_plain(lower);
        lemma_undashed(collapsed(lower));
        assert(plain(id)) by {
            if id == "local-workspace"@ {
                reveal_strlit("local-workspace");
            }
        }
        assert(text::lowered(id) =~= id);
    }
    lemma_slug_is_kept(lower);
}

/// The alert speaks of a day's budget.
spec fn is_daily(a: AlertView) -> bool {
    text::begins(a.id, "budget-daily-"@)
}

/// The alert speaks of a week's budget.
spec fn is_weekly(a: AlertView) -> bool {
    text::begins(a.id, "budget-weekly-"@)
}

/// The alerts of the two budgets and of the sessions are told apart by how their identifiers begin.
proof fn lemma_kinds_of_alerts(
    key: Seq<char>,
    spend: Seq<char>,
    limit: Seq<char>,
    now: Seq<char>,
    device: Option<Seq<char>>,
    s: LiveSession,
)
    ensures
        is_daily(daily_alert(key, spend, limit, now, device)),
        !(is_weekly(daily_alert(key, spend, limit, now, device))),
        is_weekly(weekly_alert(key, spend, limit, now, device)),
        !(is_daily(weekly_alert(key, spend, limit, now, device))),
        !(is_daily(spike_alert(s, now, device))),
        !(is_weekly(spike_alert(s, now, device))),
{
    let d = daily_alert(key, spend, limit, now, device).id;
    let w = weekly_alert(key, spend, limit, now, device).id;
    let p = spike_alert(s, now, device).id;
    reveal_strlit("budget-daily-");
    reveal_strlit("budget-weekly-");
    reveal_strlit("session-spike-");
    text::lemma_parts_are_found(Seq::empty(), "budget-daily-"@, key);
    text::lemma_parts_are_found(Seq::empty(), "budget-weekly-"@, key);
    if text::begins(d, "budget-weekly-"@) {
        assert(d.subrange(0, 14)[7] == 'd');
    }
    if text::begins(w, "budget-daily-"@) {
        assert(w.subrange(0, 13)[7] == 'w');
    }
    if text::begins(p, "budget-daily-"@) {
        assert(p.subrange(0, 13)[0] == 's');
    }
    if text::begins(p, "budget-weekly-"@) {
        assert(p.subrange(0, 14)[0] == 's');
    }
}

/// Each alert that is due is that of the day's budget, that of the week's or that of a session.
proof fn lemma_due_alerts_are(
    scan: ScanResult,
    sessions: SessionsSnapshot,
    thresholds: AlertThresholds,
    device: Option<Seq<char>>,
    figures: Figures,
    i: int,
)
    requires
        0 <= i < due_alerts(scan, sessions, thresholds, device, figures).len(),
    ensures
        ({
            let a = due_alerts(scan, sessions, thresholds, device, figures)[i];
            ||| breached(thresholds.daily_budget_usd, figures.today) && i == 0 && a == daily_alert(
                scan.today_key@,
                figures.today.text@,
                (thresholds.daily_budget_usd->0).text@,
                figures.now_iso@,
                device,
            )
            ||| breached(thresholds.weekly_budget_usd, figures.week) && a == weekly_alert(
                figures.week_label@,
                figures.week.text@,
                (thresholds.weekly_budget_usd->0).text@,
                figures.now_iso@,
                device,
            )
            ||| exists|k: int|
                0 <= k < sessions.sessions@.len() && (
                #[trigger] sessions.sessions@[k]).cpu_usage.value.from_up(thresholds.cpu_spike_pct)
                    && a == spike_alert(sessions.sessions@[k], figures.now_iso@, device)
        }),
{
    let due = due_alerts(scan, sessions, thresholds, device, figures);
    let p = spiking(thresholds.cpu_spike_pct);
    let hot = sessions.sessions@.filter(p);
    let budgets = due.len() - hot.len();
    if i >= budgets {
        let s = hot[i - budgets];
        assert(due[i] == spike_alert(s, figures.now_iso@, device));
        lemma_filtered(sessions.sessions@, p, i - budgets);
        let k = choose|k: int|
            0 <= k < sessions.sessions@.len() && #[trigger] sessions.sessions@[k] == s;
        assert(sessions.sessions@[k].cpu_usage.value.from_up(thresholds.cpu_spike_pct));
    }
}

proof fn lemma_filtered<A>(s: Seq<A>, p: spec_fn(A) -> bool, i: int)
    requires
        0 <= i < s.filter(p).len(),
    ensures
        p(s.filter(p)[i]),
        exists|k: int| 0 <= k < s.len() && #[trigger] s[k] == s.filter(p)[i],
    decreases s.len(),
{
    reveal(Seq::filter);
    if s.len() > 0 {
        let rest = s.drop_last();
        if i < rest.filter(p).len() {
            lemma_filtered(rest, p, i);
            let k = choose|k: int| 0 <= k < rest.len() && #[trigger] rest[k] == rest.filter(p)[i];
            assert(s[k] == s.filter(p)[i]);
        } else {
            assert(s[s.len() - 1] == s.filter(p)[i]);
        }
    }
}

proof fn lemma_kept_by_filter<A>(s: Seq<A>, p: spec_fn(A) -> bool, k: int)
    requires
        0 <= k < s.len(),
        p(s[k]),
    ensures
        exists|i: int| 0 <= i < s.filter(p).len() && #[trigger] s.filter(p)[i] == s[k],
    decreases s.len(),
{
    reveal(Seq::filter);
    let rest = s.drop_last();
    if k < rest.len() {
        lemma_kept_by_filter(rest, p, k);
        let i = choose|i: int|
            0 <= i < rest.filter(p).len() && #[trigger] rest.filter(p)[i] == rest[k];
        assert(s.filter(p)[i] == s[k]);
    } else {
        assert(s.filter(p)[s.filter(p).len() - 1] == s[k]);
    }
}

/// With a daily limit above zero, an alert of the day's budget is due if and only if the spend of
/// today is above that limit, whatever the last seven days cost.
pub proof fn lemma_daily_alert_rests_on_today(
    scan: ScanResult,
    sessions: SessionsSnapshot,
    thresholds: AlertThresholds,
    device: Option<Seq<char>>,
    figures: Figures,
    limit: Measured,
)
    requires
        thresholds.daily_budget_usd == Some(limit),
        limit.value.value() > 0,
        !limit.value.is_nan(),
    ensures
        (exists|i: int|
            0 <= i < due_alerts(scan, sessions, thresholds, device, figures).len()
                && text::begins(
                (#[trigger] due_alerts(scan, sessions, thresholds, device, figures)[i]).id,
                "budget-daily-"@,
            )) <==> !figures.today.value.is_nan() && figures.today.value.value()
            > limit.value.value(),
{
    let due = due_alerts(scan, sessions, thresholds, device, figures);
    let zero = Double { bits: 0 };
    assert(crate::number::magnitude(0) == 0);
    assert(zero.value() == 0 && !zero.is_nan());
    assert forall|i: int| 0 <= i < due.len() && text::begins(
        (#[trigger] due[i]).id,
        "budget-daily-"@,
    ) implies !figures.today.value.is_nan() && figures.today.value.value()
        > limit.value.value() by {
        lemma_due_alerts_are(scan, sessions, thresholds, device, figures, i);
        lemma_kinds_of_alerts(
            figures.week_label@,
            figures.week.text@,
            (thresholds.weekly_budget_usd->0).text@,
            figures.now_iso@,
            device,
            arbitrary(),
        );
        if !breached(thresholds.daily_budget_usd, figures.today) {
            if due[i] != weekly_alert(
                figures.week_label@,
                figures.week.text@,
                (thresholds.weekly_budget_usd->0).text@,
                figures.now_iso@,
                device,
            ) {
                let k = choose|k: int|
                    0 <= k < sessions.sessions@.len() && (
                    #[trigger] sessions.sessions@[k]).cpu_usage.value.from_up(
                        thresholds.cpu_spike_pct,
                    ) && due[i] == spike_alert(sessions.sessions@[k], figures.now_iso@, device);
                lemma_kinds_of_alerts(
                    Seq::empty(),
                    Seq::empty(),
                    Seq::empty(),
                    figures.now_iso@,
                    device,
                    sessions.sessions@[k],
                );
            }
        }
    }
    if !figures.today.value.is_nan() && figures.today.value.value() > limit.value.value() {
        lemma_kinds_of_alerts(
            scan.today_key@,
            figures.today.text@,
            limit.text@,
            figures.now_iso@,
            device,
            arbitrary(),
        );
        assert(text::begins(due[0].id, "budget-daily-"@));
    }
}

/// With a weekly limit above zero, an alert of the week's budget is due if and only if the spend of
/// the last seven days is above that limit, whatever today's spend is.
pub proof fn lemma_weekly_alert_rests_on_the_week(
    scan: ScanResult,
    sessions: SessionsSnapshot,
    thresholds: AlertThresholds,
    device: Option<Seq<char>>,
    figures: Figures,
    limit: Measured,
)
    requires
        thresholds.weekly_budget_usd == Some(limit),
        limit.value.value() > 0,
        !limit.value.is_nan(),
    ensures
        (exists|i: int|
            0 <= i < due_alerts(scan, sessions, thresholds, device, figures).len()
                && text::begins(
                (#[trigger] due_alerts(scan, sessions, thresholds, device, figures)[i]).id,
                "budget-weekly-"@,
            )) <==> !figures.week.value.is_nan() && figures.week.value.value() > limit.value.value(),
{
    let due = due_alerts(scan, sessions, thresholds, device, figures);
    let zero = Double { bits: 0 };
    assert(crate::number::magnitude(0) == 0);
    assert(zero.value() == 0 && !zero.is_nan());
    assert forall|i: int| 0 <= i < due.len() && text::begins(
        (#[trigger] due[i]).id,
        "budget-weekly-"@,
    ) implies !figures.week.value.is_nan() && figures.week.value.value() > limit.value.value() by {
        lemma_due_alerts_are(scan, sessions, thresholds, device, figures, i);
        lemma_kinds_of_alerts(
            scan.today_key@,
            figures.today.text@,
            (thresholds.daily_budget_usd->0).text@,
            figures.now_iso@,
            device,
            arbitrary(),
        );
        if !breached(thresholds.weekly_budget_usd, figures.week) {
            if due[i] != daily_alert(
                scan.today_key@,
                figures.today.text@,
                (thresholds.daily_budget_usd->0).text@,
                figures.now_iso@,
                device,
            ) {
                let k = choose|k: int|
                    0 <= k < sessions.sessions@.len() && (
                    #[trigger] sessions.sessions@[k]).cpu_usage.value.from_up(
                        thresholds.cpu_spike_pct,
                    ) && due[i] == spike_alert(sessions.sessions@[k], figures.now_iso@, device);
                lemma_kinds_of_alerts(
                    Seq::empty(),
                    Seq::empty(),
                    Seq::empty(),
                    figures.now_iso@,
                    device,
                    sessions.sessions@[k],
                );
            }
        }
    }
    if !figures.week.value.is_nan() && figures.week.value.value() > limit.value.value() {
        lemma_kinds_of_alerts(
            figures.week_label@,
            figures.week.text@,
            limit.text@,
            figures.now_iso@,
            device,
            arbitrary(),
        );
        let at: int = if breached(thresholds.daily_budget_usd, figures.today) {
            1
        } else {
            0
        };
        assert(text::begins(due[at].id, "budget-weekly-"@));
    }
}

/// A limit that is absent, zero or below never alerts.
pub proof fn lemma_no_limit_no_breach(limit: Option<Measured>, spend: Measured)
    requires
        limit is None || limit->0.value.value() <= 0 || limit->0.value.is_nan(),
    ensures
        !breached(limit, spend),
{
    let zero = Double { bits: 0 };
    assert(crate::number::magnitude(0) == 0);
    assert(zero.value() == 0);
}

/// What a budget alert says: the amounts of its own budget and period, under the day's or the week's
/// own key.
pub proof fn lemma_budget_alerts_say_their_amounts(
    scan: ScanResult,
    sessions: SessionsSnapshot,
    thresholds: AlertThresholds,
    device: Option<Seq<char>>,
    figures: Figures,
)
    ensures
        ({
            let due = due_alerts(scan, sessions, thresholds, device, figures);
            let daily = breached(thresholds.daily_budget_usd, figures.today);
            let weekly = breached(thresholds.weekly_budget_usd, figures.week);
            let at: int = if daily {
                1
            } else {
                0
            };
            &&& daily ==> {
                &&& due[0].id == "budget-daily-"@ + scan.today_key@
                &&& due[0].suppression_key == Some("budget-daily:"@ + scan.today_key@)
                &&& due[0].grouping_key == Some("budget:daily"@)
                &&& due[0].source_id == Some("daily:"@ + scan.today_key@)
                &&& due[0].alert_type == "Daily Budget Exceeded"@
                &&& due[0].title == "Daily budget exceeded — $"@ + figures.today.text@
                &&& due[0].message == "Today's spend of $"@ + figures.today.text@
                    + " is above your daily budget of $"@ + (thresholds.daily_budget_usd->0).text@
                    + "."@
                &&& due[0].source_kind == Some("budget"@)
                &&& due[0].severity == "Warning"@
                &&& due[0].created_at == figures.now_iso@
                &&& due[0].related_device_name == device
            }
            &&& weekly ==> {
                &&& due[at].id == "budget-weekly-"@ + figures.week_label@
                &&& due[at].suppression_key == Some("budget-weekly:"@ + figures.week_label@)
                &&& due[at].grouping_key == Some("budget:weekly"@)
                &&& due[at].source_id == Some("weekly:"@ + figures.week_label@)
                &&& due[at].alert_type == "Weekly Budget Exceeded"@
                &&& due[at].title == "Weekly budget exceeded — $"@ + figures.week.text@
                &&& due[at].message == "Last 7 days of spend totals $"@ + figures.week.text@
                    + ", above your weekly budget of $"@ + (thresholds.weekly_budget_usd->0).text@
                    + "."@
                &&& due[at].source_kind == Some("budget"@)
                &&& due[at].severity == "Warning"@
                &&& due[at].created_at == figures.now_iso@
                &&& due[at].related_device_name == device
            }
        }),
{
}

/// A session alerts if and only if its share of the CPU reaches the threshold: its alert is due then,
/// under its own identifier, and every alert of a session is that of one that reaches it.
pub proof fn lemma_session_alerts_rest_on_the_cpu(
    scan: ScanResult,
    sessions: SessionsSnapshot,
    thresholds: AlertThresholds,
    device: Option<Seq<char>>,
    figures: Figures,
    k: int,
)
    requires
        0 <= k < sessions.sessions@.len(),
        !sessions.sessions@[k].cpu_usage.value.is_nan(),
        !thresholds.cpu_spike_pct.is_nan(),
    ensures
        ({
            let due = due_alerts(scan, sessions, thresholds, device, figures);
            let s = sessions.sessions@[k];
            &&& s.cpu_usage.value.value() >= thresholds.cpu_spike_pct.value() ==> exists|i: int|
                0 <= i < due.len() && (#[trigger] due[i]).source_id == Some(s.id@)
                    && due[i].source_kind == Some("session"@) && due[i].id == "session-spike-"@
                    + s.id@
            &&& forall|i: int|
                0 <= i < due.len() && (#[trigger] due[i]).source_kind == Some("session"@)
                    ==> exists|j: int|
                    0 <= j < sessions.sessions@.len() && due[i].source_id == Some(
                        (#[trigger] sessions.sessions@[j]).id@,
                    ) && sessions.sessions@[j].cpu_usage.value.value()
                        >= thresholds.cpu_spike_pct.value()
        }),
{
    let due = due_alerts(scan, sessions, thresholds, device, figures);
    let s = sessions.sessions@[k];
    let p = spiking(thresholds.cpu_spike_pct);
    let hot = sessions.sessions@.filter(p);
    let budgets = due.len() - hot.len();
    reveal_strlit("budget");
    reveal_strlit("session");
    assert("budget"@.len() != "session"@.len());
    if s.cpu_usage.value.value() >= thresholds.cpu_spike_pct.value() {
        lemma_kept_by_filter(sessions.sessions@, p, k);
        let i = choose|i: int| 0 <= i < hot.len() && #[trigger] hot[i] == s;
        assert(due[budgets + i] == spike_alert(s, figures.now_iso@, device));
    }
    assert forall|i: int|
        0 <= i < due.len() && (#[trigger] due[i]).source_kind == Some("session"@) implies exists|
        j: int,
    |
        0 <= j < sessions.sessions@.len() && due[i].source_id == Some(
            (#[trigger] sessions.sessions@[j]).id@,
        ) && sessions.sessions@[j].cpu_usage.value.value() >= thresholds.cpu_spike_pct.value() by {
        lemma_due_alerts_are(scan, sessions, thresholds, device, figures, i);
        let j = choose|j: int|
            0 <= j < sessions.sessions@.len() && (
            #[trigger] sessions.sessions@[j]).cpu_usage.value.from_up(thresholds.cpu_spike_pct)
                && due[i] == spike_alert(sessions.sessions@[j], figures.now_iso@, device);
        assert(due[i].source_id == Some(sessions.sessions@[j].id@));
    }
}

/// One session more that reaches the threshold adds one alert behind the others; one that does not
/// adds none.
pub proof fn lemma_each_hot_session_adds_an_alert(
    scan: ScanResult,
    sessions: SessionsSnapshot,
    more: SessionsSnapshot,
    s: LiveSession,
    thresholds: AlertThresholds,
    device: Option<Seq<char>>,
    figures: Figures,
)
    requires
        more.sessions@ == sessions.sessions@.push(s),
        !s.cpu_usage.value.is_nan(),
        !thresholds.cpu_spike_pct.is_nan(),
    ensures
        ({
            let before = due_alerts(scan, sessions, thresholds, device, figures);
            let after = due_alerts(scan, more, thresholds, device, figures);
            &&& s.cpu_usage.value.value() < thresholds.cpu_spike_pct.value() ==> after == before
            &&& s.cpu_usage.value.value() >= thresholds.cpu_spike_pct.value() ==> after
                == before.push(after.last()) && after.last().id == "session-spike-"@ + s.id@
        }),
{
    reveal(Seq::filter);
    let before = due_alerts(scan, sessions, thresholds, device, figures);
    let after = due_alerts(scan, more, thresholds, device, figures);
    assert(more.sessions@.drop_last() =~= sessions.sessions@);
    if s.cpu_usage.value.value() >= thresholds.cpu_spike_pct.value() {
        assert(after =~= before.push(spike_alert(s, figures.now_iso@, device)));
    } else {
        assert(after =~= before);
    }
}

/// What the alert of a session says: the session, its provider and project, its share of the CPU and
/// the device, `desktop` where the device has no name.
pub proof fn lemma_session_alert_says(s: LiveSession, now: Seq<char>, device: Option<Seq<char>>)
    ensures
        ({
            let a = spike_alert(s, now, device);
            &&& a.title == short_name_of(s.name@) + " is consuming high CPU"@
            &&& a.message == "Process CPU is "@ + s.cpu_usage.text@ + "% for "@ + s.provider@
                + " in "@ + s.project@ + "."@
            &&& a.created_at == now
            &&& a.related_project_name == Some(s.project@)
            &&& a.related_project_id == Some(slug_of(text::lowercase_of(s.project@)))
            &&& a.related_session_id == Some(s.id@)
            &&& a.related_session_name == Some(s.name@)
            &&& a.related_provider == Some(s.provider@)
            &&& a.related_device_name == device
            &&& a.grouping_key == Some("usage:"@ + s.provider@)
            &&& device matches Some(d) ==> a.suppression_key == Some(
                "usage-spike:"@ + s.id@ + ":"@ + d,
            )
            &&& device is None ==> a.suppression_key == Some(
                "usage-spike:"@ + s.id@ + ":"@ + "desktop"@,
            )
        }),
{
}

/// Twenty alerts at most are sent, and they are the first; fewer are sent all.
pub proof fn lemma_first_twenty_are_sent(due: Seq<AlertView>)
    ensures
        due.len() <= 20 ==> capped(due) == due,
        due.len() > 20 ==> capped(due).len() == 20,
        forall|i: int| 0 <= i < capped(due).len() ==> #[trigger] capped(due)[i] == due[i],
{
}

/// One entry more adds its cost to the day's exactly where it is of that day, has a cost and counts
/// no messages.
pub proof fn lemma_entry_costs_its_day(entries: Seq<DailyEntry>, e: DailyEntry, today: Seq<char>)
    ensures
        ({
            let before = entries.filter(spent_on(today)).map_values(cost_of());
            let after = entries.push(e).filter(spent_on(today)).map_values(cost_of());
            &&& e.date@ == today && e.model@ != "__claude_msg__"@ && e.cost_usd is Some ==> after
                == before.push(e.cost_usd->0)
            &&& e.date@ != today || e.model@ == "__claude_msg__"@ || e.cost_usd is None ==> after
                == before
        }),
{
    reveal(Seq::filter);
    assert(entries.push(e).drop_last() =~= entries);
    let before = entries.filter(spent_on(today)).map_values(cost_of());
    let after = entries.push(e).filter(spent_on(today)).map_values(cost_of());
    if e.date@ == today && e.model@ != "__claude_msg__"@ && e.cost_usd is Some {
        assert(after =~= before.push(e.cost_usd->0));
    } else {
        assert(after =~= before);
    }
}

/// One entry more adds its cost to the last days' exactly where its day can be read and is not before
/// the first of them, it has a cost and counts no messages.
pub proof fn lemma_entry_costs_its_week(
    entries: Seq<DailyEntry>,
    days: Seq<Option<i32>>,
    e: DailyEntry,
    day: Option<i32>,
    cutoff: int,
)
    requires
        entries.len() == days.len(),
    ensures
        ({
            let before = costs_from(entries, days, cutoff);
            let after = costs_from(entries.push(e), days.push(day), cutoff);
            let counts = day is Some && day->0 >= cutoff && e.model@ != "__claude_msg__"@
                && e.cost_usd is Some;
            &&& counts ==> after == before.push(e.cost_usd->0)
            &&& !counts ==> after == before
        }),
{
    reveal(Seq::filter);
    let before = costs_from(entries, days, cutoff);
    let after = costs_from(entries.push(e), days.push(day), cutoff);
    assert(dated(entries.push(e), days.push(day)).drop_last() =~= dated(entries, days));
    assert(dated(entries.push(e), days.push(day)).last() == (e, day));
    let counts = day is Some && day->0 >= cutoff && e.model@ != "__claude_msg__"@
        && e.cost_usd is Some;
    if counts {
        assert(after =~= before.push(e.cost_usd->0));
    } else {
        assert(after =~= before);
    }
}

/// The last seven days begin seven days before the day of the moment, wherever the calendar reaches
/// that far back; each entry's day is the one that its date names.
pub proof fn lemma_week_is_seven_days(now: Moment, entries: Seq<DailyEntry>)
    requires
        now.wf(),
    ensures
        now.secs - 604_800 >= clock::FIRST_SECOND ==> week_cutoff(now) == now.day_of() - 7,
        days_named(entries).len() == entries.len(),
        forall|i: int|
            0 <= i < entries.len() ==> #[trigger] days_named(entries)[i] == clock::parsed_day(
                entries[i].date@,
                "%Y-%m-%d"@,
            ),
{
}

/// A week's label holds its year and its week: four digits, `-W` and two digits, which read as them;
/// so two weeks never share a label.
pub proof fn lemma_label_reads_back(week: (i32, u32))
    requires
        0 <= week.0 <= 9999,
        week.1 <= 99,
    ensures
        ({
            let l = week_label_of(week);
            &&& l.len() == 8
            &&& l[4] == '-' && l[5] == 'W'
            &&& text::number_read(l.take(4)) == week.0
            &&& text::number_read(l.skip(6)) == week.1
        }),
{
    let l = week_label_of(week);
    let (y, w) = (text::padded_of(week.0 as int, 4), text::padded_of(week.1 as int, 2));
    text::lemma_padded_reads_back(week.0 as int, 4);
    text::lemma_padded_reads_back(week.1 as int, 2);
    reveal_with_fuel(text::decimal_of, 5);
    text::lemma_zero_filled(text::decimal_of(week.0 as nat), 4);
    text::lemma_zero_filled(text::decimal_of(week.1 as nat), 2);
    reveal_strlit("-W");
    assert(y.len() == 4 && w.len() == 2);
    assert(l.take(4) =~= y);
    assert(l.skip(6) =~= w);
}

/// A name of up to 32 characters is shown whole; a longer one by its first 29 and three dots.
pub proof fn lemma_long_names_end_in_dots(name: Seq<char>)
    ensures
        name.len() <= 32 ==> short_name_of(name) == name,
        name.len() > 32 ==> short_name_of(name).len() == 32 && short_name_of(name).take(29)
            == name.take(29) && short_name_of(name).skip(29) == seq!['.', '.', '.'],
{
    reveal_strlit("...");
    if name.len() > 32 {
        assert(short_name_of(name).take(29) =~= name.take(29));
        assert(short_name_of(name).skip(29) =~= seq!['.', '.', '.']);
    }
}

/// The letters and numbers of a text, in their order.
pub open spec fn signs_of(s: Seq<char>) -> Seq<char> {
    s.filter(|c: char| text::alphanumeric(c))
}

proof fn lemma_signs_step(s: Seq<char>, c: char)
    ensures
        text::alphanumeric(c) ==> signs_of(s.push(c)) == signs_of(s).push(c),
        !text::alphanumeric(c) ==> signs_of(s.push(c)) == signs_of(s),
{
    reveal(Seq::filter);
    assert(s.push(c).drop_last() =~= s);
}

proof fn lemma_collapsed_keeps_the_signs(s: Seq<char>)
    ensures
        signs_of(collapsed(s)) == signs_of(s),
    decreases s.len(),
{
    if s.len() > 0 {
        let rest = s.drop_last();
        lemma_collapsed_keeps_the_signs(rest);
        assert(rest.push(s.last()) =~= s);
        lemma_signs_step(rest, s.last());
        lemma_signs_step(collapsed(rest), dashed(s.last()));
    }
}

proof fn lemma_undashed_keeps_the_signs(s: Seq<char>)
    ensures
        signs_of(undashed(s)) == signs_of(s),
    decreases s.len(),
{
    if s.len() > 0 && s.last() == '-' {
        lemma_undashed_keeps_the_signs(s.drop_last());
        assert(s.drop_last().push('-') =~= s);
        lemma_signs_step(s.drop_last(), '-');
    }
}

/// An identifier holds the letters and numbers of its text, all of them and in their order; where
/// there are none it is `local-workspace`.
pub proof fn lemma_identifier_keeps_the_signs(lower: Seq<char>)
    ensures
        signs_of(lower).len() > 0 ==> signs_of(slug_of(lower)) == signs_of(lower),
        signs_of(lower).len() == 0 ==> slug_of(lower) == "local-workspace"@,
{
    reveal(Seq::filter);
    lemma_collapsed_keeps_the_signs(lower);
    lemma_undashed_keeps_the_signs(collapsed(lower));
    let s = undashed(collapsed(lower));
    if s.len() == 0 {
        assert(signs_of(s).len() == 0);
    } else {
        lemma_collapsed(lower);
        lemma_undashed(collapsed(lower));
        let rest = s.drop_last();
        assert(rest.push(s.last()) =~= s);
        assert(collapsed(lower)[s.len() - 1] == s.last());
        lemma_signs_step(rest, s.last());
    }
}

proof fn lemma_word_passes(head: Seq<char>, word: Seq<char>)
    requires
        forall|i: int| 0 <= i < word.len() ==> text::alphanumeric(#[trigger] word[i]),
    ensures
        collapsed(head + word) == collapsed(head) + word,
    decreases word.len(),
{
    if word.len() == 0 {
        assert(head + word =~= head);
        assert(collapsed(head) + word =~= collapsed(head));
    } else {
        let rest = word.drop_last();
        assert(word[word.len() - 1] == word.last());
        assert((head + word).drop_last() =~= head + rest);
        assert((head + word).last() == word.last());
        lemma_word_passes(head, rest);
        assert(text::alphanumeric(word.last()));
        assert(!text::alphanumeric('-'));
        assert(collapsed(head + word) =~= collapsed(head) + word);
    }
}

proof fn lemma_gap_is_one_dash(head: Seq<char>, gap: Seq<char>)
    requires
        gap.len() > 0,
        forall|i: int| 0 <= i < gap.len() ==> !text::alphanumeric(#[trigger] gap[i]),
        collapsed(head).len() > 0,
        collapsed(head).last() != '-',
    ensures
        collapsed(head + gap) == collapsed(head).push('-'),
    decreases gap.len(),
{
    let rest = gap.drop_last();
    assert(gap[gap.len() - 1] == gap.last());
    assert((head + gap).drop_last() =~= head + rest);
    assert((head + gap).last() == gap.last());
    if rest.len() == 0 {
        assert(head + rest =~= head);
    } else {
        lemma_gap_is_one_dash(head, rest);
    }
}

/// Two words keep their letters, and whatever parts them becomes one dash.
pub proof fn lemma_words_are_joined_by_a_dash(a: Seq<char>, gap: Seq<char>, b: Seq<char>)
    requires
        a.len() > 0,
        gap.len() > 0,
        b.len() > 0,
        forall|i: int| 0 <= i < a.len() ==> text::alphanumeric(#[trigger] a[i]),
        forall|i: int| 0 <= i < gap.len() ==> !text::alphanumeric(#[trigger] gap[i]),
        forall|i: int| 0 <= i < b.len() ==> text::alphanumeric(#[trigger] b[i]),
    ensures
        slug_of(a) == a,
        slug_of(a + gap + b) == a + seq!['-'] + b,
{
    let none = Seq::<char>::empty();
    assert(none + a =~= a);
    lemma_word_passes(none, a);
    assert(collapsed(a) =~= a);
    assert(text::alphanumeric(a[a.len() - 1]));
    assert(text::alphanumeric(b[b.len() - 1]));
    assert(!text::alphanumeric('-'));
    lemma_gap_is_one_dash(a, gap);
    lemma_word_passes(a + gap, b);
    assert(collapsed(a + gap + b) =~= a + seq!['-'] + b);
    assert((a + seq!['-'] + b).last() == b[b.len() - 1]);
}

/// The limits before the user sets any: no budget alerts, and a session alerts from eighty percent of
/// a CPU on.
pub proof fn lemma_default_limits(t: AlertThresholds, spend: Measured, cpu: Double)
    requires
        t.is_default(),
        !cpu.is_nan(),
    ensures
        !breached(t.daily_budget_usd, spend),
        !breached(t.weekly_budget_usd, spend),
        cpu.from_up(t.cpu_spike_pct) <==> cpu.value() >= 80 * vstd::arithmetic::power2::pow2(1074),
{
}

/// The figures of a moment carry its two amounts, each in its place, its time, and its week by year
/// and number.
pub proof fn lemma_figures_carry_the_moment(f: Figures, now: Moment, today: Measured, week: Measured)
    requires
        is_figures(f, now, today, week),
    ensures
        f.today == today,
        f.week == week,
        f.now_iso@ == clock::rfc3339_of(now.secs, now.nanos),
        ({
            let w = clock::iso_week_of(now.day_of() as i32)->0;
            0 <= w.0 <= 9999 && w.1 <= 99 ==> text::number_read(f.week_label@.take(4)) == w.0
                && text::number_read(f.week_label@.skip(6)) == w.1
        }),
{
    let w = clock::iso_week_of(now.day_of() as i32)->0;
    if 0 <= w.0 <= 9999 && w.1 <= 99 {
        lemma_label_reads_back(w);
    }
}

} // verus!
