//! The tray menu: its rows, their texts in the language of the user interface, and what clicks do.

use crate::notify;
use crate::notify::{NotificationCopy, NotificationCopyPayload};
use crate::number::Double;
use crate::text;
use crate::usage::{DailyEntry, ScanResult};
use vstd::prelude::*;
use vstd::string::*;

verus! {

/// How a dollar amount is shown in the display currency.
pub struct MoneyFormat {
    pub symbol: String,
    /// Units of the display currency for one dollar.
    pub rate: Double,
    pub decimals: usize,
}

/// A dollar amount as the host prints it: in dollars with two decimals, and its magnitude in the
/// display currency with that currency's decimals.
pub struct Rendered {
    pub dollars: String,
    pub magnitude: String,
    pub negative: bool,
}

/// What the three live rows of the menu tell.
pub struct TrayMetrics {
    pub month_so_far_usd: Option<Rendered>,
    pub forecast_usd: Option<Rendered>,
    pub synced_seconds_ago: Option<u64>,
    pub paired: bool,
}

/// The texts of the menu, with the placeholders `{value}`, `{age}` and `{n}`.
pub struct TrayCopy {
    pub header_label: String,
    pub month_so_far_template: String,
    pub forecast_template: String,
    pub synced_ago_template: String,
    pub synced_never: String,
    pub not_paired: String,
    pub no_data: String,
    pub open_label: String,
    pub quit_label: String,
    pub age_seconds_template: String,
    pub age_minutes_template: String,
    pub age_hours_template: String,
    pub age_days_template: String,
    /// The display currency; dollars where there is none.
    pub money: Option<MoneyFormat>,
}

impl TrayCopy {
    /// The texts are the English ones, amounts in dollars.
    pub open spec fn is_english(self) -> bool {
        &&& self.header_label@ == "CLI Pulse"@
        &&& self.month_so_far_template@ == "Month so far: {value}"@
        &&& self.forecast_template@ == "Forecast: {value}"@
        &&& self.synced_ago_template@ == "Synced {age} ago"@
        &&& self.synced_never@ == "Not synced yet"@
        &&& self.not_paired@ == "Not signed in"@
        &&& self.no_data@ == "—"@
        &&& self.open_label@ == "Open CLI Pulse"@
        &&& self.quit_label@ == "Quit"@
        &&& self.age_seconds_template@ == "{n} s"@
        &&& self.age_minutes_template@ == "{n} min"@
        &&& self.age_hours_template@ == "{n} hr"@
        &&& self.age_days_template@ == "{n} d"@
        &&& self.money is None
    }
}

impl Default for TrayCopy {
    fn default() -> (r: Self)
        ensures
            r.is_english(),
    {
        TrayCopy {
            header_label: text::owned("CLI Pulse"),
            month_so_far_template: text::owned("Month so far: {value}"),
            forecast_template: text::owned("Forecast: {value}"),
            synced_ago_template: text::owned("Synced {age} ago"),
            synced_never: text::owned("Not synced yet"),
            not_paired: text::owned("Not signed in"),
            no_data: text::owned("—"),
            open_label: text::owned("Open CLI Pulse"),
            quit_label: text::owned("Quit"),
            age_seconds_template: text::owned("{n} s"),
            age_minutes_template: text::owned("{n} min"),
            age_hours_template: text::owned("{n} hr"),
            age_days_template: text::owned("{n} d"),
            money: None,
        }
    }
}

/// The display currency as the user interface sends it.
pub struct MoneyFormatPayload {
    pub symbol: String,
    pub rate: Double,
    pub decimals: usize,
}

/// The texts as the user interface sends them; an older one sends no age units.
pub struct TrayCopyPayload {
    pub header_label: String,
    pub month_so_far_template: String,
    pub forecast_template: String,
    pub synced_ago_template: String,
    pub synced_never: String,
    pub not_paired: String,
    pub no_data: String,
    pub open_label: String,
    pub quit_label: String,
    pub age_seconds_template: Option<String>,
    pub age_minutes_template: Option<String>,
    pub age_hours_template: Option<String>,
    pub age_days_template: Option<String>,
    pub money: Option<MoneyFormatPayload>,
}

/// More decimals than this are never shown.
pub const MAX_DECIMALS: usize = 4;

/// The text that was sent, or the English one.
pub open spec fn sent_or(sent: Option<String>, english: Seq<char>) -> Seq<char> {
    match sent {
        Some(t) => t@,
        None => english,
    }
}

/// The display currency that was sent, with at most four decimals.
pub open spec fn money_sent(p: Option<MoneyFormatPayload>, m: Option<MoneyFormat>) -> bool {
    match p {
        Some(q) => m is Some && (m->0).symbol == q.symbol && (m->0).rate == q.rate && (m->0).decimals
            == if q.decimals < MAX_DECIMALS {
            q.decimals
        } else {
            MAX_DECIMALS
        },
        None => m is None,
    }
}

/// `c` holds the texts of `p`, English age units in the place of those that were not sent.
pub open spec fn copy_sent(p: TrayCopyPayload, c: TrayCopy) -> bool {
    &&& c.header_label == p.header_label
    &&& c.month_so_far_template == p.month_so_far_template
    &&& c.forecast_template == p.forecast_template
    &&& c.synced_ago_template == p.synced_ago_template
    &&& c.synced_never == p.synced_never
    &&& c.not_paired == p.not_paired
    &&& c.no_data == p.no_data
    &&& c.open_label == p.open_label
    &&& c.quit_label == p.quit_label
    &&& c.age_seconds_template@ == sent_or(p.age_seconds_template, "{n} s"@)
    &&& c.age_minutes_template@ == sent_or(p.age_minutes_template, "{n} min"@)
    &&& c.age_hours_template@ == sent_or(p.age_hours_template, "{n} hr"@)
    &&& c.age_days_template@ == sent_or(p.age_days_template, "{n} d"@)
    &&& money_sent(p.money, c.money)
}

impl vstd::std_specs::convert::FromSpecImpl<TrayCopyPayload> for TrayCopy {
    open spec fn obeys_from_spec() -> bool {
        false
    }

    open spec fn from_spec(p: TrayCopyPayload) -> Self {
        arbitrary()
    }
}

impl From<TrayCopyPayload> for TrayCopy {
    fn from(p: TrayCopyPayload) -> (r: Self)
        ensures
            copy_sent(p, r),
    {
        let d = TrayCopy::default();
        TrayCopy {
            header_label: p.header_label,
            month_so_far_template: p.month_so_far_template,
            forecast_template: p.forecast_template,
            synced_ago_template: p.synced_ago_template,
            synced_never: p.synced_never,
            not_paired: p.not_paired,
            no_data: p.no_data,
            open_label: p.open_label,
            quit_label: p.quit_label,
            age_seconds_template: p.age_seconds_template.unwrap_or(d.age_seconds_template),
            age_minutes_template: p.age_minutes_template.unwrap_or(d.age_minutes_template),
            age_hours_template: p.age_hours_template.unwrap_or(d.age_hours_template),
            age_days_template: p.age_days_template.unwrap_or(d.age_days_template),
            money: match p.money {
                Some(m) => Some(
                    MoneyFormat {
                        symbol: m.symbol,
                        rate: m.rate,
                        decimals: if m.decimals < MAX_DECIMALS {
                            m.decimals
                        } else {
                            MAX_DECIMALS
                        },
                    },
                ),
                None => None,
            },
        }
    }
}

/// `s` with a comma before every three digits from the right.
pub open spec fn grouped(s: Seq<char>) -> Seq<char>
    decreases s.len(),
{
    if s.len() <= 3 {
        s
    } else {
        grouped(s.take(s.len() - 3)) + seq![','] + s.skip(s.len() - 3)
    }
}

/// Where the first point of `s` is, from `i` on; the length where there is none.
pub open spec fn point_from(s: Seq<char>, i: int) -> int
    decreases s.len() - i,
{
    if 0 <= i < s.len() && s[i] != '.' {
        point_from(s, i + 1)
    } else {
        i
    }
}

/// A digit other than zero.
pub open spec fn counts(c: char) -> bool {
    '1' <= c <= '9'
}

/// A fixed-point number with its whole part in groups of three; a minus sign only where a digit
/// other than zero is shown.
pub open spec fn thousands_of(fixed: Seq<char>, negative: bool) -> Seq<char> {
    let k = point_from(fixed, 0);
    let sign = if negative && exists|i: int| 0 <= i < fixed.len() && counts(#[trigger] fixed[i]) {
        "-"@
    } else {
        ""@
    };
    sign + grouped(fixed.take(k)) + fixed.skip(k)
}

/// A dollar amount in the display currency, in dollars where no usable rate is known.
pub open spec fn amount_of(copy: TrayCopy, amount: Rendered) -> Seq<char> {
    match copy.money {
        Some(m) => if m.rate.is_finite() && m.rate.value() > 0 {
            m.symbol@ + thousands_of(amount.magnitude@, amount.negative)
        } else {
            "$"@ + amount.dollars@
        },
        None => "$"@ + amount.dollars@,
    }
}

/// A row that shows an amount: the hint to sign in where the device is not paired, the mark for
/// missing data where there is no amount.
pub open spec fn value_row(
    template: Seq<char>,
    copy: TrayCopy,
    value: Option<Rendered>,
    paired: bool,
) -> Seq<char> {
    let shown = if !paired {
        copy.not_paired@
    } else {
        match value {
            Some(v) => amount_of(copy, v),
            None => copy.no_data@,
        }
    };
    text::replaced(template, "{value}"@, shown)
}

/// The unit in which an age is told, and how many of them: whole seconds under a minute, whole
/// minutes under an hour, whole hours under a day, whole days.
pub open spec fn age_parts(copy: TrayCopy, seconds: nat) -> (Seq<char>, nat) {
    if seconds < 60 {
        (copy.age_seconds_template@, seconds)
    } else if seconds < 3600 {
        (copy.age_minutes_template@, seconds / 60)
    } else if seconds < 86_400 {
        (copy.age_hours_template@, seconds / 3600)
    } else {
        (copy.age_days_template@, seconds / 86_400)
    }
}

/// The row that tells when the last sync was.
pub open spec fn synced_row(copy: TrayCopy, seconds: Option<u64>) -> Seq<char> {
    match seconds {
        None => copy.synced_never@,
        Some(s) => {
            let (template, n) = age_parts(copy, s as nat);
            text::replaced(
                copy.synced_ago_template@,
                "{age}"@,
                text::replaced(template, "{n}"@, text::decimal_of(n)),
            )
        },
    }
}

/// An amount in dollars, its number given with two decimals.
pub fn format_usd(fixed: &str) -> (r: String)
    ensures
        r@ == "$"@ + fixed@,
{
    text::join("$", fixed)
}

fn group(v: &Vec<char>, n: usize) -> (r: String)
    requires
        n <= v@.len(),
    ensures
        r@ == grouped(v@.take(n as int)),
    decreases n,
{
    let ghost s = v@.take(n as int);
    if n <= 3 {
        assert(v@.subrange(0, n as int) =~= s);
        text::slice_text(v, 0, n)
    } else {
        let mut r = group(v, n - 3);
        let tail = text::slice_text(v, n - 3, n);
        r.push(',');
        r.append(tail.as_str());
        assert(s.take(s.len() - 3) =~= v@.take(n - 3));
        assert(s.skip(s.len() - 3) =~= tail@);
        assert(r@ =~= grouped(v@.take(n - 3)) + seq![','] + tail@);
        r
    }
}

/// A fixed-point number with its whole part in groups of three, its magnitude and sign given.
pub fn group_thousands(fixed: &str, negative: bool) -> (r: String)
    ensures
        r@ == thousands_of(fixed@, negative),
{
    let v: Vec<char> = text::chars_of(fixed);
    let mut k: usize = 0;
    while k < v.len() && v[k] != '.'
        invariant
            v@ == fixed@,
            k <= v@.len(),
            point_from(fixed@, 0) == point_from(fixed@, k as int),
        decreases v@.len() - k,
    {
        k = k + 1;
    }
    let mut some = false;
    let mut i: usize = 0;
    while i < v.len()
        invariant
            v@ == fixed@,
            i <= v@.len(),
            some == exists|j: int| 0 <= j < i && counts(#[trigger] fixed@[j]),
        decreases v@.len() - i,
    {
        if '1' <= v[i] && v[i] <= '9' {
            some = true;
        }
        i = i + 1;
    }
    let mut r = text::owned(
        if negative && some {
            "-"
        } else {
            ""
        },
    );
    r.append(group(&v, k).as_str());
    let n: usize = v.len();
    let rest = text::slice_text(&v, k, n);
    r.append(rest.as_str());
    assert(rest@ =~= fixed@.skip(k as int));
    r
}

/// A dollar amount in the display currency, in dollars where no usable rate is known.
pub fn format_amount(copy: &TrayCopy, amount: &Rendered) -> (r: String)
    ensures
        r@ == amount_of(*copy, *amount),
{
    match &copy.money {
        Some(m) => {
            if m.rate.is_usable() {
                text::join(
                    m.symbol.as_str(),
                    group_thousands(amount.magnitude.as_str(), amount.negative).as_str(),
                )
            } else {
                format_usd(amount.dollars.as_str())
            }
        },
        None => format_usd(amount.dollars.as_str()),
    }
}

fn format_value(template: &str, copy: &TrayCopy, value: &Option<Rendered>, paired: bool) -> (r: String)
    ensures
        r@ == value_row(template@, *copy, *value, paired),
{
    proof {
        reveal_strlit("{value}");
    }
    if !paired {
        return text::replace(template, "{value}", copy.not_paired.as_str());
    }
    let v = match value {
        Some(v) => format_amount(copy, v),
        None => copy.no_data.clone(),
    };
    text::replace(template, "{value}", v.as_str())
}

/// The row that shows what the month has cost so far.
pub fn format_month_so_far(copy: &TrayCopy, value: &Option<Rendered>, paired: bool) -> (r: String)
    ensures
        r@ == value_row(copy.month_so_far_template@, *copy, *value, paired),
{
    format_value(copy.month_so_far_template.as_str(), copy, value, paired)
}

/// The row that shows what the month is expected to cost.
pub fn format_forecast(copy: &TrayCopy, value: &Option<Rendered>, paired: bool) -> (r: String)
    ensures
        r@ == value_row(copy.forecast_template@, *copy, *value, paired),
{
    format_value(copy.forecast_template.as_str(), copy, value, paired)
}

/// The row that tells when the last sync was.
pub fn format_synced_ago(copy: &TrayCopy, seconds: Option<u64>) -> (r: String)
    ensures
        r@ == synced_row(*copy, seconds),
{
    proof {
        reveal_strlit("{n}");
        reveal_strlit("{age}");
    }
    let s: u64 = match seconds {
        None => {
            return copy.synced_never.clone();
        },
        Some(s) => s,
    };
    let (template, n): (&String, u64) = if s < 60 {
        (&copy.age_seconds_template, s)
    } else if s < 3600 {
        (&copy.age_minutes_template, s / 60)
    } else if s < 86_400 {
        (&copy.age_hours_template, s / 3600)
    } else {
        (&copy.age_days_template, s / 86_400)
    };
    let age = text::replace(template.as_str(), "{n}", text::decimal(n).as_str());
    text::replace(copy.synced_ago_template.as_str(), "{age}", age.as_str())
}

/// The stored texts behind a lock, which a panic of a holder leaves poisoned.
pub struct CopyLock {
    pub copy: TrayCopy,
    pub poisoned: bool,
}

/// The menu as it stands: the texts of its items and the stored copy they are written from.
pub struct TrayDynamicHandles {
    pub header_item: String,
    pub month_item: String,
    pub forecast_item: String,
    pub synced_item: String,
    pub open_item: String,
    pub quit_item: String,
    pub lock: CopyLock,
}

/// The labels of the menu are those of `copy`.
pub open spec fn labels_from(h: TrayDynamicHandles, copy: TrayCopy) -> bool {
    &&& h.header_item@ == copy.header_label@
    &&& h.open_item@ == copy.open_label@
    &&& h.quit_item@ == copy.quit_label@
}

/// The live rows of the menu show `metrics` in the texts of `copy`.
pub open spec fn rows_from(h: TrayDynamicHandles, copy: TrayCopy, metrics: TrayMetrics) -> bool {
    &&& h.month_item@ == value_row(
        copy.month_so_far_template@,
        copy,
        metrics.month_so_far_usd,
        metrics.paired,
    )
    &&& h.forecast_item@ == value_row(
        copy.forecast_template@,
        copy,
        metrics.forecast_usd,
        metrics.paired,
    )
    &&& h.synced_item@ == synced_row(copy, metrics.synced_seconds_ago)
}

/// Nothing is known yet.
pub open spec fn is_blank(m: TrayMetrics) -> bool {
    m.month_so_far_usd is None && m.forecast_usd is None && m.synced_seconds_ago is None && !m.paired
}

/// What new texts do to the menu: the labels change, the live rows stay, and the texts are stored
/// unless the lock is poisoned.
pub open spec fn copy_set(
    before: TrayDynamicHandles,
    copy: TrayCopy,
    after: TrayDynamicHandles,
) -> bool {
    &&& labels_from(after, copy)
    &&& after.month_item == before.month_item
    &&& after.forecast_item == before.forecast_item
    &&& after.synced_item == before.synced_item
    &&& after.lock.poisoned == before.lock.poisoned
    &&& after.lock.copy == if before.lock.poisoned {
        before.lock.copy
    } else {
        copy
    }
}

/// What new metrics do to the menu: the live rows change, in the stored texts or in English where
/// the lock is poisoned; everything else stays.
pub open spec fn metrics_applied(
    before: TrayDynamicHandles,
    metrics: TrayMetrics,
    after: TrayDynamicHandles,
) -> bool {
    &&& after.header_item == before.header_item
    &&& after.open_item == before.open_item
    &&& after.quit_item == before.quit_item
    &&& after.lock == before.lock
    &&& !before.lock.poisoned ==> rows_from(after, before.lock.copy, metrics)
    &&& before.lock.poisoned ==> exists|c: TrayCopy| #[trigger] c.is_english() && rows_from(
        after,
        c,
        metrics,
    )
}

/// The identifier of the tray icon.
pub const TRAY_ID: &'static str = "main";

/// What the tray icon shows when the mouse rests on it.
pub const TOOLTIP: &'static str = "CLI Pulse";

/// The menu of a fresh start: English, with nothing known.
pub fn install() -> (r: TrayDynamicHandles)
    ensures
        r.lock.copy.is_english(),
        !r.lock.poisoned,
        labels_from(r, r.lock.copy),
        forall|m: TrayMetrics| #[trigger] is_blank(m) ==> rows_from(r, r.lock.copy, m),
{
    let copy = TrayCopy::default();
    TrayDynamicHandles {
        header_item: copy.header_label.clone(),
        month_item: format_month_so_far(&copy, &None, false),
        forecast_item: format_forecast(&copy, &None, false),
        synced_item: format_synced_ago(&copy, None),
        open_item: copy.open_label.clone(),
        quit_item: copy.quit_label.clone(),
        lock: CopyLock { copy, poisoned: false },
    }
}

fn write_rows(handles: &mut TrayDynamicHandles, copy: &TrayCopy, metrics: &TrayMetrics)
    ensures
        final(handles).header_item == old(handles).header_item,
        final(handles).open_item == old(handles).open_item,
        final(handles).quit_item == old(handles).quit_item,
        final(handles).lock == old(handles).lock,
        rows_from(*final(handles), *copy, *metrics),
{
    handles.month_item = format_month_so_far(copy, &metrics.month_so_far_usd, metrics.paired);
    handles.forecast_item = format_forecast(copy, &metrics.forecast_usd, metrics.paired);
    handles.synced_item = format_synced_ago(copy, metrics.synced_seconds_ago);
}

/// Shows `metrics` in the live rows, in the stored texts or in English where the lock is poisoned.
pub fn apply_metrics(handles: &mut TrayDynamicHandles, metrics: &TrayMetrics)
    ensures
        metrics_applied(*old(handles), *metrics, *final(handles)),
{
    if handles.lock.poisoned {
        let english = TrayCopy::default();
        write_rows(handles, &english, metrics);
    } else {
        handles.month_item =
        format_month_so_far(&handles.lock.copy, &metrics.month_so_far_usd, metrics.paired);
        handles.forecast_item =
        format_forecast(&handles.lock.copy, &metrics.forecast_usd, metrics.paired);
        handles.synced_item = format_synced_ago(&handles.lock.copy, metrics.synced_seconds_ago);
    }
}

/// Takes new texts: the labels change at once, the live rows when metrics are next applied.
pub fn set_copy(handles: &mut TrayDynamicHandles, copy: TrayCopy)
    ensures
        copy_set(*old(handles), copy, *final(handles)),
{
    handles.header_item = copy.header_label.clone();
    handles.open_item = copy.open_label.clone();
    handles.quit_item = copy.quit_label.clone();
    if !handles.lock.poisoned {
        handles.lock.copy = copy;
    }
}

/// A row of the menu.
pub enum MenuRow {
    Item { id: String, label: String, enabled: bool },
    Separator,
}

/// The row is an item with this identifier and label.
pub open spec fn is_item(row: MenuRow, id: Seq<char>, label: Seq<char>, enabled: bool) -> bool {
    row is Item && row->id@ == id && row->label@ == label && row->enabled == enabled
}

fn item(id: &str, label: &String, enabled: bool) -> (r: MenuRow)
    ensures
        is_item(r, id@, label@, enabled),
{
    MenuRow::Item { id: text::owned(id), label: label.clone(), enabled }
}

/// The rows are those of the menu, from top to bottom.
pub open spec fn is_menu(rows: Seq<MenuRow>, h: TrayDynamicHandles) -> bool {
    &&& rows.len() == 8
    &&& is_item(rows[0], "header"@, h.header_item@, false)
    &&& rows[1] is Separator
    &&& is_item(rows[2], "month"@, h.month_item@, false)
    &&& is_item(rows[3], "forecast"@, h.forecast_item@, false)
    &&& is_item(rows[4], "synced"@, h.synced_item@, false)
    &&& rows[5] is Separator
    &&& is_item(rows[6], "open"@, h.open_item@, true)
    &&& is_item(rows[7], "quit"@, h.quit_item@, true)
}

/// The rows of the menu from top to bottom: the header, the live rows between separators, then
/// the two rows that can be chosen.
pub fn menu_rows(h: &TrayDynamicHandles) -> (r: Vec<MenuRow>)
    ensures
        r@.len() == 8,
        is_item(r@[0], "header"@, h.header_item@, false),
        r@[1] is Separator,
        is_item(r@[2], "month"@, h.month_item@, false),
        is_item(r@[3], "forecast"@, h.forecast_item@, false),
        is_item(r@[4], "synced"@, h.synced_item@, false),
        r@[5] is Separator,
        is_item(r@[6], "open"@, h.open_item@, true),
        is_item(r@[7], "quit"@, h.quit_item@, true),
        is_menu(r@, *h),
{
    let mut r: Vec<MenuRow> = Vec::new();
    r.push(item("header", &h.header_item, false));
    r.push(MenuRow::Separator);
    r.push(item("month", &h.month_item, false));
    r.push(item("forecast", &h.forecast_item, false));
    r.push(item("synced", &h.synced_item, false));
    r.push(MenuRow::Separator);
    r.push(item("open", &h.open_item, true));
    r.push(item("quit", &h.quit_item, true));
    r
}

/// What choosing a row does.
#[derive(Clone, Copy, Debug, PartialEq, Eq, Structural)]
pub enum MenuAction {
    ShowMain,
    Quit,
    Nothing,
}

/// What choosing the row with this identifier does.
pub open spec fn action_of(id: Seq<char>) -> MenuAction {
    if id == "open"@ {
        MenuAction::ShowMain
    } else if id == "quit"@ {
        MenuAction::Quit
    } else {
        MenuAction::Nothing
    }
}

/// What choosing the row with this identifier does.
pub fn menu_action(id: &str) -> (r: MenuAction)
    ensures
        r == action_of(id@),
        r == if id@ == "open"@ {
            MenuAction::ShowMain
        } else if id@ == "quit"@ {
            MenuAction::Quit
        } else {
            MenuAction::Nothing
        },
{
    if text::same(id, "open") {
        MenuAction::ShowMain
    } else if text::same(id, "quit") {
        MenuAction::Quit
    } else {
        MenuAction::Nothing
    }
}

/// A button of the mouse.
#[derive(Clone, Copy, Debug, PartialEq, Eq, Structural)]
pub enum MouseButton {
    Left,
    Right,
    Middle,
}

/// Whether a click on the tray icon toggles the main window: the left button does, when it is let
/// go.
pub fn click_toggles(button: MouseButton, released: bool) -> (r: bool)
    ensures
        r == (button == MouseButton::Left && released),
{
    button == MouseButton::Left && released
}

/// A change to the main window.
#[derive(Clone, Copy, Debug, PartialEq, Eq, Structural)]
pub enum WindowStep {
    Show,
    Focus,
    Unminimize,
    Hide,
}

/// How the main window is brought up, in order.
pub fn show_main() -> (r: Vec<WindowStep>)
    ensures
        r@ == seq![WindowStep::Show, WindowStep::Focus, WindowStep::Unminimize],
{
    let mut r: Vec<WindowStep> = Vec::new();
    r.push(WindowStep::Show);
    r.push(WindowStep::Focus);
    r.push(WindowStep::Unminimize);
    r
}

/// What a left click does to the main window: a window known to be visible is hidden, any other is
/// brought up.
pub fn toggle_main(visible: Option<bool>) -> (r: Vec<WindowStep>)
    ensures
        visible == Some(true) ==> r@ == seq![WindowStep::Hide],
        visible != Some(true) ==> r@ == seq![WindowStep::Show, WindowStep::Focus],
{
    let mut r: Vec<WindowStep> = Vec::new();
    match visible {
        Some(true) => {
            r.push(WindowStep::Hide);
        },
        _ => {
            r.push(WindowStep::Show);
            r.push(WindowStep::Focus);
        },
    }
    r
}

/// One day of one model's usage, as the forecast reads it.
pub struct DailyUsageRow {
    pub metric_date: String,
    pub provider: String,
    pub model: String,
    pub input_tokens: i64,
    pub cached_tokens: i64,
    pub output_tokens: i64,
    pub cost: Double,
}

/// The row says what the entry says; an unknown cost counts as nothing.
pub open spec fn row_of(e: DailyEntry, r: DailyUsageRow) -> bool {
    &&& r.metric_date == e.date
    &&& r.provider == e.provider
    &&& r.model == e.model
    &&& r.input_tokens == e.input_tokens
    &&& r.cached_tokens == e.cached_tokens
    &&& r.output_tokens == e.output_tokens
    &&& e.cost_usd is Some ==> r.cost == e.cost_usd->0
    &&& e.cost_usd is None ==> r.cost == Double { bits: 0 }
}

/// The entry is usage.
pub open spec fn is_usage() -> spec_fn(DailyEntry) -> bool {
    |e: DailyEntry| !e.is_bucket()
}

/// The rows from which the month is forecast: one for every entry of usage, in their order.
pub fn local_daily_rows(scan: &ScanResult) -> (r: Vec<DailyUsageRow>)
    ensures
        r@.len() == scan.entries@.filter(is_usage()).len(),
        forall|i: int|
            0 <= i < r@.len() ==> row_of(scan.entries@.filter(is_usage())[i], #[trigger] r@[i]),
{
    let mut r: Vec<DailyUsageRow> = Vec::new();
    let mut i: usize = 0;
    proof {
        reveal(Seq::filter);
        assert(scan.entries@.take(0).filter(is_usage()).len() == 0);
    }
    while i < scan.entries.len()
        invariant
            i <= scan.entries@.len(),
            r@.len() == scan.entries@.take(i as int).filter(is_usage()).len(),
            forall|k: int|
                0 <= k < r@.len() ==> row_of(
                    scan.entries@.take(i as int).filter(is_usage())[k],
                    #[trigger] r@[k],
                ),
        decreases scan.entries@.len() - i,
    {
        let e = &scan.entries[i];
        proof {
            reveal(Seq::filter);
            assert(scan.entries@.take(i + 1).drop_last() =~= scan.entries@.take(i as int));
        }
        if !e.counts_messages() {
            r.push(
                DailyUsageRow {
                    metric_date: e.date.clone(),
                    provider: e.provider.clone(),
                    model: e.model.clone(),
                    input_tokens: e.input_tokens,
                    cached_tokens: e.cached_tokens,
                    output_tokens: e.output_tokens,
                    cost: match e.cost_usd {
                        Some(c) => c,
                        None => Double { bits: 0 },
                    },
                },
            );
        }
        i = i + 1;
    }
    assert(scan.entries@.take(i as int) =~= scan.entries@);
    r
}

/// The month so far and its expected total.
#[derive(Clone, Copy, Debug, PartialEq, Eq, Structural)]
pub struct MonthFigures {
    pub so_far: Double,
    pub expected: Double,
}

/// The first figures where they are known, the second otherwise.
pub open spec fn first_known(
    a: Option<MonthFigures>,
    b: Option<MonthFigures>,
) -> Option<MonthFigures> {
    match a {
        Some(_) => a,
        None => b,
    }
}

/// Keeps a new forecast for the menu; where there is none, the kept one stays.
pub fn record_local_tray_snapshot(kept: &mut Option<MonthFigures>, forecast: Option<MonthFigures>)
    ensures
        *final(kept) == if forecast is Some {
            forecast
        } else {
            *old(kept)
        },
        *final(kept) == first_known(forecast, *old(kept)),
{
    if forecast.is_some() {
        *kept = forecast;
    }
}

/// The figures for the menu: those of the last local scan, those of the cached rows until there
/// is one.
pub fn month_figures(
    local: Option<MonthFigures>,
    cached: Option<MonthFigures>,
) -> (r: Option<MonthFigures>)
    ensures
        r == if local is Some {
            local
        } else {
            cached
        },
        r == first_known(local, cached),
{
    if local.is_some() {
        local
    } else {
        cached
    }
}

/// The metrics tell these figures of a paired device, and nothing of one that is not.
pub open spec fn tells(
    m: TrayMetrics,
    paired: bool,
    month_so_far: Option<Rendered>,
    forecast: Option<Rendered>,
    synced_seconds_ago: Option<u64>,
) -> bool {
    if paired {
        m == (TrayMetrics {
            month_so_far_usd: month_so_far,
            forecast_usd: forecast,
            synced_seconds_ago,
            paired: true,
        })
    } else {
        is_blank(m)
    }
}

/// What the live rows tell: nothing at all where the device is not paired.
pub fn collect_tray_metrics(
    paired: bool,
    month_so_far: Option<Rendered>,
    forecast: Option<Rendered>,
    synced_seconds_ago: Option<u64>,
) -> (r: TrayMetrics)
    ensures
        !paired ==> is_blank(r),
        paired ==> r == (TrayMetrics {
            month_so_far_usd: month_so_far,
            forecast_usd: forecast,
            synced_seconds_ago,
            paired,
        }),
        tells(r, paired, month_so_far, forecast, synced_seconds_ago),
{
    if paired {
        TrayMetrics {
            month_so_far_usd: month_so_far,
            forecast_usd: forecast,
            synced_seconds_ago,
            paired,
        }
    } else {
        TrayMetrics {
            month_so_far_usd: None,
            forecast_usd: None,
            synced_seconds_ago: None,
            paired: false,
        }
    }
}

/// Writes the menu anew: takes the new texts for the menu and for notifications, where there are
/// any, then shows the metrics.
pub fn force_tray_menu_refresh(
    handles: &mut TrayDynamicHandles,
    texts: &mut NotificationCopy,
    copy: Option<TrayCopyPayload>,
    notification: Option<NotificationCopyPayload>,
    metrics: &TrayMetrics,
)
    ensures
        copy is None ==> metrics_applied(*old(handles), *metrics, *final(handles)),
        copy matches Some(p) ==> exists|c: TrayCopy, between: TrayDynamicHandles|
            #![trigger copy_set(*old(handles), c, between)]
            copy_sent(p, c) && copy_set(*old(handles), c, between) && metrics_applied(
                between,
                *metrics,
                *final(handles),
            ),
        notification is None ==> *final(texts) == *old(texts),
        notification matches Some(n) ==> n.sends(*final(texts)),
{
    if let Some(p) = copy {
        let c = TrayCopy::from(p);
        let ghost sent = c;
        let ghost before = *handles;
        set_copy(handles, c);
        assert(copy_set(before, sent, *handles));
    }
    if let Some(n) = notification {
        notify::set_copy(texts, NotificationCopy::from(n));
    }
    apply_metrics(handles, metrics);
}

/// After new texts and new metrics, every item of the menu is written in the new texts.
pub proof fn lemma_language_flip(
    before: TrayDynamicHandles,
    copy: TrayCopy,
    between: TrayDynamicHandles,
    metrics: TrayMetrics,
    after: TrayDynamicHandles,
)
    requires
        !before.lock.poisoned,
        copy_set(before, copy, between),
        metrics_applied(between, metrics, after),
    ensures
        labels_from(after, copy),
        rows_from(after, copy, metrics),
        after.lock.copy == copy,
{
}

/// Where the device is not paired, a row shows the same whatever the amount is.
pub proof fn lemma_unpaired_hides_amounts(
    template: Seq<char>,
    copy: TrayCopy,
    a: Option<Rendered>,
    b: Option<Rendered>,
)
    ensures
        value_row(template, copy, a, false) == value_row(template, copy, b, false),
{
}

/// An age is told in the largest unit of which at least one has passed: under sixty seconds, from
/// one to fifty-nine minutes, from one to twenty-three hours, or from one day on; and it is less
/// than one unit off.
pub proof fn lemma_age_buckets(copy: TrayCopy, seconds: nat)
    ensures
        seconds < 60 ==> age_parts(copy, seconds) == (copy.age_seconds_template@, seconds),
        60 <= seconds < 3600 ==> age_parts(copy, seconds).0 == copy.age_minutes_template@ && 1
            <= age_parts(copy, seconds).1 <= 59 && age_parts(copy, seconds).1 * 60 <= seconds
            < age_parts(copy, seconds).1 * 60 + 60,
        3600 <= seconds < 86_400 ==> age_parts(copy, seconds).0 == copy.age_hours_template@ && 1
            <= age_parts(copy, seconds).1 <= 23 && age_parts(copy, seconds).1 * 3600 <= seconds
            < age_parts(copy, seconds).1 * 3600 + 3600,
        86_400 <= seconds ==> age_parts(copy, seconds).0 == copy.age_days_template@ && 1
            <= age_parts(copy, seconds).1 && age_parts(copy, seconds).1 * 86_400 <= seconds
            < age_parts(copy, seconds).1 * 86_400 + 86_400,
{
}

/// `s` without its commas.
pub open spec fn without_commas(s: Seq<char>) -> Seq<char> {
    s.filter(|c: char| c != ',')
}

proof fn lemma_without_commas_parts(a: Seq<char>, b: Seq<char>)
    ensures
        without_commas(a + b) == without_commas(a) + without_commas(b),
{
    Seq::filter_distributes_over_add(a, b, |c: char| c != ',');
}

proof fn lemma_no_commas(s: Seq<char>)
    requires
        !s.contains(','),
    ensures
        without_commas(s) == s,
    decreases s.len(),
{
    reveal(Seq::filter);
    if s.len() > 0 {
        assert(s[s.len() - 1] == s.last());
        assert forall|i: int| 0 <= i < s.drop_last().len() implies s.drop_last()[i] != ',' by {
            assert(s[i] == s.drop_last()[i]);
        }
        lemma_no_commas(s.drop_last());
        assert(s.drop_last().push(s.last()) =~= s);
    }
}

proof fn lemma_comma_goes()
    ensures
        without_commas(seq![',']) == Seq::<char>::empty(),
{
    reveal(Seq::filter);
    let one = seq![','];
    let p = |c: char| c != ',';
    assert(one.drop_last() =~= Seq::<char>::empty());
    assert(one.drop_last().filter(p) =~= Seq::<char>::empty());
    assert(one.last() == ',');
    assert(one.filter(p) =~= one.drop_last().filter(p));
    assert(without_commas(one) =~= one.filter(p));
}

/// Grouping adds commas and changes nothing else.
pub proof fn lemma_grouping_keeps_the_digits(s: Seq<char>)
    requires
        !s.contains(','),
    ensures
        without_commas(grouped(s)) == s,
    decreases s.len(),
{
    if s.len() <= 3 {
        lemma_no_commas(s);
    } else {
        let (head, tail) = (s.take(s.len() - 3), s.skip(s.len() - 3));
        assert forall|i: int| 0 <= i < head.len() implies head[i] != ',' by {
            assert(s[i] == head[i]);
        }
        assert forall|i: int| 0 <= i < tail.len() implies tail[i] != ',' by {
            assert(s[s.len() - 3 + i] == tail[i]);
        }
        lemma_grouping_keeps_the_digits(head);
        lemma_no_commas(tail);
        lemma_without_commas_parts(grouped(head) + seq![','], tail);
        lemma_without_commas_parts(grouped(head), seq![',']);
        lemma_comma_goes();
        assert(head + Seq::<char>::empty() + tail =~= s);
    }
}

proof fn lemma_point_bounds(s: Seq<char>, i: int)
    requires
        0 <= i <= s.len(),
    ensures
        i <= point_from(s, i) <= s.len(),
    decreases s.len() - i,
{
    if i < s.len() && s[i] != '.' {
        lemma_point_bounds(s, i + 1);
    }
}

/// An amount in groups of three is the number it was made of, once its commas are gone.
pub proof fn lemma_amount_keeps_its_number(fixed: Seq<char>)
    requires
        !fixed.contains(','),
    ensures
        without_commas(thousands_of(fixed, false)) == fixed,
{
    let k = point_from(fixed, 0);
    lemma_point_bounds(fixed, 0);
    let (head, tail) = (fixed.take(k), fixed.skip(k));
    assert forall|i: int| 0 <= i < head.len() implies head[i] != ',' by {
        assert(fixed[i] == head[i]);
    }
    assert forall|i: int| 0 <= i < tail.len() implies tail[i] != ',' by {
        assert(fixed[k + i] == tail[i]);
    }
    lemma_grouping_keeps_the_digits(head);
    lemma_no_commas(tail);
    reveal_strlit("");
    assert(""@ + grouped(head) + tail =~= grouped(head) + tail);
    lemma_without_commas_parts(grouped(head), tail);
    assert(head + tail =~= fixed);
}

/// A number that shows no digit but zeros never has a minus sign.
pub proof fn lemma_zero_has_no_sign(fixed: Seq<char>, negative: bool)
    requires
        forall|i: int| 0 <= i < fixed.len() ==> !counts(#[trigger] fixed[i]),
    ensures
        thousands_of(fixed, negative) == thousands_of(fixed, false),
{
}

/// Where no usable rate is known an amount is told in dollars, whatever the currency's symbol is.
pub proof fn lemma_no_rate_means_dollars(copy: TrayCopy, amount: Rendered)
    requires
        copy.money is None || !copy.money->0.rate.is_finite() || copy.money->0.rate.value() <= 0,
    ensures
        amount_of(copy, amount) == "$"@ + amount.dollars@,
{
}

/// Where the digit at `i` of `n` digits stands once they are in groups of three: behind one comma for
/// every group that begins at or before it.
pub open spec fn place(n: int, i: int) -> int {
    i + (n - 1) / 3 - (n - 1 - i) / 3
}

proof fn lemma_grouped_len(s: Seq<char>)
    ensures
        s.len() > 0 ==> grouped(s).len() == s.len() + (s.len() - 1) / 3,
        s.len() == 0 ==> grouped(s).len() == 0,
    decreases s.len(),
{
    if s.len() > 3 {
        lemma_grouped_len(s.take(s.len() - 3));
    }
}

proof fn lemma_place_of(s: Seq<char>, i: int)
    requires
        0 <= i < s.len(),
    ensures
        0 <= place(s.len() as int, i) < grouped(s).len(),
        grouped(s)[place(s.len() as int, i)] == s[i],
        i > 0 && (s.len() - i) % 3 == 0 ==> 0 < place(s.len() as int, i) && grouped(s)[place(
            s.len() as int,
            i,
        ) - 1] == ',',
    decreases s.len(),
{
    let n = s.len() as int;
    lemma_grouped_len(s);
    if n > 3 {
        let (head, tail) = (s.take(n - 3), s.skip(n - 3));
        let h = grouped(head);
        let g = h + seq![','] + tail;
        assert(grouped(s) == g);
        lemma_grouped_len(head);
        if i < n - 3 {
            lemma_place_of(head, i);
            assert(head[i] == s[i]);
            assert(place(n, i) == place(n - 3, i));
        } else {
            assert(place(n, i) == i + (n - 1) / 3);
            assert(h.len() == n - 3 + (n - 4) / 3);
            assert(g[place(n, i)] == tail[i - (n - 3)]);
            if i > 0 && (n - i) % 3 == 0 {
                assert(i == n - 3);
                assert(place(n, i) - 1 == h.len());
            }
        }
    } else {
        assert(place(n, i) == i);
    }
}

/// A comma stands in a grouped number exactly where a positive multiple of three digits is left to
/// its right and at least one digit stands to its left: the digits keep their order, and of `n` of
/// them the one at `i` has a comma right before it if and only if it is not the first and `n - i` is
/// a multiple of three.
pub proof fn lemma_commas_part_groups_of_three(s: Seq<char>, i: int)
    requires
        !s.contains(','),
        0 <= i < s.len(),
    ensures
        0 <= place(s.len() as int, i) < grouped(s).len(),
        grouped(s)[place(s.len() as int, i)] == s[i],
        i == 0 ==> place(s.len() as int, i) == 0,
        i > 0 ==> (grouped(s)[place(s.len() as int, i) - 1] == ',' <==> (s.len() - i) % 3 == 0),
        grouped(s).len() == s.len() + (s.len() - 1) / 3,
{
    let n = s.len() as int;
    lemma_grouped_len(s);
    lemma_place_of(s, i);
    if i > 0 && (n - i) % 3 != 0 {
        lemma_place_of(s, i - 1);
        assert(s[i - 1] != ',');
        assert((n - i) / 3 == (n - 1 - i) / 3);
        assert(n - 1 - (i - 1) == n - i);
        assert(place(n, i) - 1 == place(n, i - 1));
    }
}

proof fn lemma_point_is_found(whole: Seq<char>, rest: Seq<char>, i: int)
    requires
        !whole.contains('.'),
        rest.len() == 0 || rest[0] == '.',
        0 <= i <= whole.len(),
    ensures
        point_from(whole + rest, i) == whole.len(),
    decreases whole.len() - i,
{
    let s = whole + rest;
    if i < whole.len() {
        assert(s[i] == whole[i]);
        lemma_point_is_found(whole, rest, i + 1);
    }
}

/// Only the whole part of a number is grouped; what follows its point stays, and so does a number
/// without one.
pub proof fn lemma_only_the_whole_part_is_grouped(whole: Seq<char>, decimals: Seq<char>)
    requires
        !whole.contains('.'),
    ensures
        thousands_of(whole + seq!['.'] + decimals, false) == grouped(whole) + seq!['.'] + decimals,
        thousands_of(whole, false) == grouped(whole),
{
    let rest = seq!['.'] + decimals;
    let s = whole + seq!['.'] + decimals;
    assert(s =~= whole + rest);
    lemma_point_is_found(whole, rest, 0);
    assert(s.take(whole.len() as int) =~= whole);
    assert(s.skip(whole.len() as int) =~= rest);
    reveal_strlit("");
    assert(thousands_of(s, false) =~= grouped(whole) + seq!['.'] + decimals);
    let none = Seq::<char>::empty();
    assert(whole + none =~= whole);
    lemma_point_is_found(whole, none, 0);
    assert(whole.take(whole.len() as int) =~= whole);
    assert(thousands_of(whole, false) =~= grouped(whole));
}

/// A number below zero has a minus sign in front, and nothing else is different; unless all that it
/// shows is zeros.
pub proof fn lemma_minus_sign(fixed: Seq<char>, i: int)
    requires
        0 <= i < fixed.len(),
        '1' <= fixed[i] <= '9',
    ensures
        thousands_of(fixed, true) == seq!['-'] + thousands_of(fixed, false),
{
    assert(counts(fixed[i]));
    reveal_strlit("-");
    reveal_strlit("");
    assert(thousands_of(fixed, true) =~= seq!['-'] + thousands_of(fixed, false));
}

/// With a usable rate an amount is shown in the display currency: the symbol, then the amount's
/// magnitude in that currency, grouped.
pub proof fn lemma_rate_means_display_currency(copy: TrayCopy, amount: Rendered)
    requires
        copy.money is Some,
        copy.money->0.rate.is_finite(),
        copy.money->0.rate.value() > 0,
    ensures
        amount_of(copy, amount) == copy.money->0.symbol@ + thousands_of(
            amount.magnitude@,
            amount.negative,
        ),
{
}

/// A row with one placeholder shows the amount in its place where the device is paired and there is
/// one, the mark for missing data where there is none, and the hint to sign in where the device is
/// not paired.
pub proof fn lemma_row_shows_its_value(
    head: Seq<char>,
    tail: Seq<char>,
    copy: TrayCopy,
    v: Rendered,
)
    requires
        !head.contains('{'),
        !tail.contains('{'),
    ensures
        value_row(head + "{value}"@ + tail, copy, Some(v), true) == head + amount_of(copy, v) + tail,
        value_row(head + "{value}"@ + tail, copy, None, true) == head + copy.no_data@ + tail,
        value_row(head + "{value}"@ + tail, copy, Some(v), false) == head + copy.not_paired@ + tail,
        value_row(head + "{value}"@ + tail, copy, None, false) == head + copy.not_paired@ + tail,
{
    reveal_strlit("{value}");
    text::lemma_replaced_once(head, tail, "{value}"@, amount_of(copy, v));
    text::lemma_replaced_once(head, tail, "{value}"@, copy.no_data@);
    text::lemma_replaced_once(head, tail, "{value}"@, copy.not_paired@);
}

/// The unit of an age, and how many of it.
proof fn lemma_age_is_told(
    copy: TrayCopy,
    seconds: u64,
    template: Seq<char>,
    head: Seq<char>,
    tail: Seq<char>,
    before: Seq<char>,
    after: Seq<char>,
    n: nat,
)
    requires
        age_parts(copy, seconds as nat) == (template, n),
        template == head + "{n}"@ + tail,
        copy.synced_ago_template@ == before + "{age}"@ + after,
        !head.contains('{'),
        !tail.contains('{'),
        !before.contains('{'),
        !after.contains('{'),
    ensures
        synced_row(copy, Some(seconds)) == before + (head + text::decimal_of(n) + tail) + after,
{
    reveal_strlit("{n}");
    reveal_strlit("{age}");
    text::lemma_replaced_once(head, tail, "{n}"@, text::decimal_of(n));
    text::lemma_replaced_once(before, after, "{age}"@, head + text::decimal_of(n) + tail);
}

/// The English menu, word by word: what its rows say of a paired device, of missing figures, of a
/// device that is not paired, and of the last sync.
pub proof fn lemma_english_menu(h: TrayDynamicHandles, copy: TrayCopy, m: TrayMetrics)
    requires
        copy.is_english(),
        labels_from(h, copy),
        rows_from(h, copy, m),
    ensures
        h.header_item@ == "CLI Pulse"@,
        h.open_item@ == "Open CLI Pulse"@,
        h.quit_item@ == "Quit"@,
        m.paired && m.month_so_far_usd is Some ==> h.month_item@ == "Month so far: $"@ + m.month_so_far_usd->0.dollars@,
        m.paired && m.month_so_far_usd is None ==> h.month_item@ == "Month so far: —"@,
        !m.paired ==> h.month_item@ == "Month so far: Not signed in"@,
        m.paired && m.forecast_usd is Some ==> h.forecast_item@ == "Forecast: $"@ + m.forecast_usd->0.dollars@,
        m.paired && m.forecast_usd is None ==> h.forecast_item@ == "Forecast: —"@,
        !m.paired ==> h.forecast_item@ == "Forecast: Not signed in"@,
        m.synced_seconds_ago is None ==> h.synced_item@ == "Not synced yet"@,
        m.synced_seconds_ago matches Some(s) ==> {
            &&& s < 60 ==> h.synced_item@ == "Synced "@ + text::decimal_of(s as nat) + " s ago"@
            &&& 60 <= s < 3600 ==> h.synced_item@ == "Synced "@ + text::decimal_of((s / 60) as nat)
                + " min ago"@
            &&& 3600 <= s < 86_400 ==> h.synced_item@ == "Synced "@ + text::decimal_of(
                (s / 3600) as nat,
            ) + " hr ago"@
            &&& 86_400 <= s ==> h.synced_item@ == "Synced "@ + text::decimal_of((s / 86_400) as nat)
                + " d ago"@
        },
{
    reveal_strlit("Month so far: {value}");
    reveal_strlit("Forecast: {value}");
    reveal_strlit("{value}");
    reveal_strlit("Month so far: $");
    reveal_strlit("Month so far: —");
    reveal_strlit("Month so far: Not signed in");
    reveal_strlit("Forecast: $");
    reveal_strlit("Forecast: —");
    reveal_strlit("Forecast: Not signed in");
    reveal_strlit("Not signed in");
    reveal_strlit("—");
    reveal_strlit("$");
    let none = Seq::<char>::empty();
    let month = "Month so far: {value}"@.take(14);
    let forecast = "Forecast: {value}"@.take(10);
    assert("Month so far: {value}"@ =~= month + "{value}"@ + none);
    assert("Forecast: {value}"@ =~= forecast + "{value}"@ + none);
    let any = arbitrary::<Rendered>();
    let so_far = match m.month_so_far_usd {
        Some(v) => v,
        None => any,
    };
    let expected = match m.forecast_usd {
        Some(v) => v,
        None => any,
    };
    lemma_row_shows_its_value(month, none, copy, so_far);
    lemma_row_shows_its_value(forecast, none, copy, expected);
    assert(month + ("$"@ + so_far.dollars@) + none =~= "Month so far: $"@ + so_far.dollars@);
    assert(forecast + ("$"@ + expected.dollars@) + none =~= "Forecast: $"@ + expected.dollars@);
    assert(month + "—"@ + none =~= "Month so far: —"@);
    assert(forecast + "—"@ + none =~= "Forecast: —"@);
    assert(month + "Not signed in"@ + none =~= "Month so far: Not signed in"@);
    assert(forecast + "Not signed in"@ + none =~= "Forecast: Not signed in"@);
    if m.synced_seconds_ago is Some {
        let s = m.synced_seconds_ago->0;
        reveal_strlit("Synced {age} ago");
        reveal_strlit("{age}");
        reveal_strlit("{n}");
        reveal_strlit("Synced ");
        let (before, after) = ("Synced {age} ago"@.take(7), "Synced {age} ago"@.skip(12));
        assert("Synced {age} ago"@ =~= before + "{age}"@ + after);
        assert(before =~= "Synced "@);
        let (template, n) = age_parts(copy, s as nat);
        let tail = template.skip(3);
        let dec = text::decimal_of(n);
        if s < 60 {
            reveal_strlit("{n} s");
            reveal_strlit(" s ago");
            assert(template =~= none + "{n}"@ + tail);
            lemma_age_is_told(copy, s, template, none, tail, before, after, n);
            assert(before + (none + dec + tail) + after =~= "Synced "@ + dec + " s ago"@);
        } else if s < 3600 {
            reveal_strlit("{n} min");
            reveal_strlit(" min ago");
            assert(template =~= none + "{n}"@ + tail);
            lemma_age_is_told(copy, s, template, none, tail, before, after, n);
            assert(before + (none + dec + tail) + after =~= "Synced "@ + dec + " min ago"@);
        } else if s < 86_400 {
            reveal_strlit("{n} hr");
            reveal_strlit(" hr ago");
            assert(template =~= none + "{n}"@ + tail);
            lemma_age_is_told(copy, s, template, none, tail, before, after, n);
            assert(before + (none + dec + tail) + after =~= "Synced "@ + dec + " hr ago"@);
        } else {
            reveal_strlit("{n} d");
            reveal_strlit(" d ago");
            assert(template =~= none + "{n}"@ + tail);
            lemma_age_is_told(copy, s, template, none, tail, before, after, n);
            assert(before + (none + dec + tail) + after =~= "Synced "@ + dec + " d ago"@);
        }
    }
}

/// In any language, an age is told in the unit that fits it, in the place that the row gives it.
pub proof fn lemma_age_in_any_language(
    copy: TrayCopy,
    seconds: u64,
    head: Seq<char>,
    tail: Seq<char>,
    before: Seq<char>,
    after: Seq<char>,
)
    requires
        copy.synced_ago_template@ == before + "{age}"@ + after,
        !head.contains('{'),
        !tail.contains('{'),
        !before.contains('{'),
        !after.contains('{'),
    ensures
        seconds < 60 && copy.age_seconds_template@ == head + "{n}"@ + tail ==> synced_row(
            copy,
            Some(seconds),
        ) == before + (head + text::decimal_of(seconds as nat) + tail) + after,
        60 <= seconds < 3600 && copy.age_minutes_template@ == head + "{n}"@ + tail ==> synced_row(
            copy,
            Some(seconds),
        ) == before + (head + text::decimal_of((seconds / 60) as nat) + tail) + after,
        3600 <= seconds < 86_400 && copy.age_hours_template@ == head + "{n}"@ + tail ==> synced_row(
            copy,
            Some(seconds),
        ) == before + (head + text::decimal_of((seconds / 3600) as nat) + tail) + after,
        86_400 <= seconds && copy.age_days_template@ == head + "{n}"@ + tail ==> synced_row(
            copy,
            Some(seconds),
        ) == before + (head + text::decimal_of((seconds / 86_400) as nat) + tail) + after,
        synced_row(copy, None) == copy.synced_never@,
{
    let (template, n) = age_parts(copy, seconds as nat);
    if template == head + "{n}"@ + tail {
        lemma_age_is_told(copy, seconds, template, head, tail, before, after, n);
    }
}

/// Each live row is written from its own template and its own figure.
pub proof fn lemma_rows_have_their_own_figures(
    h: TrayDynamicHandles,
    copy: TrayCopy,
    m: TrayMetrics,
)
    requires
        rows_from(h, copy, m),
    ensures
        h.month_item@ == value_row(
            copy.month_so_far_template@,
            copy,
            m.month_so_far_usd,
            m.paired,
        ),
        h.forecast_item@ == value_row(copy.forecast_template@, copy, m.forecast_usd, m.paired),
        h.synced_item@ == synced_row(copy, m.synced_seconds_ago),
{
}

/// New texts reach the labels at once and are stored for the live rows, which stay until metrics are
/// applied; where the lock is poisoned the stored texts stay.
pub proof fn lemma_new_texts_reach_the_labels(
    before: TrayDynamicHandles,
    copy: TrayCopy,
    after: TrayDynamicHandles,
)
    requires
        copy_set(before, copy, after),
    ensures
        after.header_item@ == copy.header_label@,
        after.open_item@ == copy.open_label@,
        after.quit_item@ == copy.quit_label@,
        after.month_item == before.month_item,
        after.forecast_item == before.forecast_item,
        after.synced_item == before.synced_item,
        after.lock.poisoned == before.lock.poisoned,
        !before.lock.poisoned ==> after.lock.copy == copy,
        before.lock.poisoned ==> after.lock.copy == before.lock.copy,
{
}

/// New metrics reach the live rows, in the stored texts, and leave the labels and the texts alone;
/// where the lock is poisoned they are told in English.
pub proof fn lemma_new_metrics_reach_the_rows(
    before: TrayDynamicHandles,
    m: TrayMetrics,
    after: TrayDynamicHandles,
)
    requires
        metrics_applied(before, m, after),
    ensures
        after.header_item == before.header_item,
        after.open_item == before.open_item,
        after.quit_item == before.quit_item,
        after.lock == before.lock,
        !before.lock.poisoned ==> rows_from(after, before.lock.copy, m),
        before.lock.poisoned && !m.paired ==> after.month_item@ == "Month so far: Not signed in"@,
        before.lock.poisoned && m.synced_seconds_ago is None ==> after.synced_item@
            == "Not synced yet"@,
{
    if before.lock.poisoned {
        let c = choose|c: TrayCopy| #[trigger] c.is_english() && rows_from(after, c, m);
        reveal_strlit("Month so far: {value}");
        reveal_strlit("{value}");
        reveal_strlit("Not signed in");
        reveal_strlit("Month so far: Not signed in");
        let none = Seq::<char>::empty();
        let month = "Month so far: {value}"@.take(14);
        assert("Month so far: {value}"@ =~= month + "{value}"@ + none);
        lemma_row_shows_its_value(month, none, c, arbitrary());
        if !m.paired {
            lemma_unpaired_hides_amounts("Month so far: {value}"@, c, m.month_so_far_usd, None);
            assert(month + "Not signed in"@ + none =~= "Month so far: Not signed in"@);
        }
    }
}

/// The texts that are sent are the texts that are used, each in its place; age units that are not
/// sent are English, and a currency shows as many decimals as asked, four at most.
pub proof fn lemma_sent_texts_are_used(p: TrayCopyPayload, c: TrayCopy)
    requires
        copy_sent(p, c),
    ensures
        c.header_label == p.header_label,
        c.month_so_far_template == p.month_so_far_template,
        c.forecast_template == p.forecast_template,
        c.synced_ago_template == p.synced_ago_template,
        c.synced_never == p.synced_never,
        c.not_paired == p.not_paired,
        c.no_data == p.no_data,
        c.open_label == p.open_label,
        c.quit_label == p.quit_label,
        p.age_seconds_template matches Some(t) ==> c.age_seconds_template@ == t@,
        p.age_seconds_template is None ==> c.age_seconds_template@ == "{n} s"@,
        p.age_minutes_template matches Some(t) ==> c.age_minutes_template@ == t@,
        p.age_minutes_template is None ==> c.age_minutes_template@ == "{n} min"@,
        p.age_hours_template matches Some(t) ==> c.age_hours_template@ == t@,
        p.age_hours_template is None ==> c.age_hours_template@ == "{n} hr"@,
        p.age_days_template matches Some(t) ==> c.age_days_template@ == t@,
        p.age_days_template is None ==> c.age_days_template@ == "{n} d"@,
        c.money is Some <==> p.money is Some,
        p.money matches Some(q) ==> {
            &&& c.money->0.symbol == q.symbol
            &&& c.money->0.rate == q.rate
            &&& c.money->0.decimals <= 4
            &&& q.decimals <= 4 ==> c.money->0.decimals == q.decimals
            &&& q.decimals > 4 ==> c.money->0.decimals == 4
        },
{
}

/// The menu has eight rows, of which exactly the last two can be chosen: the one that opens the main
/// window and the one that quits. Each row carries its own text.
pub proof fn lemma_menu_is_in_order(rows: Seq<MenuRow>, h: TrayDynamicHandles)
    requires
        is_menu(rows, h),
    ensures
        rows.len() == 8,
        forall|i: int|
            0 <= i < 8 ==> ((#[trigger] rows[i]) is Item && rows[i]->enabled <==> i == 6 || i == 7),
        forall|i: int| 0 <= i < 8 ==> ((#[trigger] rows[i]) is Separator <==> i == 1 || i == 5),
        rows[0]->label@ == h.header_item@,
        rows[2]->label@ == h.month_item@ && rows[2]->id@ == "month"@,
        rows[3]->label@ == h.forecast_item@ && rows[3]->id@ == "forecast"@,
        rows[4]->label@ == h.synced_item@ && rows[4]->id@ == "synced"@,
        rows[6]->label@ == h.open_item@ && action_of(rows[6]->id@) == MenuAction::ShowMain,
        rows[7]->label@ == h.quit_item@ && action_of(rows[7]->id@) == MenuAction::Quit,
        action_of(rows[0]->id@) == MenuAction::Nothing,
        action_of(rows[2]->id@) == MenuAction::Nothing,
        action_of(rows[3]->id@) == MenuAction::Nothing,
        action_of(rows[4]->id@) == MenuAction::Nothing,
{
    reveal_strlit("open");
    reveal_strlit("quit");
    reveal_strlit("header");
    reveal_strlit("month");
    reveal_strlit("forecast");
    reveal_strlit("synced");
    assert("open"@[0] != "quit"@[0]);
    assert("header"@.len() == 6 && "month"@.len() == 5 && "forecast"@.len() == 8);
}

/// Choosing a row does something for two identifiers only.
pub proof fn lemma_only_two_rows_act(id: Seq<char>)
    ensures
        action_of(id) == MenuAction::ShowMain <==> id == "open"@,
        action_of(id) == MenuAction::Quit <==> id == "quit"@,
{
    reveal_strlit("open");
    reveal_strlit("quit");
    assert("open"@[0] != "quit"@[0]);
}

/// A row of the forecast says of its entry the day, the provider, the model, the three counts and
/// the cost, each in its place; an unknown cost counts as nothing.
pub proof fn lemma_row_says_its_entry(e: DailyEntry, r: DailyUsageRow)
    requires
        row_of(e, r),
    ensures
        r.metric_date == e.date,
        r.provider == e.provider,
        r.model == e.model,
        r.input_tokens == e.input_tokens,
        r.cached_tokens == e.cached_tokens,
        r.output_tokens == e.output_tokens,
        e.cost_usd matches Some(c) ==> r.cost == c,
        e.cost_usd is None ==> r.cost.bits == 0,
{
}

/// One more entry adds one row to the forecast's, behind the others, unless it counts messages.
pub proof fn lemma_each_entry_adds_a_row(entries: Seq<DailyEntry>, e: DailyEntry)
    ensures
        e.model@ == "__claude_msg__"@ ==> entries.push(e).filter(is_usage()) == entries.filter(
            is_usage(),
        ),
        e.model@ != "__claude_msg__"@ ==> entries.push(e).filter(is_usage()) == entries.filter(
            is_usage(),
        ).push(e),
{
    reveal(Seq::filter);
    assert(entries.push(e).drop_last() =~= entries);
}

/// New figures take the place of old ones, and old ones stay where there are no new ones; local
/// figures come before cached ones.
pub proof fn lemma_known_figures_are_shown(a: MonthFigures, b: Option<MonthFigures>)
    ensures
        first_known(Some(a), b) == Some(a),
        first_known(None, b) == b,
{
}

/// The live rows tell of a paired device the figures that are given, each in its place, and nothing
/// of one that is not paired.
pub proof fn lemma_metrics_tell_the_figures(
    m: TrayMetrics,
    paired: bool,
    month_so_far: Option<Rendered>,
    forecast: Option<Rendered>,
    synced_seconds_ago: Option<u64>,
)
    requires
        tells(m, paired, month_so_far, forecast, synced_seconds_ago),
    ensures
        m.paired == paired,
        paired ==> m.month_so_far_usd == month_so_far && m.forecast_usd == forecast
            && m.synced_seconds_ago == synced_seconds_ago,
        !paired ==> m.month_so_far_usd is None && m.forecast_usd is None
            && m.synced_seconds_ago is None,
{
}

} // verus!
