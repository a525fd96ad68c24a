//! What the user interface may ask for: windows of time, and names of files to write.

use crate::clock;
use crate::clock::{Moment, DAY, HOUR};
use crate::text;
use vstd::prelude::*;
use vstd::string::*;

verus! {

/// Days of the scan that two periods are compared by: twice the longest period.
pub const BASELINE_DAYS: u32 = 180;

/// Projects that are shown at most.
pub const TOP_PROJECTS: usize = 5;

/// What is asked for, or the usual where nothing is, kept between the two bounds.
pub open spec fn kept_between(asked: Option<u32>, usual: u32, least: u32, most: u32) -> u32 {
    let n = match asked {
        Some(n) => n,
        None => usual,
    };
    if n < least {
        least
    } else if n > most {
        most
    } else {
        n
    }
}

fn keep_between(asked: Option<u32>, usual: u32, least: u32, most: u32) -> (r: u32)
    ensures
        r == kept_between(asked, usual, least, most),
{
    let n: u32 = match asked {
        Some(n) => n,
        None => usual,
    };
    if n < least {
        least
    } else if n > most {
        most
    } else {
        n
    }
}

/// Days that a local scan looks back.
pub open spec fn scan_window(days: Option<u32>) -> u32 {
    kept_between(days, 30, 1, 180)
}

/// Days of usage that are read from the server.
pub open spec fn usage_window(days: Option<u32>) -> u32 {
    kept_between(days, 30, 1, 90)
}

/// Hours of sessions that are read from the server.
pub open spec fn history_window(hours: Option<u32>) -> u32 {
    kept_between(hours, 24, 1, 168)
}

/// `since` lies this many seconds before `now`.
pub open spec fn lies_before(since: Moment, now: Moment, secs: int) -> bool {
    since.secs == now.secs - secs && since.nanos == now.nanos
}

/// Days that a local scan looks back: thirty unless asked, from one to a hundred and eighty.
pub fn scan_days(days: Option<u32>) -> (r: u32)
    ensures
        r == kept_between(days, 30, 1, 180),
        1 <= r <= 180,
        r == scan_window(days),
{
    keep_between(days, 30, 1, 180)
}

/// Days of usage that are read from the server: thirty unless asked, from one to ninety.
pub fn usage_days(days: Option<u32>) -> (r: u32)
    ensures
        r == kept_between(days, 30, 1, 90),
        1 <= r <= 90,
        r == usage_window(days),
{
    keep_between(days, 30, 1, 90)
}

/// Hours of sessions that are read from the server: twenty-four unless asked, from one to a week's.
pub fn history_hours(hours: Option<u32>) -> (r: u32)
    ensures
        r == kept_between(hours, 24, 1, 168),
        1 <= r <= 168,
        r == history_window(hours),
{
    keep_between(hours, 24, 1, 168)
}

/// The start of the sessions' history that is asked for.
pub fn history_since(now: &Moment, hours: Option<u32>) -> (r: Moment)
    requires
        now.wf(),
        now.secs >= 0,
    ensures
        r == (Moment {
            secs: (now.secs - kept_between(hours, 24, 1, 168) * HOUR) as i64,
            nanos: now.nanos,
        }),
        lies_before(r, *now, history_window(hours) * 3600),
        r.wf(),
{
    let span: i64 = history_hours(hours) as i64 * HOUR;
    Moment { secs: now.secs - span, nanos: now.nanos }
}

/// The start of the days over which projects are compared.
pub fn projects_since(now: &Moment, days: Option<u32>) -> (r: Moment)
    requires
        now.wf(),
        now.secs >= 0,
    ensures
        r == (Moment {
            secs: (now.secs - kept_between(days, 30, 1, 90) * DAY) as i64,
            nanos: now.nanos,
        }),
        lies_before(r, *now, usage_window(days) * 86_400),
        r.wf(),
{
    let span: i64 = usage_days(days) as i64 * DAY;
    Moment { secs: now.secs - span, nanos: now.nanos }
}

/// The text is the time that lies this many seconds after `now`.
pub open spec fn is_time_of(text: Seq<char>, now: Moment, secs: int) -> bool {
    text == clock::rfc3339_of((now.secs + secs) as i64, now.nanos)
}

/// The time until which an alert is put off, as it is sent.
pub fn snooze_alert(now: &Moment, minutes: i64) -> (r: String)
    requires
        now.wf(),
        now.after(minutes * 60) is Some,
    ensures
        r@ == clock::rfc3339_of((now.secs + minutes * 60) as i64, now.nanos),
        is_time_of(r@, *now, minutes * 60),
{
    let t = Moment { secs: now.secs + minutes * 60, nanos: now.nanos };
    t.to_rfc3339()
}

/// The time at which an alert is acknowledged, as it is sent.
pub fn acknowledge_alert(now: &Moment) -> (r: String)
    requires
        now.wf(),
    ensures
        r@ == clock::rfc3339_of(now.secs, now.nanos),
        is_time_of(r@, *now, 0),
{
    now.to_rfc3339()
}

/// The name under which an export may be written: the last component of the name that is asked for,
/// without the white space around it, unless it is empty, names a directory, or holds a colon.
pub open spec fn export_name_of(filename: Seq<char>) -> Option<Seq<char>> {
    let name = text::trimmed(text::last_component(filename));
    if name.len() == 0 || name == "."@ || name == ".."@ || text::has(name, ":"@) {
        None
    } else {
        Some(name)
    }
}

/// The name under which an export may be written.
pub fn sanitize_export_name(filename: &str) -> (r: Option<String>)
    ensures
        text::opt(r) == export_name_of(filename@),
{
    let last = text::basename(filename);
    let name = text::trim(last.as_str());
    let s = name.as_str();
    if s.unicode_len() == 0 || text::same(s, ".") || text::same(s, "..") || text::contains(s, ":") {
        None
    } else {
        Some(name)
    }
}

/// The export is written there, or this is why not.
pub open spec fn writes_to(
    r: Result<(String, String), String>,
    filename: Seq<char>,
    downloads: Option<String>,
) -> bool {
    match (export_name_of(filename), downloads) {
        (None, _) => r is Err && r->Err_0@ == "invalid export filename"@,
        (Some(_), None) => r is Err && r->Err_0@ == "no Downloads directory available"@,
        (Some(name), Some(dir)) => r is Ok && (r->Ok_0).0 == dir && (r->Ok_0).1@ == name,
    }
}

/// Where an export is written: the name and the directory, or what is told where either is missing.
pub fn write_export_file(filename: &str, downloads: Option<String>) -> (r: Result<
    (String, String),
    String,
>)
    ensures
        export_name_of(filename@) is None ==> r is Err && r->Err_0@ == "invalid export filename"@,
        export_name_of(filename@) is Some && downloads is None ==> r is Err && r->Err_0@
            == "no Downloads directory available"@,
        export_name_of(filename@) is Some && downloads is Some ==> r is Ok && r->Ok_0.0
            == downloads->0 && Some((r->Ok_0).1@) == export_name_of(filename@),
        writes_to(r, filename@, downloads),
{
    let name = match sanitize_export_name(filename) {
        Some(n) => n,
        None => {
            return Err(text::owned("invalid export filename"));
        },
    };
    match downloads {
        Some(d) => Ok((d, name)),
        None => Err(text::owned("no Downloads directory available")),
    }
}

/// No character of `s` parts the components of a path.
spec fn plain(s: Seq<char>) -> bool {
    forall|i: int| 0 <= i < s.len() ==> !text::separator(#[trigger] s[i])
}

proof fn lemma_last_component_is_plain(s: Seq<char>)
    ensures
        plain(text::last_component(s)),
    decreases s.len(),
{
    if s.len() > 0 && !text::separator(s.last()) {
        let before = text::last_component(s.drop_last());
        lemma_last_component_is_plain(s.drop_last());
        assert forall|i: int| 0 <= i < text::last_component(s).len() implies !text::separator(
            #[trigger] text::last_component(s)[i],
        ) by {
            if i < before.len() {
                assert(!text::separator(before[i]));
            }
        }
    }
}

proof fn lemma_trimmed_start_stays_plain(s: Seq<char>)
    requires
        plain(s),
    ensures
        plain(text::trimmed_start(s)),
    decreases s.len(),
{
    if s.len() > 0 && text::white(s[0]) {
        lemma_trimmed_start_stays_plain(s.skip(1));
    }
}

proof fn lemma_trimmed_end_stays_plain(s: Seq<char>)
    requires
        plain(s),
    ensures
        plain(text::trimmed_end(s)),
    decreases s.len(),
{
    if s.len() > 0 && text::white(s.last()) {
        lemma_trimmed_end_stays_plain(s.drop_last());
    }
}

/// An export's name is never empty, holds no path separator and no colon, and is not one of the two
/// names of directories: joined to a directory, it names a file in it.
pub proof fn lemma_export_stays_in_its_directory(filename: Seq<char>)
    ensures
        export_name_of(filename) matches Some(name) ==> {
            &&& name.len() > 0
            &&& name != "."@
            &&& name != ".."@
            &&& forall|i: int|
                0 <= i < name.len() ==> #[trigger] name[i] != '/' && name[i] != '\\' && name[i] != ':'
        },
{
    if export_name_of(filename) is Some {
        let last = text::last_component(filename);
        let name = text::trimmed(last);
        lemma_last_component_is_plain(filename);
        lemma_trimmed_start_stays_plain(last);
        lemma_trimmed_end_stays_plain(text::trimmed_start(last));
        assert forall|i: int| 0 <= i < name.len() implies #[trigger] name[i] != '/' && name[i]
            != '\\' && name[i] != ':' by {
            assert(!text::separator(name[i]));
            if name[i] == ':' {
                reveal_strlit(":");
                assert(name.subrange(i, i + 1) =~= ":"@);
                assert(text::occurs_at(name, ":"@, i));
            }
        }
    }
}

/// The name of a session's directory that is taken from its path is short and holds no path
/// separator.
pub proof fn lemma_basename_is_plain(args: crate::remote::StartSessionArgs)
    requires
        args.cwd_basename is None,
    ensures
        crate::remote::basename_of(args).len() <= crate::remote::BASENAME_MAX,
        forall|i: int|
            0 <= i < crate::remote::basename_of(args).len() ==> !text::separator(
                #[trigger] crate::remote::basename_of(args)[i],
            ),
{
    let last = text::last_component(args.cwd@);
    lemma_last_component_is_plain(args.cwd@);
    assert forall|i: int| 0 <= i < crate::remote::basename_of(args).len() implies !text::separator(
        #[trigger] crate::remote::basename_of(args)[i],
    ) by {
        assert(!text::separator(last[i]));
    }
}

/// What is asked for is given where it lies between the bounds, the nearer bound otherwise, and the
/// usual where nothing is asked for.
pub proof fn lemma_windows_are_kept_in_bounds(n: u32)
    ensures
        scan_window(None) == 30 && usage_window(None) == 30 && history_window(None) == 24,
        1 <= n <= 180 ==> scan_window(Some(n)) == n,
        n > 180 ==> scan_window(Some(n)) == 180,
        1 <= n <= 90 ==> usage_window(Some(n)) == n,
        n > 90 ==> usage_window(Some(n)) == 90,
        1 <= n <= 168 ==> history_window(Some(n)) == n,
        n > 168 ==> history_window(Some(n)) == 168,
        scan_window(Some(0)) == 1 && usage_window(Some(0)) == 1 && history_window(Some(0)) == 1,
{
}

/// A window of time ends now and is as long as asked, to the nanosecond.
pub proof fn lemma_window_is_as_long_as_asked(since: Moment, now: Moment, secs: int)
    requires
        lies_before(since, now, secs),
    ensures
        now.total_nanos() - since.total_nanos() == secs * 1_000_000_000,
{
}

proof fn lemma_no_colon(name: Seq<char>)
    requires
        forall|i: int| 0 <= i < name.len() ==> #[trigger] name[i] != ':',
    ensures
        !text::has(name, ":"@),
{
    reveal_strlit(":");
    if text::has(name, ":"@) {
        let i = choose|i: int| text::occurs_at(name, ":"@, i);
        assert(name.subrange(i, i + 1)[0] == ':');
        assert(name[i] == ':');
    }
}

/// An export keeps the name that is asked for, whatever directories and white space stand around it,
/// where it can be the name of a file: not empty, neither of the two names of directories, and
/// without a separator or a colon.
pub proof fn lemma_good_export_name_is_kept(
    dir: Seq<char>,
    before: Seq<char>,
    name: Seq<char>,
    after: Seq<char>,
)
    requires
        name.len() > 0,
        name != "."@,
        name != ".."@,
        !text::white(name[0]) && !text::white(name.last()),
        forall|i: int|
            0 <= i < name.len() ==> #[trigger] name[i] != '/' && name[i] != '\\' && name[i] != ':',
        forall|i: int| 0 <= i < before.len() ==> #[trigger] before[i] == ' ',
        forall|i: int| 0 <= i < after.len() ==> #[trigger] after[i] == ' ',
    ensures
        export_name_of(name) == Some(name),
        export_name_of(dir + seq!['/'] + (before + name + after)) == Some(name),
        export_name_of(dir + seq!['\\'] + (before + name + after)) == Some(name),
{
    let whole = before + name + after;
    let none = Seq::<char>::empty();
    lemma_no_colon(name);
    assert forall|i: int| 0 <= i < whole.len() implies #[trigger] whole[i] != '/' && whole[i]
        != '\\' by {
        if i < before.len() {
            assert(whole[i] == before[i]);
        } else if i < before.len() + name.len() {
            assert(whole[i] == name[i - before.len()]);
        } else {
            assert(whole[i] == after[i - before.len() - name.len()]);
        }
    }
    text::lemma_last_component_of(dir, whole);
    text::lemma_last_component_of(dir, name);
    assert forall|i: int| 0 <= i < before.len() implies text::white(#[trigger] before[i]) by {
        assert(before[i] == ' ');
    }
    assert forall|i: int| 0 <= i < after.len() implies text::white(#[trigger] after[i]) by {
        assert(after[i] == ' ');
    }
    text::lemma_trimmed_core(before, name, after);
    text::lemma_trimmed_core(none, name, none);
    assert(none + name + none =~= name);
}

/// An alert is put off by as many minutes as asked, to the second, and acknowledged at the moment
/// itself.
pub proof fn lemma_alert_is_put_off(text: Seq<char>, now: Moment, then: Moment, minutes: int)
    requires
        is_time_of(text, now, minutes * 60),
        now.after(minutes * 60) == Some(then),
    ensures
        text == clock::rfc3339_of(then.secs, then.nanos),
        then.total_nanos() - now.total_nanos() == minutes * 60_000_000_000,
{
}

/// An export is written into the downloads under its name; a name that cannot be one is told before a
/// directory that is missing.
pub proof fn lemma_export_is_written(
    r: Result<(String, String), String>,
    filename: Seq<char>,
    downloads: Option<String>,
)
    requires
        writes_to(r, filename, downloads),
    ensures
        r is Ok <==> export_name_of(filename) is Some && downloads is Some,
        r is Ok ==> (r->Ok_0).0 == downloads->0 && (r->Ok_0).1@ == export_name_of(filename)->0,
        export_name_of(filename) is None ==> r->Err_0@ == "invalid export filename"@,
        export_name_of(filename) is Some && downloads is None ==> r->Err_0@
            == "no Downloads directory available"@,
{
}

} // verus!
