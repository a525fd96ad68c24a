//! The dashboard data of the signed-in user, kept for a short while.

use crate::account;
use crate::device::HelperConfig;
use crate::text;
use vstd::prelude::*;

verus! {

/// Nanoseconds for which a kept value is fresh.
pub const DASHBOARD_CACHE_TTL: u64 = 30_000_000_000;

/// A value and the time at which it was kept, in nanoseconds of a clock that never goes back.
pub struct Stamped<T> {
    pub at: u64,
    pub value: T,
}

impl<T> Stamped<T> {
    /// The value is fresh at this time.
    pub open spec fn fresh(self, now: u64) -> bool {
        now < self.at || now - self.at < DASHBOARD_CACHE_TTL
    }
}

/// What is kept for one user: the summary of the dashboard, of the providers, and the daily usage.
pub struct DashboardCache<D, P, U> {
    pub user_id: String,
    pub dashboard: Option<Stamped<D>>,
    pub providers: Option<Stamped<P>>,
    pub daily_usage: Option<Stamped<U>>,
}

/// A cache that holds nothing for the user.
pub open spec fn is_empty_for<D, P, U>(c: DashboardCache<D, P, U>, user_id: Seq<char>) -> bool {
    &&& c.user_id@ == user_id
    &&& c.dashboard is None
    &&& c.providers is None
    &&& c.daily_usage is None
}

/// The cache that a new value for the user goes into: the one that is kept where it is that user's,
/// an empty one otherwise.
pub open spec fn base_for<D, P, U>(
    kept: Option<DashboardCache<D, P, U>>,
    user_id: Seq<char>,
    base: DashboardCache<D, P, U>,
) -> bool {
    if kept is Some && kept->0.user_id@ == user_id {
        base == kept->0
    } else {
        is_empty_for(base, user_id)
    }
}

/// What a slot gives at a time.
pub open spec fn read_slot<T>(slot: Option<Stamped<T>>, now: u64) -> Option<T> {
    match slot {
        Some(s) => if s.fresh(now) {
            Some(s.value)
        } else {
            None
        },
        None => None,
    }
}

/// The value behind a reference.
pub open spec fn got<T>(r: Option<&T>) -> Option<T> {
    match r {
        Some(t) => Some(*t),
        None => None,
    }
}

/// What the cache gives the user of the dashboard's summary.
pub open spec fn dashboard_for<D, P, U>(
    kept: Option<DashboardCache<D, P, U>>,
    user_id: Seq<char>,
    now: u64,
) -> Option<D> {
    if kept is Some && kept->0.user_id@ == user_id {
        read_slot(kept->0.dashboard, now)
    } else {
        None
    }
}

/// What the cache gives the user of the providers' summary.
pub open spec fn providers_for<D, P, U>(
    kept: Option<DashboardCache<D, P, U>>,
    user_id: Seq<char>,
    now: u64,
) -> Option<P> {
    if kept is Some && kept->0.user_id@ == user_id {
        read_slot(kept->0.providers, now)
    } else {
        None
    }
}

/// What the cache gives the user of the daily usage.
pub open spec fn daily_usage_for<D, P, U>(
    kept: Option<DashboardCache<D, P, U>>,
    user_id: Seq<char>,
    now: u64,
) -> Option<U> {
    if kept is Some && kept->0.user_id@ == user_id {
        read_slot(kept->0.daily_usage, now)
    } else {
        None
    }
}

/// `after` is the cache once this summary of the dashboard was kept.
pub open spec fn dashboard_put<D, P, U>(
    before: Option<DashboardCache<D, P, U>>,
    user_id: Seq<char>,
    s: Stamped<D>,
    after: Option<DashboardCache<D, P, U>>,
) -> bool {
    exists|base: DashboardCache<D, P, U>| #[trigger]
        base_for(before, user_id, base) && after == Some(
            DashboardCache { dashboard: Some(s), ..base },
        )
}

/// `after` is the cache once this summary of the providers was kept.
pub open spec fn providers_put<D, P, U>(
    before: Option<DashboardCache<D, P, U>>,
    user_id: Seq<char>,
    s: Stamped<P>,
    after: Option<DashboardCache<D, P, U>>,
) -> bool {
    exists|base: DashboardCache<D, P, U>| #[trigger]
        base_for(before, user_id, base) && after == Some(
            DashboardCache { providers: Some(s), ..base },
        )
}

/// `after` is the cache once this daily usage was kept.
pub open spec fn daily_usage_put<D, P, U>(
    before: Option<DashboardCache<D, P, U>>,
    user_id: Seq<char>,
    s: Stamped<U>,
    after: Option<DashboardCache<D, P, U>>,
) -> bool {
    exists|base: DashboardCache<D, P, U>| #[trigger]
        base_for(before, user_id, base) && after == Some(
            DashboardCache { daily_usage: Some(s), ..base },
        )
}

/// Drops everything that is kept.
pub fn cache_invalidate<D, P, U>(kept: &mut Option<DashboardCache<D, P, U>>)
    ensures
        *final(kept) == None::<DashboardCache<D, P, U>>,
{
    *kept = None;
}

fn slot_value<T>(slot: &Option<Stamped<T>>, now: u64) -> (r: Option<&T>)
    ensures
        got(r) == read_slot(*slot, now),
{
    match slot {
        Some(s) => {
            if now < s.at || now - s.at < DASHBOARD_CACHE_TTL {
                Some(&s.value)
            } else {
                None
            }
        },
        None => None,
    }
}

/// The summary of the dashboard that is kept for the user and fresh.
pub fn cache_get_dashboard<'a, D, P, U>(
    kept: &'a Option<DashboardCache<D, P, U>>,
    user_id: &str,
    now: u64,
) -> (r: Option<&'a D>)
    ensures
        got(r) == dashboard_for(*kept, user_id@, now),
{
    match kept {
        Some(c) => {
            if text::same(c.user_id.as_str(), user_id) {
                slot_value(&c.dashboard, now)
            } else {
                None
            }
        },
        None => None,
    }
}

/// The summary of the providers that is kept for the user and fresh.
pub fn cache_get_providers<'a, D, P, U>(
    kept: &'a Option<DashboardCache<D, P, U>>,
    user_id: &str,
    now: u64,
) -> (r: Option<&'a P>)
    ensures
        got(r) == providers_for(*kept, user_id@, now),
{
    match kept {
        Some(c) => {
            if text::same(c.user_id.as_str(), user_id) {
                slot_value(&c.providers, now)
            } else {
                None
            }
        },
        None => None,
    }
}

/// The daily usage that is kept for the user and fresh.
pub fn cache_get_daily_usage<'a, D, P, U>(
    kept: &'a Option<DashboardCache<D, P, U>>,
    user_id: &str,
    now: u64,
) -> (r: Option<&'a U>)
    ensures
        got(r) == daily_usage_for(*kept, user_id@, now),
{
    match kept {
        Some(c) => {
            if text::same(c.user_id.as_str(), user_id) {
                slot_value(&c.daily_usage, now)
            } else {
                None
            }
        },
        None => None,
    }
}

fn base<D, P, U>(kept: Option<DashboardCache<D, P, U>>, user_id: &str) -> (r: DashboardCache<
    D,
    P,
    U,
>)
    ensures
        base_for(kept, user_id@, r),
{
    match kept {
        Some(c) => {
            if text::same(c.user_id.as_str(), user_id) {
                c
            } else {
                DashboardCache {
                    user_id: text::owned(user_id),
                    dashboard: None,
                    providers: None,
                    daily_usage: None,
                }
            }
        },
        None => DashboardCache {
            user_id: text::owned(user_id),
            dashboard: None,
            providers: None,
            daily_usage: None,
        },
    }
}

/// Keeps a summary of the dashboard for the user; what another user had is dropped.
pub fn cache_put_dashboard<D, P, U>(
    kept: &mut Option<DashboardCache<D, P, U>>,
    user_id: &str,
    v: D,
    now: u64,
)
    ensures
        dashboard_put(*old(kept), user_id@, (Stamped { at: now, value: v }), *final(kept)),
{
    let mut c = base(kept.take(), user_id);
    let ghost first = c;
    c.dashboard = Some(Stamped { at: now, value: v });
    *kept = Some(c);
    assert(base_for(*old(kept), user_id@, first));
}

/// Keeps a summary of the providers for the user; what another user had is dropped.
pub fn cache_put_providers<D, P, U>(
    kept: &mut Option<DashboardCache<D, P, U>>,
    user_id: &str,
    v: P,
    now: u64,
)
    ensures
        providers_put(*old(kept), user_id@, (Stamped { at: now, value: v }), *final(kept)),
{
    let mut c = base(kept.take(), user_id);
    let ghost first = c;
    c.providers = Some(Stamped { at: now, value: v });
    *kept = Some(c);
    assert(base_for(*old(kept), user_id@, first));
}

/// Keeps the daily usage for the user; what another user had is dropped.
pub fn cache_put_daily_usage<D, P, U>(
    kept: &mut Option<DashboardCache<D, P, U>>,
    user_id: &str,
    v: U,
    now: u64,
)
    ensures
        daily_usage_put(*old(kept), user_id@, (Stamped { at: now, value: v }), *final(kept)),
{
    let mut c = base(kept.take(), user_id);
    let ghost first = c;
    c.daily_usage = Some(Stamped { at: now, value: v });
    *kept = Some(c);
    assert(base_for(*old(kept), user_id@, first));
}

/// What was kept is given back to its user while it is fresh, and to nobody after that.
pub proof fn lemma_kept_is_given_back<D, P, U>(
    before: Option<DashboardCache<D, P, U>>,
    user_id: Seq<char>,
    at: u64,
    d: D,
    p: P,
    u: U,
    after: Option<DashboardCache<D, P, U>>,
    now: u64,
)
    requires
        now >= at,
    ensures
        dashboard_put(before, user_id, (Stamped { at, value: d }), after) ==> dashboard_for(
            after,
            user_id,
            now,
        ) == if now - at < DASHBOARD_CACHE_TTL {
            Some(d)
        } else {
            None
        },
        providers_put(before, user_id, (Stamped { at, value: p }), after) ==> providers_for(
            after,
            user_id,
            now,
        ) == if now - at < DASHBOARD_CACHE_TTL {
            Some(p)
        } else {
            None
        },
        daily_usage_put(before, user_id, (Stamped { at, value: u }), after) ==> daily_usage_for(
            after,
            user_id,
            now,
        ) == if now - at < DASHBOARD_CACHE_TTL {
            Some(u)
        } else {
            None
        },
{
}

/// After a value was kept for one user, no other user is given anything.
pub proof fn lemma_users_are_kept_apart<D, P, U>(
    before: Option<DashboardCache<D, P, U>>,
    user_id: Seq<char>,
    d: Stamped<D>,
    p: Stamped<P>,
    u: Stamped<U>,
    after: Option<DashboardCache<D, P, U>>,
    other: Seq<char>,
    now: u64,
)
    requires
        other != user_id,
        dashboard_put(before, user_id, d, after) || providers_put(before, user_id, p, after)
            || daily_usage_put(before, user_id, u, after),
    ensures
        dashboard_for(after, other, now) is None,
        providers_for(after, other, now) is None,
        daily_usage_for(after, other, now) is None,
{
}

/// Keeping one value leaves the other two of the same user as they were.
pub proof fn lemma_slots_are_apart<D, P, U>(
    before: Option<DashboardCache<D, P, U>>,
    user_id: Seq<char>,
    d: Stamped<D>,
    p: Stamped<P>,
    u: Stamped<U>,
    after: Option<DashboardCache<D, P, U>>,
    now: u64,
)
    ensures
        dashboard_put(before, user_id, d, after) ==> providers_for(after, user_id, now)
            == providers_for(before, user_id, now) && daily_usage_for(after, user_id, now)
            == daily_usage_for(before, user_id, now),
        providers_put(before, user_id, p, after) ==> dashboard_for(after, user_id, now)
            == dashboard_for(before, user_id, now) && daily_usage_for(after, user_id, now)
            == daily_usage_for(before, user_id, now),
        daily_usage_put(before, user_id, u, after) ==> dashboard_for(after, user_id, now)
            == dashboard_for(before, user_id, now) && providers_for(after, user_id, now)
            == providers_for(before, user_id, now),
{
}

/// An empty cache gives nobody anything.
pub proof fn lemma_invalidated_gives_nothing<D, P, U>(user_id: Seq<char>, now: u64)
    ensures
        dashboard_for(None::<DashboardCache<D, P, U>>, user_id, now) is None,
        providers_for(None::<DashboardCache<D, P, U>>, user_id, now) is None,
        daily_usage_for(None::<DashboardCache<D, P, U>>, user_id, now) is None,
{
}

/// What a reading of dashboard data does first.
pub enum ReadPlan<'a, T> {
    /// Tell the user these words.
    Fail(String),
    /// Answer with what is kept.
    Kept(&'a T),
    /// Ask the server on behalf of the user, then keep the answer.
    Fetch { user_id: String },
}

/// What a reading does first, given what is kept for the user.
pub fn read_plan<'a, T>(user: Result<String, String>, kept: Option<&'a T>) -> (r: ReadPlan<'a, T>)
    ensures
        match user {
            Err(e) => r matches ReadPlan::Fail(words) && words == e,
            Ok(user_id) => match kept {
                Some(v) => r matches ReadPlan::Kept(k) && *k == *v,
                None => r matches ReadPlan::Fetch { user_id: u } && u == user_id,
            },
        },
{
    match user {
        Err(e) => ReadPlan::Fail(e),
        Ok(user_id) => match kept {
            Some(v) => ReadPlan::Kept(v),
            None => ReadPlan::Fetch { user_id },
        },
    }
}

/// What a reading of the dashboard's summary does first.
pub fn get_dashboard_summary<'a, D, P, U>(
    cfg: Option<HelperConfig>,
    kept: &'a Option<DashboardCache<D, P, U>>,
    now: u64,
) -> (r: ReadPlan<'a, D>)
    ensures
        cfg is None ==> r is Fail && r->Fail_0@ == account::SIGN_IN_FOR_DASHBOARD@,
        cfg matches Some(c) ==> match dashboard_for(*kept, c.user_id@, now) {
            Some(v) => r is Kept && *r->Kept_0 == v,
            None => r is Fetch && r->user_id == c.user_id,
        },
{
    match account::required(cfg, account::SIGN_IN_FOR_DASHBOARD) {
        Err(e) => ReadPlan::Fail(e),
        Ok(c) => {
            let found = cache_get_dashboard(kept, c.user_id.as_str(), now);
            read_plan(Ok(c.user_id), found)
        },
    }
}

/// What a reading of the providers' summary does first.
pub fn get_provider_summary<'a, D, P, U>(
    cfg: Option<HelperConfig>,
    kept: &'a Option<DashboardCache<D, P, U>>,
    now: u64,
) -> (r: ReadPlan<'a, P>)
    ensures
        cfg is None ==> r is Fail && r->Fail_0@ == account::SIGN_IN_FOR_DASHBOARD@,
        cfg matches Some(c) ==> match providers_for(*kept, c.user_id@, now) {
            Some(v) => r is Kept && *r->Kept_0 == v,
            None => r is Fetch && r->user_id == c.user_id,
        },
{
    match account::required(cfg, account::SIGN_IN_FOR_DASHBOARD) {
        Err(e) => ReadPlan::Fail(e),
        Ok(c) => {
            let found = cache_get_providers(kept, c.user_id.as_str(), now);
            read_plan(Ok(c.user_id), found)
        },
    }
}

/// What a reading of the user's daily usage does first.
pub fn ensure_daily_usage<'a, D, P, U>(
    user_id: String,
    kept: &'a Option<DashboardCache<D, P, U>>,
    now: u64,
) -> (r: ReadPlan<'a, U>)
    ensures
        match daily_usage_for(*kept, user_id@, now) {
            Some(v) => r is Kept && *r->Kept_0 == v,
            None => r is Fetch && r->user_id == user_id,
        },
{
    let found = cache_get_daily_usage(kept, user_id.as_str(), now);
    read_plan(Ok(user_id), found)
}

/// What is kept is fresh for thirty seconds, not a nanosecond longer, and is given as it was kept.
pub proof fn lemma_fresh_for_thirty_seconds<T>(at: u64, value: T, passed: u64)
    requires
        at + passed <= u64::MAX,
    ensures
        passed < 30_000_000_000 ==> read_slot(
            Some(Stamped { at, value }),
            (at + passed) as u64,
        ) == Some(value),
        passed >= 30_000_000_000 ==> read_slot(
            Some(Stamped { at, value }),
            (at + passed) as u64,
        ) is None,
        read_slot(None::<Stamped<T>>, at) is None,
{
}

/// A value that is kept later takes the place of the one before.
pub proof fn lemma_later_value_counts<D, P, U>(
    before: Option<DashboardCache<D, P, U>>,
    user_id: Seq<char>,
    first: Stamped<D>,
    between: Option<DashboardCache<D, P, U>>,
    last: Stamped<D>,
    after: Option<DashboardCache<D, P, U>>,
)
    requires
        dashboard_put(before, user_id, first, between),
        dashboard_put(between, user_id, last, after),
    ensures
        dashboard_for(after, user_id, last.at) == Some(last.value),
{
}

/// What was kept is given as well where the clock reads earlier than when it was kept.
pub proof fn lemma_earlier_clock_still_gives<T>(at: u64, value: T, now: u64)
    requires
        now < at,
    ensures
        read_slot(Some(Stamped { at, value }), now) == Some(value),
{
}

} // verus!
