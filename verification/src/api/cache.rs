//! Cached records and their freshness.
//!
//! A record is a payload with the second at which it was stored. How fresh
//! it is depends on its age alone: below the soft limit of its kind it is
//! used as it is; below the hard limit it is used while a new one is
//! fetched; from the hard limit on it is not used before a fetch was tried.

use crate::api::plan::{plan_views, SubscriptionData};
use crate::api::usage::UsageData;
use std::time::{SystemTime, UNIX_EPOCH};
use vstd::prelude::*;

verus! {

/// Seconds for which a list of subscriptions is fresh.
pub const SUBSCRIPTION_TTL_SECONDS: u64 = 1800;

/// Seconds for which a usage record is fresh.
pub const USAGE_TTL_SECONDS: u64 = 60;

/// Seconds from which on a record of either kind must be fetched anew.
pub const FORCE_REFRESH_THRESHOLD: u64 = 3600;

/// Seconds that a refresh in the background waits before it fetches, so
/// that it does not race a fetch that is already under way.
pub const REFRESH_DELAY_SECONDS: u64 = 1;

/// How a cached record is to be used.
#[derive(Debug, Clone, Copy, PartialEq, Eq, Structural)]
pub enum CacheStrategy {
    /// Fresh: use it.
    Valid,
    /// Past the soft limit: use it, and fetch a new one in the background.
    StaleButUsable,
    /// Past the hard limit: fetch a new one first.
    MustRefresh,
}

/// The two kinds of record that are cached.
#[derive(Debug, Clone, Copy, PartialEq, Eq, Structural)]
pub enum CacheKind {
    Usage,
    Subscriptions,
}

/// A payload and the second, counted from the epoch, at which it was stored.
#[derive(Debug, Clone)]
pub struct CachedData<T> {
    pub data: T,
    pub timestamp: u64,
}

/// The soft limit of a kind of record, in seconds.
pub open spec fn soft_ttl(kind: CacheKind) -> u64 {
    match kind {
        CacheKind::Usage => USAGE_TTL_SECONDS,
        CacheKind::Subscriptions => SUBSCRIPTION_TTL_SECONDS,
    }
}

/// The freshness of a record of the given age under a soft limit.
pub open spec fn strategy_for_age(age: int, ttl: int) -> CacheStrategy {
    if age < ttl {
        CacheStrategy::Valid
    } else if age < FORCE_REFRESH_THRESHOLD {
        CacheStrategy::StaleButUsable
    } else {
        CacheStrategy::MustRefresh
    }
}

/// The seconds from `stored` to `now`; negative where `now` is the earlier.
pub open spec fn age_between(stored: u64, now: u64) -> int {
    now - stored
}

/// The freshness at `now` of a record stored at `stored`.
pub open spec fn strategy_between(stored: u64, now: u64, ttl: u64) -> CacheStrategy {
    strategy_for_age(age_between(stored, now), ttl as int)
}

/// What reading a record at `now` gives: nothing where there is none, else
/// its payload and its freshness.
pub open spec fn loaded<T>(record: Option<CachedData<T>>, kind: CacheKind, now: u64) -> Option<
    (T, CacheStrategy),
> {
    match record {
        Some(entry) => Some((entry.data, strategy_between(entry.timestamp, now, soft_ttl(kind)))),
        None => None,
    }
}

/// The record that storing `payload` at `now` leaves.
pub open spec fn stored<T>(payload: T, now: u64) -> CachedData<T> {
    CachedData { data: payload, timestamp: now }
}

/// The name of the file that holds the record of a kind.
pub fn cache_file_name(kind: CacheKind) -> (name: &'static str)
    ensures
        name@ == match kind {
            CacheKind::Usage => "usage.json"@,
            CacheKind::Subscriptions => "subscriptions.json"@,
        },
{
    match kind {
        CacheKind::Usage => "usage.json",
        CacheKind::Subscriptions => "subscriptions.json",
    }
}

/// Reads the clock: `SystemTime::now`, as whole seconds since the epoch
/// (0 for a clock set before it). Nothing is claimed of the result.
#[verifier::external_body]
pub(crate) fn current_timestamp() -> u64 {
    SystemTime::now().duration_since(UNIX_EPOCH).unwrap_or_default().as_secs()
}

/// The soft limit of a kind of record, in seconds.
pub fn ttl_seconds(kind: CacheKind) -> (ttl: u64)
    ensures
        ttl == soft_ttl(kind),
{
    match kind {
        CacheKind::Usage => USAGE_TTL_SECONDS,
        CacheKind::Subscriptions => SUBSCRIPTION_TTL_SECONDS,
    }
}

impl<T> CachedData<T> {
    /// The record of `data` stored at `now`.
    pub fn stamped(data: T, now: u64) -> (r: Self)
        ensures
            r == stored(data, now),
    {
        CachedData { data, timestamp: now }
    }

    /// The record of `data` stored at this moment.
    pub fn new(data: T) -> (r: Self)
        ensures
            r.data == data,
    {
        let now: u64 = current_timestamp();
        Self::stamped(data, now)
    }

    /// The seconds from the moment the record was stored to `now`;
    /// negative where `now` is the earlier of the two.
    pub fn age_at(&self, now: u64) -> (age: i128)
        ensures
            age == age_between(self.timestamp, now),
    {
        (now as i128) - (self.timestamp as i128)
    }

    /// The age of the record at this moment.
    pub fn get_age(&self) -> (age: i128)
        ensures
            exists|now: u64| age == #[trigger] age_between(self.timestamp, now),
    {
        let now: u64 = current_timestamp();
        self.age_at(now)
    }

    /// The freshness of the record at `now` under the soft limit
    /// `ttl_seconds`.
    pub fn strategy_at(&self, now: u64, ttl_seconds: u64) -> (s: CacheStrategy)
        ensures
            s == strategy_between(self.timestamp, now, ttl_seconds),
    {
        let age: i128 = self.age_at(now);
        if age < ttl_seconds as i128 {
            CacheStrategy::Valid
        } else if age < FORCE_REFRESH_THRESHOLD as i128 {
            CacheStrategy::StaleButUsable
        } else {
            CacheStrategy::MustRefresh
        }
    }

    /// The freshness of the record at this moment.
    pub fn get_strategy(&self, ttl_seconds: u64) -> (s: CacheStrategy)
        ensures
            exists|now: u64| s == #[trigger] strategy_between(self.timestamp, now, ttl_seconds),
    {
        let now: u64 = current_timestamp();
        self.strategy_at(now, ttl_seconds)
    }
}

/// Reads a record at `now`: its payload and its freshness, or nothing
/// where there is no record.
pub fn load_at<T>(record: Option<CachedData<T>>, kind: CacheKind, now: u64) -> (r: Option<
    (T, CacheStrategy),
>)
    ensures
        r == loaded(record, kind, now),
{
    match record {
        Some(entry) => {
            let strategy = entry.strategy_at(now, ttl_seconds(kind));
            Some((entry.data, strategy))
        },
        None => None,
    }
}

/// The usage record that was read from the cache, with its freshness at
/// this moment. `record` is `None` where no record exists or what exists
/// cannot be read as one.
pub fn get_cached_usage(record: Option<CachedData<UsageData>>) -> (r: Option<
    (UsageData, CacheStrategy),
>)
    ensures
        exists|now: u64| r == #[trigger] loaded(record, CacheKind::Usage, now),
{
    let now: u64 = current_timestamp();
    load_at(record, CacheKind::Usage, now)
}

/// The list of subscriptions that was read from the cache, with its
/// freshness at this moment. `record` is `None` where no record exists or
/// what exists cannot be read as one.
pub fn get_cached_subscriptions(record: Option<CachedData<Vec<SubscriptionData>>>) -> (r: Option<
    (Vec<SubscriptionData>, CacheStrategy),
>)
    ensures
        exists|now: u64| r == #[trigger] loaded(record, CacheKind::Subscriptions, now),
{
    let now: u64 = current_timestamp();
    load_at(record, CacheKind::Subscriptions, now)
}

/// The record to write for a usage record stored at this moment.
pub fn save_cached_usage(data: &UsageData) -> (r: CachedData<UsageData>)
    ensures
        r.data@ == data@,
{
    CachedData::new(data.clone())
}

/// Copies of the plans, in order.
pub fn copy_plans(plans: &Vec<SubscriptionData>) -> (r: Vec<SubscriptionData>)
    ensures
        plan_views(r@) == plan_views(plans@),
{
    let mut out: Vec<SubscriptionData> = Vec::new();
    let n: usize = plans.len();
    let mut i: usize = 0;
    while i < n
        invariant
            n == plans@.len(),
            i <= n,
            out@.len() == i,
            forall|m: int| 0 <= m < i ==> (#[trigger] out@[m])@ == plans@[m]@,
        decreases n - i,
    {
        out.push(plans[i].clone());
        i = i + 1;
    }
    assert(plan_views(out@) =~= plan_views(plans@));
    out
}

/// The record to write for a list of subscriptions stored at this moment.
pub fn save_cached_subscriptions(data: &Vec<SubscriptionData>) -> (r: CachedData<
    Vec<SubscriptionData>,
>)
    ensures
        plan_views(r.data@) == plan_views(data@),
{
    CachedData::new(copy_plans(data))
}

/// The record that a refresh in the background leaves: the payload it
/// fetched, stored at `now`, or, where it fetched nothing, the record that
/// was there before, untouched.
pub fn refreshed<T>(previous: Option<CachedData<T>>, fetched: Option<T>, now: u64) -> (r: Option<
    CachedData<T>,
>)
    ensures
        r == match fetched {
            Some(payload) => Some(stored(payload, now)),
            None => previous,
        },
{
    match fetched {
        Some(payload) => Some(CachedData::stamped(payload, now)),
        None => previous,
    }
}

/// What to do on a request, given what the cache holds.
#[derive(Debug, Clone, Copy, PartialEq, Eq, Structural)]
pub enum CacheAction {
    /// Answer from the cache.
    UseCached,
    /// Answer from the cache and start a refresh in the background.
    UseCachedAndRefresh,
    /// Fetch before answering.
    Fetch,
}

/// The action for a freshness, `None` standing for an empty cache.
pub open spec fn action_of(strategy: Option<CacheStrategy>) -> CacheAction {
    match strategy {
        Some(CacheStrategy::Valid) => CacheAction::UseCached,
        Some(CacheStrategy::StaleButUsable) => CacheAction::UseCachedAndRefresh,
        Some(CacheStrategy::MustRefresh) => CacheAction::Fetch,
        None => CacheAction::Fetch,
    }
}

/// What to do on a request, given the freshness of what the cache holds.
pub fn action_for(strategy: Option<CacheStrategy>) -> (a: CacheAction)
    ensures
        a == action_of(strategy),
{
    match strategy {
        Some(CacheStrategy::Valid) => CacheAction::UseCached,
        Some(CacheStrategy::StaleButUsable) => CacheAction::UseCachedAndRefresh,
        Some(CacheStrategy::MustRefresh) => CacheAction::Fetch,
        None => CacheAction::Fetch,
    }
}

/// The answer after a fetch: what was fetched, or, where the fetch failed,
/// what the cache held, however old; nothing where it held nothing.
pub fn after_fetch<T>(cached: Option<T>, fetched: Option<T>) -> (r: Option<T>)
    ensures
        r == match fetched {
            Some(payload) => Some(payload),
            None => cached,
        },
{
    match fetched {
        Some(payload) => Some(payload),
        None => cached,
    }
}

/// A record read at the second at which it was stored holds the payload
/// that was stored and is fresh.
pub proof fn lemma_store_then_load<T>(payload: T, kind: CacheKind, now: u64)
    ensures
        loaded(Some(stored(payload, now)), kind, now) == Some((payload, CacheStrategy::Valid)),
{
}

/// Freshness depends on the age alone, and only grows worse with it.
pub proof fn lemma_freshness_by_age(stored: u64, now: u64, ttl: u64)
    ensures
        now - stored < ttl ==> strategy_between(stored, now, ttl) == CacheStrategy::Valid,
        ttl <= now - stored < FORCE_REFRESH_THRESHOLD ==> strategy_between(stored, now, ttl)
            == CacheStrategy::StaleButUsable,
        now - stored >= FORCE_REFRESH_THRESHOLD && now - stored >= ttl ==> strategy_between(
            stored,
            now,
            ttl,
        ) == CacheStrategy::MustRefresh,
{
}

} // verus!
