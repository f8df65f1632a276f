//! Which figures are shown when the first provider's usage record cannot
//! be shown as it is: the record is rebuilt from the list of subscriptions.

use crate::api::cache::{action_for, after_fetch, CacheAction, CacheStrategy};
use crate::api::plan::{
    billable, billable_plans, billing_keys, billing_sorted, display_order, display_sorted,
    lemma_billing_sorted, optional_plan_views, plan_kind_of, plan_views,
    sort_by_billing_priority, PlanKind, PlanView, SubscriptionData,
};
use crate::api::usage::{
    code88_is_valid, consuming, optional_usage_view, percentage_of_limit, Code88UsageData,
    Code88View, UsageData, UsageView,
};
use crate::decimal::{hundredths_in, Decimal};
use crate::order::{comes_before, stable_order};
use crate::search::{
    first_where, is_first_where, lemma_first_where_found, lemma_first_where_none,
    lemma_first_where_sound,
};
use vstd::prelude::*;

verus! {

/// The plan is not the free one and has been drawn on.
pub open spec fn is_drawn_on(p: PlanView) -> bool {
    plan_kind_of(p.plan_name) != PlanKind::Free && p.current_credits < p.credit_limit
}

/// `is_drawn_on` as a condition to search by.
pub open spec fn drawn_on() -> spec_fn(PlanView) -> bool {
    |p: PlanView| is_drawn_on(p)
}

/// The plan is not the free one and has credits left.
pub open spec fn is_funded(p: PlanView) -> bool {
    plan_kind_of(p.plan_name) != PlanKind::Free && p.current_credits > 0
}

/// `is_funded` as a condition to search by.
pub open spec fn funded() -> spec_fn(PlanView) -> bool {
    |p: PlanView| is_funded(p)
}

/// The position, in a list in billing order, of the plan whose figures
/// count: the first that has been drawn on, else the first that has credits
/// left.
pub open spec fn effective_plan(sorted: Seq<PlanView>) -> Option<int> {
    match first_where(sorted, drawn_on()) {
        Some(i) => Some(i),
        None => first_where(sorted, funded()),
    }
}

/// The limit and balance to show for a list of subscriptions: those of the
/// effective plan among the plans in force, or zero where there is none.
pub open spec fn fallback_credits(plans: Seq<PlanView>) -> (int, int) {
    let sorted = billing_sorted(plans.filter(billable()));
    match effective_plan(sorted) {
        Some(i) => (sorted[i].credit_limit, sorted[i].current_credits),
        None => (0, 0),
    }
}

/// The usage record that shows a limit and a balance and lists no plans.
pub open spec fn snapshot_of(limit: int, current: int) -> Code88View {
    Code88View {
        total_tokens: 0,
        credit_limit: limit,
        current_credits: current,
        entities: Seq::empty(),
        used_tokens: hundredths_in(limit - current) as nat,
        remaining_tokens: hundredths_in(current) as nat,
        percentage_used: percentage_of_limit(limit, current),
    }
}

/// The usage record rebuilt from a list of subscriptions.
pub open spec fn reconstructed(plans: Seq<PlanView>) -> Code88View {
    snapshot_of(fallback_credits(plans).0, fallback_credits(plans).1)
}

/// The record is the first provider's and cannot be shown as it is.
pub open spec fn needs_fallback(usage: UsageView) -> bool {
    match usage {
        UsageView::Code88(data) => !code88_is_valid(data),
        UsageView::Packy(_) => false,
    }
}

/// The usage to show: the record itself where it can be shown; else the
/// record rebuilt from the subscriptions, or nothing where there is no list
/// of them.
pub open spec fn reconciled(usage: UsageView, plans: Option<Seq<PlanView>>) -> Option<UsageView> {
    if needs_fallback(usage) {
        match plans {
            Some(list) => Some(UsageView::Code88(reconstructed(list))),
            None => None,
        }
    } else {
        Some(usage)
    }
}

/// The position of the effective plan in a list in billing order.
pub fn select_effective_plan(sorted: &Vec<SubscriptionData>) -> (r: Option<usize>)
    ensures
        match r {
            Some(i) => effective_plan(plan_views(sorted@)) == Some(i as int) && i < sorted@.len(),
            None => effective_plan(plan_views(sorted@)) is None,
        },
{
    let ghost views = plan_views(sorted@);
    let n: usize = sorted.len();
    let mut i: usize = 0;
    while i < n
        invariant
            n == sorted@.len(),
            i <= n,
            views == plan_views(sorted@),
            forall|j: int| 0 <= j < i ==> !drawn_on()(#[trigger] views[j]),
        decreases n - i,
    {
        let plan = &sorted[i];
        if plan.kind() != PlanKind::Free && plan.current_credits.micros < plan.credit_limit.micros {
            proof {
                assert(is_first_where(views, drawn_on(), i as int));
                lemma_first_where_found(views, drawn_on(), i as int);
            }
            return Some(i);
        }
        i = i + 1;
    }
    proof {
        lemma_first_where_none(views, drawn_on());
    }
    let mut k: usize = 0;
    while k < n
        invariant
            n == sorted@.len(),
            k <= n,
            views == plan_views(sorted@),
            first_where(views, drawn_on()) is None,
            forall|j: int| 0 <= j < k ==> !funded()(#[trigger] views[j]),
        decreases n - k,
    {
        let plan = &sorted[k];
        if plan.kind() != PlanKind::Free && plan.current_credits.micros > 0 {
            proof {
                assert(is_first_where(views, funded(), k as int));
                lemma_first_where_found(views, funded(), k as int);
            }
            return Some(k);
        }
        k = k + 1;
    }
    proof {
        lemma_first_where_none(views, funded());
    }
    None
}

/// The usage record rebuilt from a list of subscriptions: of the plans in
/// force, in billing order, the figures of the first that has been drawn
/// on, else of the first that has credits left, else zero.
pub fn reconstruct_usage(plans: &Vec<SubscriptionData>) -> (r: Code88UsageData)
    ensures
        r@ == reconstructed(plan_views(plans@)),
{
    let in_force = billable_plans(plans);
    let sorted = sort_by_billing_priority(&in_force);
    let (limit, current) = match select_effective_plan(&sorted) {
        Some(i) => (sorted[i].credit_limit, sorted[i].current_credits),
        None => (Decimal::zero(), Decimal::zero()),
    };
    let mut usage = Code88UsageData {
        total_tokens: 0,
        credit_limit: limit,
        current_credits: current,
        subscription_entity_list: Vec::new(),
        used_tokens: 0,
        remaining_tokens: 0,
        percentage_used: Decimal::zero(),
    };
    proof {
        assert(usage@.entities =~= Seq::empty());
        lemma_first_where_none(usage@.entities, consuming());
    }
    usage.calculate();
    proof {
        assert(usage@.entities =~= Seq::empty());
    }
    usage
}

/// Whether the record is the first provider's and cannot be shown as it is.
pub fn usage_needs_fallback(usage: &UsageData) -> (r: bool)
    ensures
        r == needs_fallback(usage@),
{
    match usage {
        UsageData::Code88(data) => !data.is_valid(),
        UsageData::Packy(_) => false,
    }
}

/// The usage to show, given the record that was fetched and, where it was
/// fetched, the list of subscriptions.
pub fn reconcile(usage: UsageData, plans: Option<&Vec<SubscriptionData>>) -> (r: Option<UsageData>)
    ensures
        optional_usage_view(r) == reconciled(usage@, optional_plan_views(plans)),
{
    if usage_needs_fallback(&usage) {
        match plans {
            Some(list) => Some(UsageData::Code88(reconstruct_usage(list))),
            None => None,
        }
    } else {
        Some(usage)
    }
}

/// What a request is answered with, given what the cache holds and what a
/// fetch brought: what the cache holds while that is fresh or still of
/// use; else what was fetched, or, where nothing was, what the cache holds
/// all the same.
pub open spec fn answered<T>(cached: Option<(T, CacheStrategy)>, fetched: Option<T>) -> Option<T> {
    match cached {
        Some((held, strategy)) => if strategy == CacheStrategy::MustRefresh && fetched is Some {
            fetched
        } else {
            Some(held)
        },
        None => fetched,
    }
}

/// What a request is answered with. `fetched` is what a fetch brought,
/// `None` where it failed or none was made: one has to be made where
/// `action_for` says so of what the cache holds.
pub fn answer<T>(cached: Option<(T, CacheStrategy)>, fetched: Option<T>) -> (r: Option<T>)
    ensures
        r == answered(cached, fetched),
{
    match cached {
        Some((held, strategy)) => match action_for(Some(strategy)) {
            CacheAction::Fetch => after_fetch(Some(held), fetched),
            _ => Some(held),
        },
        None => after_fetch(None, fetched),
    }
}

/// The usage that counts: what the request for usage is answered with,
/// made good from the subscriptions where it cannot be shown as it is;
/// nothing where there is nothing to show.
pub open spec fn effective_usage(
    cached: Option<(UsageView, CacheStrategy)>,
    fetched: Option<UsageView>,
    plans: Option<Seq<PlanView>>,
) -> Option<UsageView> {
    match answered(cached, fetched) {
        Some(usage) => reconciled(usage, plans),
        None => None,
    }
}

/// The view of a cached record that may be missing.
pub open spec fn optional_cached_view(cached: Option<(UsageData, CacheStrategy)>) -> Option<
    (UsageView, CacheStrategy),
> {
    match cached {
        Some((usage, strategy)) => Some((usage@, strategy)),
        None => None,
    }
}

/// The usage that counts, or `None` where none is available.
pub fn get_effective_usage(
    cached: Option<(UsageData, CacheStrategy)>,
    fetched: Option<UsageData>,
    plans: Option<&Vec<SubscriptionData>>,
) -> (r: Option<UsageData>)
    ensures
        optional_usage_view(r) == effective_usage(
            optional_cached_view(cached),
            optional_usage_view(fetched),
            optional_plan_views(plans),
        ),
{
    match answer(cached, fetched) {
        Some(usage) => reconcile(usage, plans),
        None => None,
    }
}

/// The subscriptions that count: those that the request for them is
/// answered with, in the order for display; or `None` where none are
/// available.
pub fn get_effective_subscriptions(
    cached: Option<(Vec<SubscriptionData>, CacheStrategy)>,
    fetched: Option<Vec<SubscriptionData>>,
) -> (r: Option<Vec<SubscriptionData>>)
    ensures
        match answered(cached, fetched) {
            Some(plans) => r is Some && plan_views(r->0@) == display_sorted(plan_views(plans@)),
            None => r is None,
        },
{
    match answer(cached, fetched) {
        Some(plans) => Some(display_order(&plans)),
        None => None,
    }
}

/// A record that cannot be shown is never passed on: what is shown in its
/// place depends on the subscriptions alone.
pub proof fn lemma_fallback_ignores_record(
    first: UsageView,
    second: UsageView,
    plans: Option<Seq<PlanView>>,
)
    requires
        needs_fallback(first),
        needs_fallback(second),
    ensures
        reconciled(first, plans) == reconciled(second, plans),
        plans is Some ==> reconciled(first, plans) == Some(
            UsageView::Code88(reconstructed(plans->0)),
        ),
        plans is None ==> reconciled(first, plans) is None,
{
}

/// A record that can be shown is passed on unchanged.
pub proof fn lemma_valid_record_is_kept(usage: UsageView, plans: Option<Seq<PlanView>>)
    requires
        !needs_fallback(usage),
    ensures
        reconciled(usage, plans) == Some(usage),
{
}

/// The rebuilt record can be shown exactly when a plan was chosen whose
/// limit is positive.
pub proof fn lemma_reconstructed_valid(plans: Seq<PlanView>)
    ensures
        code88_is_valid(reconstructed(plans)) <==> fallback_credits(plans).0 > 0,
{
}

/// The plan whose figures are shown is a plan in force, not the free one;
/// and among the plans in force that have been drawn on, it is the one of
/// the highest rank and, within that rank, of the earliest purchase.
pub proof fn lemma_effective_plan_is_first(plans: Seq<PlanView>, c: int)
    requires
        plans.len() <= usize::MAX,
        0 <= c < plans.filter(billable()).len(),
        is_drawn_on(plans.filter(billable())[c]),
    ensures
        ({
            let in_force = plans.filter(billable());
            let order = stable_order(billing_keys(in_force), in_force.len());
            let sorted = billing_sorted(in_force);
            &&& effective_plan(sorted) is Some
            &&& 0 <= effective_plan(sorted)->0 < order.len()
            &&& is_drawn_on(sorted[effective_plan(sorted)->0])
            &&& order[effective_plan(sorted)->0] == c || comes_before(
                billing_keys(in_force),
                order[effective_plan(sorted)->0],
                c as usize,
            )
        }),
{
    let in_force = plans.filter(billable());
    plans.lemma_filter_len(billable());
    let keys = billing_keys(in_force);
    let order = stable_order(keys, in_force.len());
    let sorted = billing_sorted(in_force);
    lemma_billing_sorted(in_force);
    assert(order.contains(c as usize));
    let m = choose|m: int| 0 <= m < order.len() && order[m] == c as usize;
    assert(sorted[m] == in_force[c]);
    assert(drawn_on()(sorted[m]));
    lemma_first_where_sound(sorted, drawn_on());
    let k = first_where(sorted, drawn_on())->0;
    assert(is_first_where(sorted, drawn_on(), k));
    if k < m {
        assert(comes_before(keys, order[k], order[m]));
    }
}

} // verus!
