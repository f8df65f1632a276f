//! The usage segment: which figures it shows, and what it shows in their
//! place when nothing is left to use.

use crate::api::plan::{
    optional_plan_views, plan_kind_of, plan_views, PlanKind, PlanView, SubscriptionData,
};
use crate::api::reconcile::{needs_fallback, reconcile, reconciled, usage_needs_fallback};
use crate::api::settings::optional_chars;
use crate::api::usage::{
    optional_usage_view, usage_credit_limit, usage_has_only_free, usage_is_exhausted,
    usage_remaining_tokens, usage_used_tokens, UsageData, UsageView,
};
use crate::decimal::{
    cells, cells_of, clamped_percentage, percentage_of, Decimal, MICROS_PER_HUNDREDTH,
};
use crate::search::{
    first_where, is_first_where, lemma_first_where_found, lemma_first_where_none,
};
use crate::text::{contains, occurs_in};
use vstd::prelude::*;
use vstd::string::StrSliceExecFns;

verus! {

/// The relay services whose usage can be shown.
#[derive(Clone, Copy, Debug, PartialEq, Eq, Structural)]
pub enum Service {
    Code88,
    Packy,
}

/// How pressing a percentage of use is.
#[derive(Clone, Copy, Debug, PartialEq, Eq, Structural)]
pub enum StatusLevel {
    /// At most half is used.
    Ample,
    /// More than half and at most four fifths are used.
    Watch,
    /// More than four fifths are used.
    Urgent,
}

/// What to tell a user whose credits are used up.
#[derive(Clone, Copy, Debug, PartialEq, Eq, Structural)]
pub enum ExhaustedHint {
    /// More than one plan is active: another one can be used.
    OtherPlans,
    /// The one active plan can be reset by hand, this many times.
    ManualReset(i32),
    /// No reset is left.
    NoResets,
    /// Nothing is known of the plans.
    Recharge,
}

/// The figures of a usage record that every form of the segment carries.
#[derive(Clone, Copy, Debug, PartialEq, Eq, Structural)]
pub struct UsageFigures {
    pub used_tokens: u64,
    pub remaining_tokens: u64,
    pub credit_limit: Decimal,
}

/// A bar of ten cells for a percentage.
#[derive(Clone, Copy, Debug, PartialEq, Eq, Structural)]
pub struct Bar {
    pub percentage: Decimal,
    pub filled: u8,
}

/// What the usage segment shows.
#[derive(Clone, Copy, Debug, PartialEq, Eq, Structural)]
pub enum UsageSegment {
    /// The usage endpoint is none of a known service.
    Unsupported,
    /// No key is configured.
    MissingKey(Service),
    /// No usage is known yet.
    Loading(Service),
    /// The balance of the pay-as-you-go plan, which has no limit.
    PaygoBalance { service: Service, figures: UsageFigures, balance: Decimal },
    /// What is used of the pay-as-you-go plan's limit.
    PaygoProgress { service: Service, figures: UsageFigures, used: Decimal, limit: Decimal, bar: Bar },
    /// Nothing is left to use.
    Exhausted { service: Service, figures: UsageFigures, hint: ExhaustedHint },
    /// What is used of the limit.
    Normal { service: Service, figures: UsageFigures, bar: Bar, level: StatusLevel },
}

/// The service whose usage endpoint has the address `url`.
pub open spec fn service_of_url(url: Seq<char>) -> Option<Service> {
    if occurs_in("88code.org"@, url) || occurs_in("88code.ai"@, url) || occurs_in(
        "rainapp.top"@,
        url,
    ) {
        Some(Service::Code88)
    } else if occurs_in("packyapi.com"@, url) {
        Some(Service::Packy)
    } else {
        None
    }
}

/// The `Decimal` of `v` millionths, for a `v` that a `Decimal` can hold.
pub open spec fn decimal_of(v: int) -> Decimal {
    Decimal { micros: v as i64 }
}

/// The figures of a usage record.
pub open spec fn figures_of(usage: UsageView) -> UsageFigures {
    UsageFigures {
        used_tokens: usage_used_tokens(usage) as u64,
        remaining_tokens: usage_remaining_tokens(usage) as u64,
        credit_limit: decimal_of(usage_credit_limit(usage)),
    }
}

/// The bar for a percentage.
pub open spec fn bar_of(percentage: int) -> Bar {
    Bar { percentage: decimal_of(percentage), filled: cells_of(percentage) as u8 }
}

/// How pressing a percentage of use is.
pub open spec fn level_of(percentage: int) -> StatusLevel {
    if percentage <= 50_000_000 {
        StatusLevel::Ample
    } else if percentage <= 80_000_000 {
        StatusLevel::Watch
    } else {
        StatusLevel::Urgent
    }
}

/// The plan is an active pay-as-you-go plan with credits left.
pub open spec fn is_funded_paygo(p: PlanView) -> bool {
    p.is_active && plan_kind_of(p.plan_name) == PlanKind::Paygo && p.current_credits > 0
}

/// `is_funded_paygo` as a condition to search by.
pub open spec fn funded_paygo() -> spec_fn(PlanView) -> bool {
    |p: PlanView| is_funded_paygo(p)
}

/// The plan is active.
pub open spec fn active() -> spec_fn(PlanView) -> bool {
    |p: PlanView| p.is_active
}

/// What to tell a user whose credits are used up and who holds `plans`.
pub open spec fn hint_of(plans: Seq<PlanView>) -> ExhaustedHint {
    let held = plans.filter(active());
    if held.len() > 1 {
        ExhaustedHint::OtherPlans
    } else if held.len() == 1 && held[0].reset_times > 0 {
        ExhaustedHint::ManualReset(held[0].reset_times)
    } else {
        ExhaustedHint::NoResets
    }
}

/// What is shown of a pay-as-you-go plan: what is used of its limit, or
/// its balance where it has no limit.
pub open spec fn paygo_segment(service: Service, figures: UsageFigures, plan: PlanView, with_bar: bool) -> UsageSegment {
    if with_bar && plan.credit_limit > 0 {
        UsageSegment::PaygoProgress {
            service,
            figures,
            used: decimal_of(plan.credit_limit - plan.current_credits),
            limit: decimal_of(plan.credit_limit),
            bar: bar_of(clamped_percentage(plan.credit_limit - plan.current_credits, plan.credit_limit)),
        }
    } else {
        UsageSegment::PaygoBalance { service, figures, balance: decimal_of(plan.current_credits) }
    }
}

/// What is shown where something is left to use.
pub open spec fn normal_segment(service: Service, figures: UsageFigures) -> UsageSegment {
    let percentage = clamped_percentage(
        figures.used_tokens * MICROS_PER_HUNDREDTH as int,
        figures.credit_limit@,
    );
    UsageSegment::Normal { service, figures, bar: bar_of(percentage), level: level_of(percentage) }
}

/// What is shown for the usage `shown` of a user who holds `plans`, where
/// that list is known.
pub open spec fn segment_of(service: Service, shown: UsageView, plans: Option<Seq<PlanView>>) -> UsageSegment {
    let figures = figures_of(shown);
    let paygo: Option<int> = match plans {
        Some(list) if service == Service::Code88 => first_where(list, funded_paygo()),
        _ => None,
    };
    if usage_has_only_free(shown) && paygo is Some {
        paygo_segment(service, figures, plans->0[paygo->0], false)
    } else if usage_is_exhausted(shown) {
        match plans {
            Some(list) => match paygo {
                Some(i) => paygo_segment(service, figures, list[i], true),
                None => UsageSegment::Exhausted { service, figures, hint: hint_of(list) },
            },
            None => UsageSegment::Exhausted { service, figures, hint: ExhaustedHint::Recharge },
        }
    } else {
        normal_segment(service, figures)
    }
}

/// What the segment shows: nothing where it is switched off; else why no
/// usage can be shown, or the usage that counts and what follows from it.
pub open spec fn collected(
    enabled: bool,
    usage_url: Seq<char>,
    api_key: Option<Seq<char>>,
    usage: Option<UsageView>,
    plans: Option<Seq<PlanView>>,
) -> Option<UsageSegment> {
    if !enabled {
        None
    } else {
        match service_of_url(usage_url) {
            None => Some(UsageSegment::Unsupported),
            Some(service) => if api_key is None || api_key->0.len() == 0 {
                Some(UsageSegment::MissingKey(service))
            } else {
                match usage {
                    None => Some(UsageSegment::Loading(service)),
                    Some(record) => match reconciled(record, plans) {
                        None => Some(UsageSegment::Loading(service)),
                        Some(shown) => Some(segment_of(service, shown, plans)),
                    },
                }
            },
        }
    }
}

/// Whether the list of subscriptions bears on what is shown for a record.
pub open spec fn subscriptions_matter(service: Service, usage: UsageView) -> bool {
    needs_fallback(usage) || (service == Service::Code88 && usage_has_only_free(usage))
        || usage_is_exhausted(usage)
}

/// The service whose usage endpoint has the address `url`.
pub fn service_for_url(url: &str) -> (r: Option<Service>)
    ensures
        r == service_of_url(url@),
{
    if contains(url, "88code.org") || contains(url, "88code.ai") || contains(url, "rainapp.top") {
        Some(Service::Code88)
    } else if contains(url, "packyapi.com") {
        Some(Service::Packy)
    } else {
        None
    }
}

/// The figures of a usage record.
pub fn figures(usage: &UsageData) -> (f: UsageFigures)
    ensures
        f == figures_of(usage@),
{
    UsageFigures {
        used_tokens: usage.get_used_tokens(),
        remaining_tokens: usage.get_remaining_tokens(),
        credit_limit: usage.get_credit_limit(),
    }
}

/// The bar for a percentage.
pub fn bar_for(percentage: Decimal) -> (b: Bar)
    ensures
        b == bar_of(percentage@),
{
    Bar { percentage, filled: cells(percentage) }
}

/// How pressing a percentage of use is.
pub fn get_status_level(percentage: Decimal) -> (l: StatusLevel)
    ensures
        l == level_of(percentage@),
{
    if percentage.micros <= 50_000_000 {
        StatusLevel::Ample
    } else if percentage.micros <= 80_000_000 {
        StatusLevel::Watch
    } else {
        StatusLevel::Urgent
    }
}

/// The position of the first active pay-as-you-go plan with credits left.
pub fn find_funded_paygo(plans: &Vec<SubscriptionData>) -> (r: Option<usize>)
    ensures
        match r {
            Some(i) => i < plans@.len() && first_where(plan_views(plans@), funded_paygo()) == Some(
                i as int,
            ),
            None => first_where(plan_views(plans@), funded_paygo()) is None,
        },
{
    let ghost views = plan_views(plans@);
    let n: usize = plans.len();
    let mut i: usize = 0;
    while i < n
        invariant
            n == plans@.len(),
            i <= n,
            views == plan_views(plans@),
            forall|j: int| 0 <= j < i ==> !funded_paygo()(#[trigger] views[j]),
        decreases n - i,
    {
        let plan = &plans[i];
        if plan.is_active && plan.kind() == PlanKind::Paygo && plan.current_credits.micros > 0 {
            proof {
                assert(is_first_where(views, funded_paygo(), i as int));
                lemma_first_where_found(views, funded_paygo(), i as int);
            }
            return Some(i);
        }
        i = i + 1;
    }
    proof {
        lemma_first_where_none(views, funded_paygo());
    }
    None
}

/// What to tell a user whose credits are used up and who holds `plans`.
pub fn exhausted_hint(plans: &Vec<SubscriptionData>) -> (h: ExhaustedHint)
    ensures
        h == hint_of(plan_views(plans@)),
{
    let ghost views = plan_views(plans@);
    let n: usize = plans.len();
    let mut held: usize = 0;
    let mut resets: i32 = 0;
    let mut i: usize = 0;
    proof {
        reveal(Seq::filter);
        assert(views.subrange(0, 0) =~= Seq::<PlanView>::empty());
    }
    while i < n
        invariant
            n == plans@.len(),
            i <= n,
            held <= i,
            views == plan_views(plans@),
            held == views.subrange(0, i as int).filter(active()).len(),
            held >= 1 ==> resets == views.subrange(0, i as int).filter(active())[0].reset_times,
        decreases n - i,
    {
        proof {
            reveal(Seq::filter);
            let s = views.subrange(0, i + 1);
            assert(s.drop_last() =~= views.subrange(0, i as int));
            assert(s.last() == plans@[i as int]@);
        }
        if plans[i].is_active {
            if held == 0 {
                resets = plans[i].reset_times;
            }
            held = held + 1;
        }
        i = i + 1;
    }
    assert(views.subrange(0, n as int) =~= views);
    if held > 1 {
        ExhaustedHint::OtherPlans
    } else if held == 1 && resets > 0 {
        ExhaustedHint::ManualReset(resets)
    } else {
        ExhaustedHint::NoResets
    }
}

/// What is shown of a pay-as-you-go plan.
fn paygo_display(service: Service, figures: UsageFigures, plan: &SubscriptionData, with_bar: bool) -> (r:
    UsageSegment)
    requires
        plan@.current_credits > 0,
    ensures
        r == paygo_segment(service, figures, plan@, with_bar),
{
    if with_bar && plan.credit_limit.micros > 0 {
        let used: i64 = plan.credit_limit.micros - plan.current_credits.micros;
        let percentage = percentage_of(used as i128, plan.credit_limit.micros);
        UsageSegment::PaygoProgress {
            service,
            figures,
            used: Decimal { micros: used },
            limit: plan.credit_limit,
            bar: bar_for(percentage),
        }
    } else {
        UsageSegment::PaygoBalance { service, figures, balance: plan.current_credits }
    }
}

/// What is shown where something is left to use.
fn normal_display(service: Service, figures: UsageFigures) -> (r: UsageSegment)
    ensures
        r == normal_segment(service, figures),
{
    assert(figures.used_tokens * MICROS_PER_HUNDREDTH <= u64::MAX * 10_000) by (nonlinear_arith)
        requires
            figures.used_tokens <= u64::MAX,
            MICROS_PER_HUNDREDTH == 10_000,
    ;
    let used: i128 = (figures.used_tokens as i128) * (MICROS_PER_HUNDREDTH as i128);
    let percentage = percentage_of(used, figures.credit_limit.micros);
    UsageSegment::Normal {
        service,
        figures,
        bar: bar_for(percentage),
        level: get_status_level(percentage),
    }
}

/// What is shown for the usage `shown` of a user who holds `plans`, where
/// that list is known.
pub fn segment_for(service: Service, shown: &UsageData, plans: Option<&Vec<SubscriptionData>>) -> (r:
    UsageSegment)
    ensures
        r == segment_of(service, shown@, optional_plan_views(plans)),
{
    let figures = figures(shown);
    match plans {
        Some(list) => {
            let paygo: Option<usize> = if service == Service::Code88 {
                find_funded_paygo(list)
            } else {
                None
            };
            match paygo {
                Some(i) => {
                    if shown.has_only_free() {
                        paygo_display(service, figures, &list[i], false)
                    } else if shown.is_exhausted() {
                        paygo_display(service, figures, &list[i], true)
                    } else {
                        normal_display(service, figures)
                    }
                },
                None => {
                    if shown.is_exhausted() {
                        UsageSegment::Exhausted { service, figures, hint: exhausted_hint(list) }
                    } else {
                        normal_display(service, figures)
                    }
                },
            }
        },
        None => {
            if shown.is_exhausted() {
                UsageSegment::Exhausted { service, figures, hint: ExhaustedHint::Recharge }
            } else {
                normal_display(service, figures)
            }
        },
    }
}

/// Whether the list of subscriptions bears on what is shown for a record,
/// so that it has to be fetched.
pub fn needs_subscriptions(service: Service, usage: &UsageData) -> (r: bool)
    ensures
        r == subscriptions_matter(service, usage@),
{
    usage_needs_fallback(usage) || (service == Service::Code88 && usage.has_only_free())
        || usage.is_exhausted()
}

/// What the usage segment shows. `usage` is the record that was fetched or
/// found in the cache, `plans` the list of subscriptions; each is `None`
/// where it could not be had.
pub fn collect(
    enabled: bool,
    usage_url: &str,
    api_key: Option<&str>,
    usage: Option<UsageData>,
    plans: Option<&Vec<SubscriptionData>>,
) -> (r: Option<UsageSegment>)
    ensures
        r == collected(
            enabled,
            usage_url@,
            optional_chars(api_key),
            optional_usage_view(usage),
            optional_plan_views(plans),
        ),
{
    if !enabled {
        return None;
    }
    let service = match service_for_url(usage_url) {
        Some(service) => service,
        None => {
            return Some(UsageSegment::Unsupported);
        },
    };
    let has_key = match api_key {
        Some(key) => key.unicode_len() > 0,
        None => false,
    };
    if !has_key {
        return Some(UsageSegment::MissingKey(service));
    }
    let record = match usage {
        Some(record) => record,
        None => {
            return Some(UsageSegment::Loading(service));
        },
    };
    match reconcile(record, plans) {
        Some(shown) => Some(segment_for(service, &shown, plans)),
        None => Some(UsageSegment::Loading(service)),
    }
}

/// Where the subscriptions do not bear on a record, what is shown for it
/// is the same with any list of them and with none.
pub proof fn lemma_collect_without_subscriptions(
    usage_url: Seq<char>,
    api_key: Option<Seq<char>>,
    usage: UsageView,
    plans: Option<Seq<PlanView>>,
)
    requires
        service_of_url(usage_url) is Some,
        !subscriptions_matter(service_of_url(usage_url)->0, usage),
    ensures
        collected(true, usage_url, api_key, Some(usage), plans) == collected(
            true,
            usage_url,
            api_key,
            Some(usage),
            None,
        ),
{
}

} // verus!
