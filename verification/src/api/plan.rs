//! Subscription plans: their kinds, the label of their price, and the two
//! orders in which a list of them is put.

use crate::decimal::Decimal;
use crate::order::{is_stable_order, lemma_stable_order, stable_order, stable_order_of};
use crate::text::{decimal_text, decimal_text_of, same_text, to_uppercase, uppercase_of};
use vstd::prelude::*;
use vstd::string::StringExecFns;

verus! {

/// What a plan's name says about how it is billed.
#[derive(Clone, Copy, Debug, PartialEq, Eq, Structural)]
pub enum PlanKind {
    /// The free plan, which coding sessions never draw on.
    Free,
    /// The pay-as-you-go plan.
    Paygo,
    /// Any other plan: a paid subscription.
    Paid,
}

/// The kind of a plan whose name in upper case is `upper`.
pub open spec fn kind_of_upper(upper: Seq<char>) -> PlanKind {
    if upper == "FREE"@ {
        PlanKind::Free
    } else if upper == "PAYGO"@ {
        PlanKind::Paygo
    } else {
        PlanKind::Paid
    }
}

/// The kind of a plan called `name`, whatever the case of its letters.
pub open spec fn plan_kind_of(name: Seq<char>) -> PlanKind {
    kind_of_upper(uppercase_of(name))
}

/// The kind of a plan from its name already in upper case.
pub fn classify_upper(upper: &str) -> (k: PlanKind)
    ensures
        k == kind_of_upper(upper@),
{
    if same_text(upper, "FREE") {
        PlanKind::Free
    } else if same_text(upper, "PAYGO") {
        PlanKind::Paygo
    } else {
        PlanKind::Paid
    }
}

/// The kind of a plan from its name.
pub fn plan_kind(name: &str) -> (k: PlanKind)
    ensures
        k == plan_kind_of(name@),
{
    let upper = to_uppercase(name);
    classify_upper(upper.as_str())
}

/// The terms of a plan, as a subscription carries them.
#[derive(Clone, Copy, Debug)]
pub struct PlanDetail {
    pub credit_limit: Decimal,
}

/// One purchased plan. A lower `id` is an earlier purchase. `plan_price` is
/// derived: `format` fills it.
#[derive(Debug)]
pub struct SubscriptionData {
    pub id: i64,
    pub plan_name: String,
    pub cost: Decimal,
    pub expires_at: Option<String>,
    pub status: String,
    pub remaining_days: i32,
    pub billing_cycle_desc: String,
    pub reset_times: i32,
    pub is_active: bool,
    pub current_credits: Decimal,
    pub credit_limit: Decimal,
    pub subscription_plan: Option<PlanDetail>,
    pub plan_price: String,
}

/// What a `SubscriptionData` holds.
pub struct PlanView {
    pub id: i64,
    pub plan_name: Seq<char>,
    pub cost: int,
    pub expires_at: Option<Seq<char>>,
    pub status: Seq<char>,
    pub remaining_days: i32,
    pub billing_cycle_desc: Seq<char>,
    pub reset_times: i32,
    pub is_active: bool,
    pub current_credits: int,
    pub credit_limit: int,
    pub detail_credit_limit: Option<int>,
    pub plan_price: Seq<char>,
}

impl View for SubscriptionData {
    type V = PlanView;

    open spec fn view(&self) -> PlanView {
        PlanView {
            id: self.id,
            plan_name: self.plan_name@,
            cost: self.cost@,
            expires_at: match self.expires_at {
                Some(date) => Some(date@),
                None => None,
            },
            status: self.status@,
            remaining_days: self.remaining_days,
            billing_cycle_desc: self.billing_cycle_desc@,
            reset_times: self.reset_times,
            is_active: self.is_active,
            current_credits: self.current_credits@,
            credit_limit: self.credit_limit@,
            detail_credit_limit: match self.subscription_plan {
                Some(detail) => Some(detail.credit_limit@),
                None => None,
            },
            plan_price: self.plan_price@,
        }
    }
}

/// The views of a list of plans, in order.
pub open spec fn plan_views(plans: Seq<SubscriptionData>) -> Seq<PlanView> {
    Seq::new(plans.len(), |i: int| plans[i]@)
}

/// The views of a list of plans that may be missing.
pub open spec fn optional_plan_views(plans: Option<&Vec<SubscriptionData>>) -> Option<
    Seq<PlanView>,
> {
    match plans {
        Some(list) => Some(plan_views(list@)),
        None => None,
    }
}

/// The label of a price: the currency sign, the cost, a stroke and the
/// billing cycle.
pub open spec fn price_label(cost: int, cycle: Seq<char>) -> Seq<char> {
    "\u{a5}"@ + decimal_text_of(cost) + "/"@ + cycle
}

/// The plan with its price label written, and with the limit of its terms
/// taken over where it has none of its own.
pub open spec fn plan_formatted(p: PlanView) -> PlanView {
    PlanView {
        plan_price: price_label(p.cost, p.billing_cycle_desc),
        credit_limit: match p.detail_credit_limit {
            Some(limit) if p.credit_limit == 0 => limit,
            _ => p.credit_limit,
        },
        ..p
    }
}

impl Clone for SubscriptionData {
    fn clone(&self) -> (r: Self)
        ensures
            r@ == self@,
    {
        SubscriptionData {
            id: self.id,
            plan_name: self.plan_name.clone(),
            cost: self.cost,
            expires_at: match &self.expires_at {
                Some(date) => Some(date.clone()),
                None => None,
            },
            status: self.status.clone(),
            remaining_days: self.remaining_days,
            billing_cycle_desc: self.billing_cycle_desc.clone(),
            reset_times: self.reset_times,
            is_active: self.is_active,
            current_credits: self.current_credits,
            credit_limit: self.credit_limit,
            subscription_plan: self.subscription_plan,
            plan_price: self.plan_price.clone(),
        }
    }
}

impl SubscriptionData {
    /// Writes the price label and fills a missing limit from the plan's terms.
    pub fn format(&mut self)
        ensures
            final(self)@ == plan_formatted(old(self)@),
    {
        let mut label = String::from_str("\u{a5}");
        let cost = decimal_text(self.cost);
        label.append(cost.as_str());
        label.append("/");
        label.append(self.billing_cycle_desc.as_str());
        self.plan_price = label;
        if self.credit_limit.micros == 0 {
            match self.subscription_plan {
                Some(detail) => {
                    self.credit_limit = detail.credit_limit;
                },
                None => {},
            }
        }
    }

    /// The kind of this plan.
    pub fn kind(&self) -> (k: PlanKind)
        ensures
            k == plan_kind_of(self@.plan_name),
    {
        plan_kind(self.plan_name.as_str())
    }
}

/// The rank of a kind of plan in billing: a paid subscription is drawn on
/// first, then pay-as-you-go, the free plan last.
pub open spec fn billing_priority_of(kind: PlanKind) -> i64 {
    match kind {
        PlanKind::Paid => 1,
        PlanKind::Paygo => 2,
        PlanKind::Free => 3,
    }
}

/// The key by which plans are put in billing order: rank, then purchase.
pub open spec fn billing_key_of(p: PlanView) -> (i64, i64) {
    (billing_priority_of(plan_kind_of(p.plan_name)), p.id)
}

/// The key by which plans are put in order for display: the free plan
/// first, then by the days that remain.
pub open spec fn display_key_of(p: PlanView) -> (i64, i64) {
    (
        if plan_kind_of(p.plan_name) == PlanKind::Free {
            0i64
        } else {
            1i64
        },
        p.remaining_days as i64,
    )
}

/// The plan is in force: active, and so by its status too.
pub open spec fn is_billable(p: PlanView) -> bool {
    p.is_active && p.status == "active"@
}

/// `is_billable` as a condition to filter by.
pub open spec fn billable() -> spec_fn(PlanView) -> bool {
    |p: PlanView| is_billable(p)
}

/// The plan is active and has days left.
pub open spec fn is_current(p: PlanView) -> bool {
    p.is_active && p.remaining_days > 0
}

/// `is_current` as a condition to filter by.
pub open spec fn current() -> spec_fn(PlanView) -> bool {
    |p: PlanView| is_current(p)
}

/// The billing keys of a list of plans, in order.
pub open spec fn billing_keys(plans: Seq<PlanView>) -> Seq<(i64, i64)> {
    Seq::new(plans.len(), |i: int| billing_key_of(plans[i]))
}

/// The display keys of a list of plans, in order.
pub open spec fn display_keys(plans: Seq<PlanView>) -> Seq<(i64, i64)> {
    Seq::new(plans.len(), |i: int| display_key_of(plans[i]))
}

/// The plans at the positions that `order` lists, in that order.
pub open spec fn arranged(plans: Seq<PlanView>, order: Seq<usize>) -> Seq<PlanView> {
    Seq::new(order.len(), |k: int| plans[order[k] as int])
}

/// The plans in billing order.
pub open spec fn billing_sorted(plans: Seq<PlanView>) -> Seq<PlanView> {
    arranged(plans, stable_order(billing_keys(plans), plans.len()))
}

/// The plans that are shown, in the order in which they are shown.
pub open spec fn display_sorted(plans: Seq<PlanView>) -> Seq<PlanView> {
    let shown = plans.filter(current());
    arranged(shown, stable_order(display_keys(shown), shown.len()))
}

/// The rank of a kind of plan in billing.
pub fn billing_priority(kind: PlanKind) -> (r: i64)
    ensures
        r == billing_priority_of(kind),
{
    match kind {
        PlanKind::Paid => 1,
        PlanKind::Paygo => 2,
        PlanKind::Free => 3,
    }
}

impl SubscriptionData {
    /// The key of this plan in billing order.
    pub fn billing_key(&self) -> (k: (i64, i64))
        ensures
            k == billing_key_of(self@),
    {
        (billing_priority(self.kind()), self.id)
    }

    /// The key of this plan in the order for display.
    pub fn display_key(&self) -> (k: (i64, i64))
        ensures
            k == display_key_of(self@),
    {
        let rank: i64 = if self.kind() == PlanKind::Free {
            0
        } else {
            1
        };
        (rank, self.remaining_days as i64)
    }

    /// Whether this plan is in force.
    pub fn is_billable(&self) -> (r: bool)
        ensures
            r == is_billable(self@),
    {
        self.is_active && same_text(self.status.as_str(), "active")
    }

    /// Whether this plan is active and has days left.
    pub fn is_current(&self) -> (r: bool)
        ensures
            r == is_current(self@),
    {
        self.is_active && self.remaining_days > 0
    }
}

/// Copies of the plans at the positions that `order` lists.
fn arrange(plans: &Vec<SubscriptionData>, order: &Vec<usize>) -> (r: Vec<SubscriptionData>)
    requires
        forall|k: int| 0 <= k < order@.len() ==> #[trigger] order@[k] < plans@.len(),
    ensures
        plan_views(r@) == arranged(plan_views(plans@), order@),
{
    let mut out: Vec<SubscriptionData> = Vec::new();
    let n: usize = order.len();
    let mut k: usize = 0;
    while k < n
        invariant
            n == order@.len(),
            k <= n,
            out@.len() == k,
            forall|m: int| 0 <= m < order@.len() ==> #[trigger] order@[m] < plans@.len(),
            forall|m: int| 0 <= m < k ==> (#[trigger] out@[m])@ == plans@[order@[m] as int]@,
        decreases n - k,
    {
        out.push(plans[order[k]].clone());
        k = k + 1;
    }
    assert(plan_views(out@) =~= arranged(plan_views(plans@), order@));
    out
}

/// Copies of the plans in billing order: paid subscriptions first, then
/// pay-as-you-go, then the free plan, and earlier purchases first in each.
pub fn sort_by_billing_priority(plans: &Vec<SubscriptionData>) -> (r: Vec<SubscriptionData>)
    ensures
        plan_views(r@) == billing_sorted(plan_views(plans@)),
{
    let n: usize = plans.len();
    let mut keys: Vec<(i64, i64)> = Vec::new();
    let mut i: usize = 0;
    while i < n
        invariant
            n == plans@.len(),
            i <= n,
            keys@.len() == i,
            forall|m: int| 0 <= m < i ==> #[trigger] keys@[m] == billing_key_of(plans@[m]@),
        decreases n - i,
    {
        keys.push(plans[i].billing_key());
        i = i + 1;
    }
    assert(keys@ =~= billing_keys(plan_views(plans@)));
    let order = stable_order_of(&keys);
    arrange(plans, &order)
}

/// Copies of the plans that are in force, in the order they have.
pub fn billable_plans(plans: &Vec<SubscriptionData>) -> (r: Vec<SubscriptionData>)
    ensures
        plan_views(r@) == plan_views(plans@).filter(billable()),
{
    let ghost views = plan_views(plans@);
    let mut out: Vec<SubscriptionData> = Vec::new();
    let n: usize = plans.len();
    let mut i: usize = 0;
    proof {
        reveal(Seq::filter);
        assert(views.subrange(0, 0) =~= Seq::<PlanView>::empty());
    }
    while i < n
        invariant
            n == plans@.len(),
            i <= n,
            views == plan_views(plans@),
            plan_views(out@) == views.subrange(0, i as int).filter(billable()),
        decreases n - i,
    {
        let ghost before = plan_views(out@);
        proof {
            reveal(Seq::filter);
            let s = views.subrange(0, i + 1);
            assert(s.drop_last() =~= views.subrange(0, i as int));
            assert(s.last() == plans@[i as int]@);
        }
        if plans[i].is_billable() {
            out.push(plans[i].clone());
            assert(plan_views(out@) =~= before.push(plans@[i as int]@));
        }
        i = i + 1;
    }
    assert(views.subrange(0, n as int) =~= views);
    out
}

/// Copies of the plans that are shown, in the order in which they are
/// shown: only active plans with days left, the free plan first, then
/// those that end soonest.
pub fn display_order(plans: &Vec<SubscriptionData>) -> (r: Vec<SubscriptionData>)
    ensures
        plan_views(r@) == display_sorted(plan_views(plans@)),
{
    let ghost views = plan_views(plans@);
    let mut shown: Vec<SubscriptionData> = Vec::new();
    let mut keys: Vec<(i64, i64)> = Vec::new();
    let n: usize = plans.len();
    let mut i: usize = 0;
    proof {
        reveal(Seq::filter);
        assert(views.subrange(0, 0) =~= Seq::<PlanView>::empty());
    }
    while i < n
        invariant
            n == plans@.len(),
            i <= n,
            views == plan_views(plans@),
            plan_views(shown@) == views.subrange(0, i as int).filter(current()),
            keys@.len() == shown@.len(),
            forall|m: int| 0 <= m < keys@.len() ==> #[trigger] keys@[m] == display_key_of(shown@[m]@),
        decreases n - i,
    {
        let ghost before = plan_views(shown@);
        proof {
            reveal(Seq::filter);
            let s = views.subrange(0, i + 1);
            assert(s.drop_last() =~= views.subrange(0, i as int));
            assert(s.last() == plans@[i as int]@);
        }
        if plans[i].is_current() {
            keys.push(plans[i].display_key());
            shown.push(plans[i].clone());
            assert(plan_views(shown@) =~= before.push(plans@[i as int]@));
        }
        i = i + 1;
    }
    assert(views.subrange(0, n as int) =~= views);
    assert(keys@ =~= display_keys(plan_views(shown@)));
    let order = stable_order_of(&keys);
    arrange(&shown, &order)
}

/// In billing order every plan of the list stands once, and each plan
/// stands before those of lower rank and, within its rank, before those
/// bought later.
pub proof fn lemma_billing_sorted(plans: Seq<PlanView>)
    requires
        plans.len() <= usize::MAX,
    ensures
        billing_sorted(plans).len() == plans.len(),
        is_stable_order(
            billing_keys(plans),
            stable_order(billing_keys(plans), plans.len()),
            plans.len(),
        ),
        forall|a: int, b: int|
            0 <= a < b < plans.len() ==> {
                let first = #[trigger] billing_sorted(plans)[a];
                let second = #[trigger] billing_sorted(plans)[b];
                billing_priority_of(plan_kind_of(first.plan_name)) < billing_priority_of(
                    plan_kind_of(second.plan_name),
                ) || (billing_priority_of(plan_kind_of(first.plan_name)) == billing_priority_of(
                    plan_kind_of(second.plan_name),
                ) && first.id <= second.id)
            },
{
    lemma_stable_order(billing_keys(plans), plans.len());
    let order = stable_order(billing_keys(plans), plans.len());
    assert forall|a: int, b: int| 0 <= a < b < plans.len() implies {
        let first = #[trigger] billing_sorted(plans)[a];
        let second = #[trigger] billing_sorted(plans)[b];
        billing_priority_of(plan_kind_of(first.plan_name)) < billing_priority_of(
            plan_kind_of(second.plan_name),
        ) || (billing_priority_of(plan_kind_of(first.plan_name)) == billing_priority_of(
            plan_kind_of(second.plan_name),
        ) && first.id <= second.id)
    } by {
        assert(crate::order::comes_before(billing_keys(plans), order[a], order[b]));
    }
}

/// In the order for display stand the plans that are active and have days
/// left, each once; the free plan stands before every other, and within
/// the free plans and within the others a plan with fewer days left stands
/// before one with more.
pub proof fn lemma_display_sorted(plans: Seq<PlanView>)
    requires
        plans.len() <= usize::MAX,
    ensures
        display_sorted(plans).len() == plans.filter(current()).len(),
        is_stable_order(
            display_keys(plans.filter(current())),
            stable_order(display_keys(plans.filter(current())), plans.filter(current()).len()),
            plans.filter(current()).len(),
        ),
        forall|a: int|
            0 <= a < display_sorted(plans).len() ==> is_current(#[trigger] display_sorted(plans)[a]),
        forall|a: int, b: int|
            0 <= a < b < display_sorted(plans).len() ==> {
                let first = #[trigger] display_sorted(plans)[a];
                let second = #[trigger] display_sorted(plans)[b];
                display_key_of(first).0 < display_key_of(second).0 || (display_key_of(first).0
                    == display_key_of(second).0 && first.remaining_days <= second.remaining_days)
            },
{
    let shown = plans.filter(current());
    plans.lemma_filter_len(current());
    let keys = display_keys(shown);
    lemma_stable_order(keys, shown.len());
    let order = stable_order(keys, shown.len());
    assert forall|a: int| 0 <= a < display_sorted(plans).len() implies is_current(
        #[trigger] display_sorted(plans)[a],
    ) by {
        plans.lemma_filter_pred(current(), order[a] as int);
    }
    assert forall|a: int, b: int| 0 <= a < b < display_sorted(plans).len() implies {
        let first = #[trigger] display_sorted(plans)[a];
        let second = #[trigger] display_sorted(plans)[b];
        display_key_of(first).0 < display_key_of(second).0 || (display_key_of(first).0
            == display_key_of(second).0 && first.remaining_days <= second.remaining_days)
    } by {
        assert(crate::order::comes_before(keys, order[a], order[b]));
    }
}

} // verus!
