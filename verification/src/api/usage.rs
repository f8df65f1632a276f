//! Usage records of the two providers and their normalisation.
//!
//! Amounts of credit are `Decimal`s; the figures for display ("tokens") are
//! whole hundredths of a credit.

use crate::api::plan::{plan_kind, plan_kind_of, PlanKind};
use crate::decimal::{
    clamped_percentage, hundredths_between, hundredths_in, lemma_round_div_nearest,
    percentage_of, round_div, saturate, scaled_decimal, scaled_round, Decimal, MICROS_PER_UNIT,
    PERCENT_SCALE,
};
use crate::search::{
    first_where, is_first_where, lemma_first_where_found, lemma_first_where_none,
};
use vstd::prelude::*;

verus! {

/// Units of the second provider's quota in one credit.
pub const PACKY_UNITS_PER_CREDIT: u32 = 100;

/// Hundredths in one credit.
pub const HUNDREDTHS_PER_CREDIT: u32 = 100;

/// One plan as the first provider's usage answer lists it.
#[derive(Debug)]
pub struct SubscriptionEntity {
    pub subscription_name: String,
    pub credit_limit: Decimal,
    pub current_credits: Decimal,
    pub is_active: bool,
}

/// What a `SubscriptionEntity` holds.
pub struct EntityView {
    pub name: Seq<char>,
    pub credit_limit: int,
    pub current_credits: int,
    pub is_active: bool,
}

impl View for SubscriptionEntity {
    type V = EntityView;

    open spec fn view(&self) -> EntityView {
        EntityView {
            name: self.subscription_name@,
            credit_limit: self.credit_limit@,
            current_credits: self.current_credits@,
            is_active: self.is_active,
        }
    }
}

/// The views of a list of entities, in order.
pub open spec fn entity_views(entities: Seq<SubscriptionEntity>) -> Seq<EntityView> {
    Seq::new(entities.len(), |i: int| entities[i]@)
}

/// The entity is active, is not the free plan, and has been drawn on.
pub open spec fn is_consuming(e: EntityView) -> bool {
    &&& e.is_active
    &&& plan_kind_of(e.name) != PlanKind::Free
    &&& e.current_credits < e.credit_limit
}

/// `is_consuming` as a condition to search by.
pub open spec fn consuming() -> spec_fn(EntityView) -> bool {
    |e: EntityView| is_consuming(e)
}

/// The entity is inactive, or it is the free or the pay-as-you-go plan.
pub open spec fn is_free_or_paygo_if_active(e: EntityView) -> bool {
    e.is_active ==> plan_kind_of(e.name) != PlanKind::Paid
}

impl Clone for SubscriptionEntity {
    fn clone(&self) -> (r: Self)
        ensures
            r@ == self@,
    {
        SubscriptionEntity {
            subscription_name: self.subscription_name.clone(),
            credit_limit: self.credit_limit,
            current_credits: self.current_credits,
            is_active: self.is_active,
        }
    }
}

/// Copies of the entities, in order.
fn copy_entities(entities: &Vec<SubscriptionEntity>) -> (r: Vec<SubscriptionEntity>)
    ensures
        entity_views(r@) == entity_views(entities@),
{
    let mut out: Vec<SubscriptionEntity> = Vec::new();
    let n: usize = entities.len();
    let mut i: usize = 0;
    while i < n
        invariant
            n == entities@.len(),
            i <= n,
            out@.len() == i,
            forall|m: int| 0 <= m < i ==> (#[trigger] out@[m])@ == entities@[m]@,
        decreases n - i,
    {
        out.push(entities[i].clone());
        i = i + 1;
    }
    assert(entity_views(out@) =~= entity_views(entities@));
    out
}

impl SubscriptionEntity {
    /// Whether this plan is the one being drawn on.
    pub fn is_consuming(&self) -> (r: bool)
        ensures
            r == is_consuming(self@),
    {
        self.is_active && plan_kind(self.subscription_name.as_str()) != PlanKind::Free
            && self.current_credits.micros < self.credit_limit.micros
    }
}

/// The first provider's usage record. The last three fields are derived:
/// `calculate` fills them.
#[derive(Debug)]
pub struct Code88UsageData {
    pub total_tokens: u64,
    pub credit_limit: Decimal,
    pub current_credits: Decimal,
    pub subscription_entity_list: Vec<SubscriptionEntity>,
    pub used_tokens: u64,
    pub remaining_tokens: u64,
    pub percentage_used: Decimal,
}

/// What a `Code88UsageData` holds.
pub struct Code88View {
    pub total_tokens: nat,
    pub credit_limit: int,
    pub current_credits: int,
    pub entities: Seq<EntityView>,
    pub used_tokens: nat,
    pub remaining_tokens: nat,
    pub percentage_used: int,
}

impl View for Code88UsageData {
    type V = Code88View;

    open spec fn view(&self) -> Code88View {
        Code88View {
            total_tokens: self.total_tokens as nat,
            credit_limit: self.credit_limit@,
            current_credits: self.current_credits@,
            entities: entity_views(self.subscription_entity_list@),
            used_tokens: self.used_tokens as nat,
            remaining_tokens: self.remaining_tokens as nat,
            percentage_used: self.percentage_used@,
        }
    }
}

/// The share of `limit` that is used when `current` is left, as a percentage
/// between 0 and 100; 0 where there is no limit.
pub open spec fn percentage_of_limit(limit: int, current: int) -> int {
    clamped_percentage(limit - current, limit)
}

/// The limit and balance that count: those of the first consuming entity,
/// or the record's own where no entity is consuming.
pub open spec fn effective_credits(v: Code88View) -> (int, int) {
    match first_where(v.entities, consuming()) {
        Some(i) => (v.entities[i].credit_limit, v.entities[i].current_credits),
        None => (v.credit_limit, v.current_credits),
    }
}

/// The record with its limit and balance replaced by the effective ones and
/// its derived fields computed from them.
pub open spec fn code88_calculated(v: Code88View) -> Code88View {
    let (limit, current) = effective_credits(v);
    Code88View {
        credit_limit: limit,
        current_credits: current,
        used_tokens: hundredths_in(limit - current) as nat,
        remaining_tokens: hundredths_in(current) as nat,
        percentage_used: percentage_of_limit(limit, current),
        ..v
    }
}

/// The record can be shown: it has a limit, or it lists plans.
pub open spec fn code88_is_valid(v: Code88View) -> bool {
    v.credit_limit > 0 || v.entities.len() > 0
}

/// No active entity is a paid subscription.
pub open spec fn code88_has_only_free(v: Code88View) -> bool {
    forall|i: int| 0 <= i < v.entities.len() ==> is_free_or_paygo_if_active(#[trigger] v.entities[i])
}

/// The percentage of `limit` used when `current` is left.
pub fn percentage_used(limit: Decimal, current: Decimal) -> (p: Decimal)
    ensures
        p@ == percentage_of_limit(limit@, current@),
{
    percentage_of((limit.micros as i128) - (current.micros as i128), limit.micros)
}

impl Clone for Code88UsageData {
    fn clone(&self) -> (r: Self)
        ensures
            r@ == self@,
    {
        Code88UsageData {
            total_tokens: self.total_tokens,
            credit_limit: self.credit_limit,
            current_credits: self.current_credits,
            subscription_entity_list: copy_entities(&self.subscription_entity_list),
            used_tokens: self.used_tokens,
            remaining_tokens: self.remaining_tokens,
            percentage_used: self.percentage_used,
        }
    }
}

impl Code88UsageData {
    /// Picks the plan being drawn on and computes the derived figures.
    pub fn calculate(&mut self)
        ensures
            final(self)@ == code88_calculated(old(self)@),
            final(self).subscription_entity_list == old(self).subscription_entity_list,
    {
        let mut limit = self.credit_limit;
        let mut current = self.current_credits;
        let n: usize = self.subscription_entity_list.len();
        let mut i: usize = 0;
        let mut found = false;
        while i < n && !found
            invariant
                n == self.subscription_entity_list.len(),
                *self == *old(self),
                i <= n,
                forall|j: int| 0 <= j < i ==> !is_consuming(#[trigger] self@.entities[j]),
                found ==> i < n && is_consuming(self@.entities[i as int]) && limit@
                    == self@.entities[i as int].credit_limit && current@
                    == self@.entities[i as int].current_credits,
                !found ==> limit == self.credit_limit && current == self.current_credits,
            decreases n - i + (if found { 0int } else { 1int }),
        {
            let entity = &self.subscription_entity_list[i];
            if entity.is_consuming() {
                limit = entity.credit_limit;
                current = entity.current_credits;
                found = true;
            } else {
                i = i + 1;
            }
        }
        proof {
            if found {
                assert(is_first_where(self@.entities, consuming(), i as int));
                lemma_first_where_found(self@.entities, consuming(), i as int);
            } else {
                lemma_first_where_none(self@.entities, consuming());
            }
        }
        self.percentage_used = percentage_used(limit, current);
        self.used_tokens = hundredths_between(limit.micros, current.micros);
        self.remaining_tokens = hundredths_between(current.micros, 0);
        self.credit_limit = limit;
        self.current_credits = current;
    }

    /// Whether nothing is left of the plan's credits.
    pub fn is_exhausted(&self) -> (r: bool)
        ensures
            r == (self@.current_credits <= 0),
    {
        self.current_credits.micros <= 0
    }

    /// Whether the record can be shown as it is.
    pub fn is_valid(&self) -> (r: bool)
        ensures
            r == code88_is_valid(self@),
    {
        self.credit_limit.micros > 0 || self.subscription_entity_list.len() > 0
    }

    /// Whether the record lists no active paid subscription.
    pub fn has_only_free(&self) -> (r: bool)
        ensures
            r == code88_has_only_free(self@),
    {
        let n: usize = self.subscription_entity_list.len();
        let mut i: usize = 0;
        while i < n
            invariant
                n == self.subscription_entity_list.len(),
                i <= n,
                forall|j: int| 0 <= j < i ==> is_free_or_paygo_if_active(#[trigger] self@.entities[j]),
            decreases n - i,
        {
            let entity = &self.subscription_entity_list[i];
            if entity.is_active && plan_kind(entity.subscription_name.as_str()) == PlanKind::Paid {
                assert(!is_free_or_paygo_if_active(self@.entities[i as int]));
                return false;
            }
            i = i + 1;
        }
        true
    }
}

/// The second provider's answer to a usage request.
#[derive(Clone, Debug)]
pub struct PackyUsageResponse {
    pub code: bool,
    pub data: PackyUsageData,
    pub message: String,
}

/// The second provider's usage record, in units of its quota. What is
/// available is negative when more was used than granted. The last five
/// fields are derived: `calculate` fills them.
#[derive(Debug)]
pub struct PackyUsageData {
    pub expires_at: i64,
    pub name: String,
    pub object: String,
    pub total_available: i64,
    pub total_granted: i64,
    pub total_used: i64,
    pub unlimited_quota: bool,
    pub used_tokens: u64,
    pub remaining_tokens: u64,
    pub percentage_used: Decimal,
    pub credit_limit: Decimal,
    pub current_credits: Decimal,
}

/// What a `PackyUsageData` holds.
pub struct PackyView {
    pub expires_at: int,
    pub name: Seq<char>,
    pub object: Seq<char>,
    pub total_available: int,
    pub total_granted: int,
    pub total_used: int,
    pub unlimited_quota: bool,
    pub used_tokens: nat,
    pub remaining_tokens: nat,
    pub percentage_used: int,
    pub credit_limit: int,
    pub current_credits: int,
}

impl View for PackyUsageData {
    type V = PackyView;

    open spec fn view(&self) -> PackyView {
        PackyView {
            expires_at: self.expires_at as int,
            name: self.name@,
            object: self.object@,
            total_available: self.total_available as int,
            total_granted: self.total_granted as int,
            total_used: self.total_used as int,
            unlimited_quota: self.unlimited_quota,
            used_tokens: self.used_tokens as nat,
            remaining_tokens: self.remaining_tokens as nat,
            percentage_used: self.percentage_used@,
            credit_limit: self.credit_limit@,
            current_credits: self.current_credits@,
        }
    }
}

/// `v`, or 0 where `v` is negative.
pub open spec fn at_least_zero(v: int) -> int {
    if v < 0 {
        0
    } else {
        v
    }
}

/// The hundredths of a credit in `units` of quota, rounded; none in a
/// negative amount.
pub open spec fn packy_hundredths(units: int) -> int {
    round_div(
        at_least_zero(units) * HUNDREDTHS_PER_CREDIT as int,
        PACKY_UNITS_PER_CREDIT as int,
    )
}

/// The credits, in millionths, in `units` of quota.
pub open spec fn packy_credits(units: int) -> int {
    saturate(round_div(units * MICROS_PER_UNIT as int, PACKY_UNITS_PER_CREDIT as int))
}

/// What was used as a percentage of what was granted, never negative and
/// with no upper limit but the type's; 0 where nothing was granted.
pub open spec fn packy_percentage(used: int, granted: int) -> int {
    if granted > 0 {
        saturate(round_div(at_least_zero(used) * PERCENT_SCALE as int, granted))
    } else {
        0
    }
}

/// The record with its derived fields computed from the three totals.
pub open spec fn packy_calculated(v: PackyView) -> PackyView {
    PackyView {
        used_tokens: packy_hundredths(v.total_used) as nat,
        remaining_tokens: packy_hundredths(v.total_available) as nat,
        percentage_used: packy_percentage(v.total_used, v.total_granted),
        credit_limit: packy_credits(at_least_zero(v.total_granted)),
        current_credits: packy_credits(v.total_available),
        ..v
    }
}

/// `v`, or 0 where `v` is negative.
fn zero_floor(v: i64) -> (r: i64)
    ensures
        r == at_least_zero(v as int),
{
    if v < 0 {
        0
    } else {
        v
    }
}

/// The hundredths of a credit in `units` of quota.
fn hundredths_of_units(units: i64) -> (h: u64)
    ensures
        h == packy_hundredths(units as int),
{
    let q: u128 = scaled_round(
        zero_floor(units) as u64,
        HUNDREDTHS_PER_CREDIT,
        PACKY_UNITS_PER_CREDIT as u64,
    );
    q as u64
}

impl Clone for PackyUsageData {
    fn clone(&self) -> (r: Self)
        ensures
            r@ == self@,
    {
        PackyUsageData {
            expires_at: self.expires_at,
            name: self.name.clone(),
            object: self.object.clone(),
            total_available: self.total_available,
            total_granted: self.total_granted,
            total_used: self.total_used,
            unlimited_quota: self.unlimited_quota,
            used_tokens: self.used_tokens,
            remaining_tokens: self.remaining_tokens,
            percentage_used: self.percentage_used,
            credit_limit: self.credit_limit,
            current_credits: self.current_credits,
        }
    }
}

impl PackyUsageData {
    /// Computes the derived figures from the three totals.
    pub fn calculate(&mut self)
        ensures
            final(self)@ == packy_calculated(old(self)@),
    {
        self.used_tokens = hundredths_of_units(self.total_used);
        self.remaining_tokens = hundredths_of_units(self.total_available);
        self.percentage_used = if self.total_granted > 0 {
            scaled_decimal(zero_floor(self.total_used), PERCENT_SCALE, self.total_granted as u64)
        } else {
            Decimal::zero()
        };
        self.credit_limit = scaled_decimal(
            zero_floor(self.total_granted),
            MICROS_PER_UNIT,
            PACKY_UNITS_PER_CREDIT as u64,
        );
        self.current_credits = scaled_decimal(
            self.total_available,
            MICROS_PER_UNIT,
            PACKY_UNITS_PER_CREDIT as u64,
        );
    }

    /// Whether the quota is limited and nothing is left of it.
    pub fn is_exhausted(&self) -> (r: bool)
        ensures
            r == (!self@.unlimited_quota && self@.remaining_tokens == 0),
    {
        !self.unlimited_quota && self.remaining_tokens == 0
    }
}

/// A usage record of either provider.
#[derive(Debug)]
pub enum UsageData {
    Code88(Code88UsageData),
    Packy(PackyUsageData),
}

/// What a `UsageData` holds.
pub enum UsageView {
    Code88(Code88View),
    Packy(PackyView),
}

impl View for UsageData {
    type V = UsageView;

    open spec fn view(&self) -> UsageView {
        match self {
            UsageData::Code88(data) => UsageView::Code88(data@),
            UsageData::Packy(data) => UsageView::Packy(data@),
        }
    }
}

/// The view of a record that may be missing.
pub open spec fn optional_usage_view(usage: Option<UsageData>) -> Option<UsageView> {
    match usage {
        Some(record) => Some(record@),
        None => None,
    }
}

/// The record normalised by its provider's rules.
pub open spec fn usage_calculated(v: UsageView) -> UsageView {
    match v {
        UsageView::Code88(data) => UsageView::Code88(code88_calculated(data)),
        UsageView::Packy(data) => UsageView::Packy(packy_calculated(data)),
    }
}

/// Nothing is left: the balance is not positive, or a limited quota has no
/// hundredth left.
pub open spec fn usage_is_exhausted(v: UsageView) -> bool {
    match v {
        UsageView::Code88(data) => data.current_credits <= 0,
        UsageView::Packy(data) => !data.unlimited_quota && data.remaining_tokens == 0,
    }
}

/// The first provider's record lists no active paid subscription. Never
/// true of the second provider's.
pub open spec fn usage_has_only_free(v: UsageView) -> bool {
    match v {
        UsageView::Code88(data) => code88_has_only_free(data),
        UsageView::Packy(_) => false,
    }
}

/// The hundredths used, as the record holds them.
pub open spec fn usage_used_tokens(v: UsageView) -> nat {
    match v {
        UsageView::Code88(data) => data.used_tokens,
        UsageView::Packy(data) => data.used_tokens,
    }
}

/// The hundredths left, as the record holds them.
pub open spec fn usage_remaining_tokens(v: UsageView) -> nat {
    match v {
        UsageView::Code88(data) => data.remaining_tokens,
        UsageView::Packy(data) => data.remaining_tokens,
    }
}

/// The limit, as the record holds it.
pub open spec fn usage_credit_limit(v: UsageView) -> int {
    match v {
        UsageView::Code88(data) => data.credit_limit,
        UsageView::Packy(data) => data.credit_limit,
    }
}

impl Clone for UsageData {
    fn clone(&self) -> (r: Self)
        ensures
            r@ == self@,
    {
        match self {
            UsageData::Code88(data) => UsageData::Code88(data.clone()),
            UsageData::Packy(data) => UsageData::Packy(data.clone()),
        }
    }
}

impl UsageData {
    /// Normalises the record by its provider's rules.
    pub fn calculate(&mut self)
        ensures
            final(self)@ == usage_calculated(old(self)@),
    {
        match self {
            UsageData::Code88(data) => data.calculate(),
            UsageData::Packy(data) => data.calculate(),
        }
    }

    /// Whether nothing is left to use.
    pub fn is_exhausted(&self) -> (r: bool)
        ensures
            r == usage_is_exhausted(self@),
    {
        match self {
            UsageData::Code88(data) => data.is_exhausted(),
            UsageData::Packy(data) => data.is_exhausted(),
        }
    }

    /// Whether the first provider's record lists no active paid subscription.
    pub fn has_only_free(&self) -> (r: bool)
        ensures
            r == usage_has_only_free(self@),
    {
        match self {
            UsageData::Code88(data) => data.has_only_free(),
            UsageData::Packy(_) => false,
        }
    }

    pub fn get_used_tokens(&self) -> (r: u64)
        ensures
            r == usage_used_tokens(self@),
    {
        match self {
            UsageData::Code88(data) => data.used_tokens,
            UsageData::Packy(data) => data.used_tokens,
        }
    }

    pub fn get_remaining_tokens(&self) -> (r: u64)
        ensures
            r == usage_remaining_tokens(self@),
    {
        match self {
            UsageData::Code88(data) => data.remaining_tokens,
            UsageData::Packy(data) => data.remaining_tokens,
        }
    }

    pub fn get_credit_limit(&self) -> (r: Decimal)
        ensures
            r@ == usage_credit_limit(self@),
    {
        match self {
            UsageData::Code88(data) => data.credit_limit,
            UsageData::Packy(data) => data.credit_limit,
        }
    }
}

/// Normalising a record of the first provider twice gives what
/// normalising it once gives.
pub proof fn lemma_code88_calculate_idempotent(v: Code88View)
    ensures
        code88_calculated(code88_calculated(v)) == code88_calculated(v),
{
}

/// Normalising a record of the second provider twice gives what
/// normalising it once gives.
pub proof fn lemma_packy_calculate_idempotent(v: PackyView)
    ensures
        packy_calculated(packy_calculated(v)) == packy_calculated(v),
{
}

/// The percentage that a normalised record of the first provider shows
/// lies between 0 and 100.
pub proof fn lemma_code88_percentage_in_range(v: Code88View)
    ensures
        0 <= code88_calculated(v).percentage_used <= PERCENT_SCALE,
{
}

/// The percentage that a normalised record of the second provider shows
/// is not negative, and it is at least 100 where as much was used as was
/// granted, or more: it has no upper limit.
pub proof fn lemma_packy_percentage(v: PackyView)
    ensures
        0 <= packy_calculated(v).percentage_used,
        v.total_used >= v.total_granted > 0 ==> packy_calculated(v).percentage_used
            >= PERCENT_SCALE,
{
    if v.total_granted > 0 {
        let n: int = at_least_zero(v.total_used) * PERCENT_SCALE as int;
        lemma_round_div_nearest(n, v.total_granted);
        if v.total_used >= v.total_granted {
            let d: int = v.total_granted;
            let u: int = v.total_used;
            assert((2 * (u * 100_000_000) + d) / (2 * d) >= 100_000_000) by (nonlinear_arith)
                requires
                    d > 0,
                    u >= d,
            ;
        }
    }
}

/// A normalised record of the first provider is exhausted exactly when the
/// balance that counts is not positive, and then it shows nothing left.
pub proof fn lemma_code88_exhausted_by_balance(v: Code88View)
    ensures
        usage_is_exhausted(UsageView::Code88(code88_calculated(v))) <==> effective_credits(v).1
            <= 0,
        effective_credits(v).1 <= 0 ==> code88_calculated(v).remaining_tokens == 0,
{
}

} // verus!
