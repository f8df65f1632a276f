//! The subscription segment: the plans that are shown, in order, and the
//! colour of each.

use crate::api::plan::{
    display_order, display_sorted, optional_plan_views, plan_views, PlanView, SubscriptionData,
};
use crate::api::settings::optional_chars;
use crate::text::{contains, occurs_in, same_text, to_uppercase, uppercase_of};
use vstd::prelude::*;
use vstd::string::StrSliceExecFns;

verus! {

/// The colour, of the 256, for a plan whose name in upper case is `upper`:
/// orange for the paid subscriptions, blue for pay-as-you-go, grey for the
/// free plan, white for any other.
pub open spec fn colour_of_upper(upper: Seq<char>) -> u8 {
    if upper == "PLUS"@ || upper == "PRO"@ || upper == "MAX"@ {
        214
    } else if upper == "PAYGO"@ {
        39
    } else if upper == "FREE"@ {
        245
    } else {
        255
    }
}

/// The colour for a plan from its name already in upper case.
pub fn colour_for_upper(upper: &str) -> (c: u8)
    ensures
        c == colour_of_upper(upper@),
{
    if same_text(upper, "PLUS") || same_text(upper, "PRO") || same_text(upper, "MAX") {
        214
    } else if same_text(upper, "PAYGO") {
        39
    } else if same_text(upper, "FREE") {
        245
    } else {
        255
    }
}

/// The colour for a plan, whatever the case of the letters of its name.
pub fn get_plan_color(plan_name: &str) -> (c: u8)
    ensures
        c == colour_of_upper(uppercase_of(plan_name@)),
{
    let upper = to_uppercase(plan_name);
    colour_for_upper(upper.as_str())
}

/// What the subscription segment shows.
#[derive(Debug)]
pub enum SubscriptionSegment {
    /// No key is configured, or no plan is to be shown.
    NotSubscribed,
    /// The plans to show, in order.
    Plans(Vec<SubscriptionData>),
}

/// What a `SubscriptionSegment` holds.
pub enum SubscriptionSegmentView {
    NotSubscribed,
    Plans(Seq<PlanView>),
}

impl View for SubscriptionSegment {
    type V = SubscriptionSegmentView;

    open spec fn view(&self) -> SubscriptionSegmentView {
        match self {
            SubscriptionSegment::NotSubscribed => SubscriptionSegmentView::NotSubscribed,
            SubscriptionSegment::Plans(plans) => SubscriptionSegmentView::Plans(plan_views(plans@)),
        }
    }
}

/// The view of a segment that may be missing.
pub open spec fn optional_segment_view(segment: Option<SubscriptionSegment>) -> Option<
    SubscriptionSegmentView,
> {
    match segment {
        Some(shown) => Some(shown@),
        None => None,
    }
}

/// What the segment shows: nothing where it is switched off, where the
/// service is the second provider's, which has no subscriptions, or where
/// a key is there but the list of plans could not be had.
pub open spec fn collected(
    enabled: bool,
    usage_url: Seq<char>,
    api_key: Option<Seq<char>>,
    plans: Option<Seq<PlanView>>,
) -> Option<SubscriptionSegmentView> {
    if !enabled || occurs_in("packyapi.com"@, usage_url) {
        None
    } else if api_key is None || api_key->0.len() == 0 {
        Some(SubscriptionSegmentView::NotSubscribed)
    } else {
        match plans {
            None => None,
            Some(list) => if display_sorted(list).len() == 0 {
                Some(SubscriptionSegmentView::NotSubscribed)
            } else {
                Some(SubscriptionSegmentView::Plans(display_sorted(list)))
            },
        }
    }
}

/// What the subscription segment shows. `plans` is the list that was
/// fetched, `None` where it could not be had.
pub fn collect(
    enabled: bool,
    usage_url: &str,
    api_key: Option<&str>,
    plans: Option<&Vec<SubscriptionData>>,
) -> (r: Option<SubscriptionSegment>)
    ensures
        optional_segment_view(r) == collected(
            enabled,
            usage_url@,
            optional_chars(api_key),
            optional_plan_views(plans),
        ),
{
    if !enabled || contains(usage_url, "packyapi.com") {
        return None;
    }
    let has_key = match api_key {
        Some(key) => key.unicode_len() > 0,
        None => false,
    };
    if !has_key {
        return Some(SubscriptionSegment::NotSubscribed);
    }
    match plans {
        None => None,
        Some(list) => {
            let shown = display_order(list);
            if shown.len() == 0 {
                Some(SubscriptionSegment::NotSubscribed)
            } else {
                Some(SubscriptionSegment::Plans(shown))
            }
        },
    }
}

} // verus!
