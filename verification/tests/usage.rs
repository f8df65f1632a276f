use byebyecode::api::usage::{
    Code88UsageData, PackyUsageData, SubscriptionEntity, UsageData,
};
use byebyecode::decimal::Decimal;

fn credits(hundredths: i64) -> Decimal {
    Decimal { micros: hundredths * 10_000 }
}

fn record(limit: i64, current: i64, entities: Vec<SubscriptionEntity>) -> Code88UsageData {
    Code88UsageData {
        total_tokens: 0,
        credit_limit: credits(limit),
        current_credits: credits(current),
        subscription_entity_list: entities,
        used_tokens: 0,
        remaining_tokens: 0,
        percentage_used: Decimal { micros: 0 },
    }
}

fn entity(name: &str, limit: i64, current: i64, active: bool) -> SubscriptionEntity {
    SubscriptionEntity {
        subscription_name: name.to_string(),
        credit_limit: credits(limit),
        current_credits: credits(current),
        is_active: active,
    }
}

fn packy(granted: i64, used: i64, available: i64, unlimited: bool) -> PackyUsageData {
    PackyUsageData {
        expires_at: 0,
        name: "key".to_string(),
        object: "token_usage".to_string(),
        total_available: available,
        total_granted: granted,
        total_used: used,
        unlimited_quota: unlimited,
        used_tokens: 0,
        remaining_tokens: 0,
        percentage_used: Decimal { micros: 0 },
        credit_limit: Decimal { micros: 0 },
        current_credits: Decimal { micros: 0 },
    }
}

#[test]
fn code88_calculate_plain_record() {
    let mut usage = record(2000, 1535, vec![]);
    usage.calculate();
    assert_eq!(usage.used_tokens, 465);
    assert_eq!(usage.remaining_tokens, 1535);
    assert_eq!(usage.percentage_used, Decimal { micros: 23_250_000 });
    assert_eq!(usage.credit_limit, credits(2000));
    assert_eq!(usage.current_credits, credits(1535));
}

#[test]
fn code88_calculate_negative_balance_is_clamped() {
    let mut usage = record(1000, -200, vec![]);
    usage.calculate();
    assert_eq!(usage.remaining_tokens, 0);
    assert_eq!(usage.used_tokens, 1200);
    assert_eq!(usage.percentage_used, Decimal { micros: 100_000_000 });
    assert!(usage.is_exhausted());
}

#[test]
fn packy_calculate_overage() {
    let mut usage = packy(1_000_000, 1_200_000, -200_000, false);
    usage.calculate();
    assert_eq!(usage.percentage_used, Decimal { micros: 120_000_000 });
    assert_eq!(usage.remaining_tokens, 0);
    assert_eq!(usage.used_tokens, 1_200_000);
    assert_eq!(usage.credit_limit, Decimal { micros: 10_000_000_000 });
    assert_eq!(usage.current_credits, Decimal { micros: -2_000_000_000 });
    assert!(usage.is_exhausted());
}

#[test]
fn has_only_free_with_free_and_paygo() {
    let usage = record(
        0,
        0,
        vec![entity("FREE", 100, 100, true), entity("PAYGO", 0, 500, true)],
    );
    assert!(usage.has_only_free());
    assert!(UsageData::Code88(usage).has_only_free());
}
