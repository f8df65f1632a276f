use byebyecode::decimal::{
    cells, hundredths_between, percentage_of, round_div_u128, scaled_decimal, scaled_round,
    Decimal,
};
use byebyecode::text::{decimal_text, push_digits, same_text};

#[test]
fn round_div_rounds_to_nearest() {
    assert_eq!(round_div_u128(7, 2), 4);
    assert_eq!(round_div_u128(6, 4), 2);
    assert_eq!(round_div_u128(5, 4), 1);
    assert_eq!(round_div_u128(0, 3), 0);
    assert_eq!(round_div_u128(1, 3), 0);
    assert_eq!(round_div_u128(2, 3), 1);
    assert_eq!(round_div_u128(9, 3), 3);
}

#[test]
fn scaled_round_uses_wide_products() {
    assert_eq!(scaled_round(4_650_000, 100_000_000, 20_000_000), 23_250_000);
    assert_eq!(scaled_round(u64::MAX, u32::MAX, 1), (u64::MAX as u128) * (u32::MAX as u128));
    assert_eq!(scaled_round(1, 1, 2), 1);
    assert_eq!(scaled_round(1, 1, 3), 0);
}

#[test]
fn scaled_decimal_keeps_the_sign_and_saturates() {
    assert_eq!(scaled_decimal(-200_000, 1_000_000, 100), Decimal { micros: -2_000_000_000 });
    assert_eq!(scaled_decimal(-1, 1, 2), Decimal { micros: -1 });
    assert_eq!(scaled_decimal(-1, 1, 3), Decimal { micros: 0 });
    assert_eq!(scaled_decimal(i64::MAX, 1_000_000, 1), Decimal { micros: i64::MAX });
    assert_eq!(scaled_decimal(i64::MIN, 1_000_000, 1), Decimal { micros: i64::MIN });
    assert_eq!(scaled_decimal(i64::MIN, 1, 1), Decimal { micros: i64::MIN });
    assert_eq!(scaled_decimal(5, 0, 7), Decimal { micros: 0 });
}

#[test]
fn percentage_is_clamped_to_hundred() {
    assert_eq!(percentage_of(4_650_000, 20_000_000), Decimal { micros: 23_250_000 });
    assert_eq!(percentage_of(12_000_000, 10_000_000), Decimal { micros: 100_000_000 });
    assert_eq!(percentage_of(-1, 10_000_000), Decimal { micros: 0 });
    assert_eq!(percentage_of(5, 0), Decimal { micros: 0 });
    assert_eq!(percentage_of(5, -3), Decimal { micros: 0 });
    assert_eq!(percentage_of(1, 3), Decimal { micros: 33_333_333 });
    assert_eq!(percentage_of(2, 3), Decimal { micros: 66_666_667 });
}

#[test]
fn cells_round_to_the_nearest_tenth() {
    assert_eq!(cells(Decimal { micros: 0 }), 0);
    assert_eq!(cells(Decimal { micros: 4_999_999 }), 0);
    assert_eq!(cells(Decimal { micros: 5_000_000 }), 1);
    assert_eq!(cells(Decimal { micros: 23_250_000 }), 2);
    assert_eq!(cells(Decimal { micros: 95_000_000 }), 10);
    assert_eq!(cells(Decimal { micros: 100_000_000 }), 10);
}

#[test]
fn hundredths_between_two_amounts() {
    assert_eq!(hundredths_between(20_000_000, 15_350_000), 465);
    assert_eq!(hundredths_between(10_000_000, -2_000_000), 1200);
    assert_eq!(hundredths_between(5, 5), 0);
    assert_eq!(hundredths_between(0, 5), 0);
    assert_eq!(hundredths_between(4_999, 0), 0);
    assert_eq!(hundredths_between(5_000, 0), 1);
    assert_eq!(hundredths_between(i64::MAX, i64::MIN), 1_844_674_407_370_955);
}

#[test]
fn decimal_text_drops_trailing_zeros() {
    assert_eq!(decimal_text(Decimal { micros: 198_000_000 }), "198");
    assert_eq!(decimal_text(Decimal { micros: 9_900_000 }), "9.9");
    assert_eq!(decimal_text(Decimal { micros: 0 }), "0");
    assert_eq!(decimal_text(Decimal { micros: 500 }), "0.0005");
    assert_eq!(decimal_text(Decimal { micros: 1 }), "0.000001");
    assert_eq!(decimal_text(Decimal { micros: -2_500_000 }), "-2.5");
    assert_eq!(decimal_text(Decimal { micros: 15_350_000 }), "15.35");
    assert_eq!(decimal_text(Decimal { micros: i64::MAX }), "9223372036854.775807");
    assert_eq!(decimal_text(Decimal { micros: i64::MIN }), "-9223372036854.775808");
}

#[test]
fn push_digits_appends() {
    let mut out = String::from("n=");
    push_digits(&mut out, 0);
    push_digits(&mut out, 1205);
    push_digits(&mut out, u64::MAX);
    assert_eq!(out, "n=0120518446744073709551615");
}

#[test]
fn same_text_compares_characters() {
    assert!(same_text("FREE", "FREE"));
    assert!(!same_text("FREE", "free"));
    assert!(!same_text("FREE", "FREE "));
    assert!(same_text("", ""));
}

#[test]
fn decimal_constructors() {
    assert_eq!(Decimal::zero(), Decimal { micros: 0 });
    assert_eq!(Decimal::from_micros(-7), Decimal { micros: -7 });
}
