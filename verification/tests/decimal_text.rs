use a_chat_api::decimal::to_decimal_string;

#[test]
fn decimal_of_zero() {
    assert_eq!(to_decimal_string(0), "0");
}

#[test]
fn decimal_of_single_digits() {
    for d in 1u64..10 {
        assert_eq!(to_decimal_string(d), d.to_string());
    }
}

#[test]
fn decimal_of_room_ids() {
    assert_eq!(to_decimal_string(10), "10");
    assert_eq!(to_decimal_string(12), "12");
    assert_eq!(to_decimal_string(1000007), "1000007");
}

#[test]
fn decimal_of_largest_id() {
    assert_eq!(to_decimal_string(u64::MAX), "18446744073709551615");
}
