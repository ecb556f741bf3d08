use hass_sql_sensors::decimal::{decimal_string, push_decimal, push_decimal_nat};

#[test]
fn decimal_string_writes_what_display_writes() {
    for n in [
        0,
        1,
        7,
        9,
        10,
        11,
        99,
        100,
        101,
        5432,
        32767,
        65535,
        -1,
        -9,
        -10,
        -32768,
        i32::MAX,
        i32::MIN,
    ] {
        assert_eq!(decimal_string(n), n.to_string());
    }
}

#[test]
fn decimal_string_of_chosen_numbers() {
    assert_eq!(decimal_string(0), "0");
    assert_eq!(decimal_string(42), "42");
    assert_eq!(decimal_string(-42), "-42");
    assert_eq!(decimal_string(1000), "1000");
    assert_eq!(decimal_string(-2147483648), "-2147483648");
}

#[test]
fn push_decimal_appends() {
    let mut text = String::from("node = ");
    push_decimal(&mut text, -17);
    assert_eq!(text, "node = -17");
    push_decimal_nat(&mut text, 4294967295);
    assert_eq!(text, "node = -174294967295");
    push_decimal_nat(&mut text, 0);
    assert_eq!(text, "node = -1742949672950");
}
