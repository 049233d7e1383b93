use cardego_server::text::{decimal_i32, decimal_u32, push_decimal_i32, push_decimal_u64};

#[test]
fn decimal_of_small_numbers() {
    assert_eq!(decimal_u32(0), "0");
    assert_eq!(decimal_u32(7), "7");
    assert_eq!(decimal_u32(10), "10");
    assert_eq!(decimal_u32(1050), "1050");
    assert_eq!(decimal_u32(u32::MAX), "4294967295");
}

#[test]
fn decimal_of_signed_numbers() {
    assert_eq!(decimal_i32(0), "0");
    assert_eq!(decimal_i32(42), "42");
    assert_eq!(decimal_i32(-1), "-1");
    assert_eq!(decimal_i32(i32::MAX), "2147483647");
    assert_eq!(decimal_i32(i32::MIN), "-2147483648");
}

#[test]
fn decimal_agrees_with_the_standard_formatting() {
    let samples: Vec<i32> = vec![-100000, -99, -10, -9, 0, 9, 10, 99, 100, 101, 65535, 1000000];
    for n in samples {
        assert_eq!(decimal_i32(n), format!("{}", n));
    }
}

#[test]
fn decimal_is_appended_to_what_is_there() {
    let mut out = String::from("id=");
    push_decimal_i32(&mut out, -305);
    out.push(';');
    push_decimal_u64(&mut out, 18446744073709551615);
    assert_eq!(out, "id=-305;18446744073709551615");
}
