use roon_tui::text::{
    decimal_string, join, pad_right, push_decimal, signed_decimal_string, two_digit_string,
};

#[test]
fn decimal_string_writes_every_digit() {
    assert_eq!(decimal_string(0), "0");
    assert_eq!(decimal_string(7), "7");
    assert_eq!(decimal_string(10), "10");
    assert_eq!(decimal_string(1234567890), "1234567890");
    assert_eq!(decimal_string(u128::MAX), u128::MAX.to_string());
}

#[test]
fn push_decimal_appends_to_what_is_there() {
    let mut s = "n=".to_string();
    push_decimal(&mut s, 305);
    assert_eq!(s, "n=305");
}

#[test]
fn signed_decimal_string_puts_the_sign_in_front() {
    assert_eq!(signed_decimal_string(0), "0");
    assert_eq!(signed_decimal_string(42), "42");
    assert_eq!(signed_decimal_string(-42), "-42");
    assert_eq!(signed_decimal_string(i64::MIN), i64::MIN.to_string());
    assert_eq!(signed_decimal_string(i64::MAX), i64::MAX.to_string());
}

#[test]
fn two_digit_string_pads_with_a_zero() {
    assert_eq!(two_digit_string(0), "00");
    assert_eq!(two_digit_string(9), "09");
    assert_eq!(two_digit_string(10), "10");
    assert_eq!(two_digit_string(59), "59");
    assert_eq!(two_digit_string(123), "123");
}

#[test]
fn join_puts_the_separator_between_parts() {
    let none: Vec<String> = vec![];
    assert_eq!(join(&none, " > "), "");
    assert_eq!(join(&vec!["Library".to_string()], " > "), "Library");
    assert_eq!(
        join(&vec!["Library".to_string(), "Artists".to_string(), "Adele".to_string()], " > "),
        "Library > Artists > Adele"
    );
    assert_eq!(join(&vec!["".to_string(), "".to_string()], ","), ",");
}

#[test]
fn pad_right_fills_up_to_the_width_in_characters() {
    assert_eq!(pad_right("q", 12), "q           ");
    assert_eq!(pad_right("Esc/Bksp", 12), "Esc/Bksp    ");
    assert_eq!(pad_right("", 3), "   ");
    assert_eq!(pad_right("exactly12chr", 12), "exactly12chr");
    assert_eq!(pad_right("longer than twelve", 12), "longer than twelve");
    assert_eq!(pad_right("▶é", 4), "▶é  ");
}
