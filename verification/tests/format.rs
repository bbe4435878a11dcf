use nano::format::{align_right, push_blanks, to_decimal};

#[test]
fn decimal_of_small_and_large_numbers() {
    assert_eq!(to_decimal(0), "0");
    assert_eq!(to_decimal(7), "7");
    assert_eq!(to_decimal(10), "10");
    assert_eq!(to_decimal(1234567890), "1234567890");
    assert_eq!(to_decimal(usize::MAX), usize::MAX.to_string());
}

#[test]
fn align_right_pads_on_the_left() {
    assert_eq!(align_right("7", 3), "  7");
    assert_eq!(align_right("123", 3), "123");
    assert_eq!(align_right("12345", 3), "12345");
    assert_eq!(align_right("", 2), "  ");
}

#[test]
fn push_blanks_appends_spaces() {
    let mut text = String::from("ab");
    push_blanks(&mut text, 3);
    assert_eq!(text, "ab   ");
    push_blanks(&mut text, 0);
    assert_eq!(text, "ab   ");
}
