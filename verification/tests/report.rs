use hello_sum::report::{render_decimal, render_line, report};

#[test]
fn report_is_the_three_lines() {
    assert_eq!(report(), "Hello, world!\nThe number is: 42\nThe sum is: 8\n");
}

#[test]
fn report_bytes_are_exact() {
    let out = report();
    let expected: &[u8] = b"Hello, world!\nThe number is: 42\nThe sum is: 8\n";
    assert_eq!(out.as_bytes(), expected);
    assert_eq!(out.len(), 46);
}

#[test]
fn report_has_three_lines_and_ends_with_a_line_feed() {
    let out = report();
    assert!(out.ends_with('\n'));
    let lines: Vec<&str> = out.lines().collect();
    assert_eq!(lines, vec!["Hello, world!", "The number is: 42", "The sum is: 8"]);
}

#[test]
fn report_repeats_itself() {
    assert_eq!(report(), report());
}

#[test]
fn report_third_line_shows_the_sum() {
    let out = report();
    let third = out.lines().nth(2).unwrap().to_string();
    assert_eq!(third, format!("The sum is: {}", hello_sum::arith::add(5, 3)));
}

#[test]
fn decimal_of_zero() {
    assert_eq!(render_decimal(0), "0");
}

#[test]
fn decimal_of_single_digits() {
    let expected = ["0", "1", "2", "3", "4", "5", "6", "7", "8", "9"];
    for (v, text) in expected.iter().enumerate() {
        assert_eq!(render_decimal(v as i32), *text);
    }
}

#[test]
fn decimal_of_several_digits() {
    assert_eq!(render_decimal(10), "10");
    assert_eq!(render_decimal(42), "42");
    assert_eq!(render_decimal(100), "100");
    assert_eq!(render_decimal(1009), "1009");
    assert_eq!(render_decimal(1234567890), "1234567890");
}

#[test]
fn decimal_of_negative_values() {
    assert_eq!(render_decimal(-1), "-1");
    assert_eq!(render_decimal(-10), "-10");
    assert_eq!(render_decimal(-907), "-907");
}

#[test]
fn decimal_of_the_range_ends() {
    assert_eq!(render_decimal(i32::MAX), "2147483647");
    assert_eq!(render_decimal(i32::MIN), "-2147483648");
}

#[test]
fn decimal_agrees_with_the_standard_formatting() {
    for v in [-100000, -99, -9, 0, 9, 99, 100000, 65536, -65535] {
        assert_eq!(render_decimal(v), format!("{}", v));
    }
}

#[test]
fn line_joins_label_value_and_line_feed() {
    assert_eq!(render_line("The number is: ", 42), "The number is: 42\n");
    assert_eq!(render_line("The sum is: ", 8), "The sum is: 8\n");
    assert_eq!(render_line("", -3), "-3\n");
    assert_eq!(render_line("x = ", i32::MIN), "x = -2147483648\n");
}
