use system_monitor::text::{digit_str, push_decimal, push_fixed2, push_joined};

fn decimal_of(n: u64) -> String {
    let mut out = String::new();
    push_decimal(&mut out, n);
    out
}

fn fixed2_of(v: u64) -> String {
    let mut out = String::new();
    push_fixed2(&mut out, v);
    out
}

#[test]
fn digits() {
    let all: Vec<&str> = (0..10u64).map(digit_str).collect();
    assert_eq!(all, vec!["0", "1", "2", "3", "4", "5", "6", "7", "8", "9"]);
}

#[test]
fn decimal_text() {
    assert_eq!(decimal_of(0), "0");
    assert_eq!(decimal_of(7), "7");
    assert_eq!(decimal_of(10), "10");
    assert_eq!(decimal_of(1_234_567_890), "1234567890");
    assert_eq!(decimal_of(u64::MAX), "18446744073709551615");
}

#[test]
fn decimal_is_appended() {
    let mut out = String::from("pid ");
    push_decimal(&mut out, 4_242);
    assert_eq!(out, "pid 4242");
}

#[test]
fn two_decimal_places() {
    assert_eq!(fixed2_of(0), "0.00");
    assert_eq!(fixed2_of(5), "0.05");
    assert_eq!(fixed2_of(50), "0.50");
    assert_eq!(fixed2_of(100), "1.00");
    assert_eq!(fixed2_of(1_234), "12.34");
    assert_eq!(fixed2_of(10_000), "100.00");
    assert_eq!(fixed2_of(u64::MAX), "184467440737095516.15");
}

#[test]
fn joined_parts() {
    let mut out = String::new();
    push_joined(&mut out, &vec!["a".to_string(), "b".to_string(), "c".to_string()], " | ");
    assert_eq!(out, "a | b | c");
    let mut out = String::from(">");
    push_joined(&mut out, &vec!["only".to_string()], " | ");
    assert_eq!(out, ">only");
    let mut out = String::from(">");
    push_joined(&mut out, &Vec::new(), " | ");
    assert_eq!(out, ">");
    let mut out = String::new();
    push_joined(&mut out, &vec![String::new(), String::new()], ",");
    assert_eq!(out, ",");
}
