use lanshare::input::InputPath;
use lanshare::resolve::{capture_destination, decimal_string, join_path_str, resolve_plan, CapturePlan};

#[test]
fn dash_selects_stdin() {
    let r = InputPath::from_str("-").unwrap();
    assert!(matches!(r, InputPath::Stdin));
}

#[test]
fn plain_string_is_a_path() {
    let r = InputPath::from_str("./report.pdf").unwrap();
    match r {
        InputPath::Path(p) => assert_eq!(p, "./report.pdf"),
        InputPath::Stdin => panic!("expected a path"),
    }
}

#[test]
fn dash_inside_longer_string_is_a_path() {
    let r = InputPath::from_str("--").unwrap();
    assert!(matches!(r, InputPath::Path(_)));
    let r = InputPath::from_str("a-b").unwrap();
    assert!(matches!(r, InputPath::Path(_)));
}

#[test]
fn empty_string_is_a_path() {
    let r = InputPath::from_str("").unwrap();
    match r {
        InputPath::Path(p) => assert_eq!(p, ""),
        InputPath::Stdin => panic!("expected a path"),
    }
}

#[test]
fn decimal_rendering_exact_values() {
    assert_eq!(decimal_string(0), "0");
    assert_eq!(decimal_string(7), "7");
    assert_eq!(decimal_string(10), "10");
    assert_eq!(decimal_string(123), "123");
    assert_eq!(decimal_string(9000), "9000");
    assert_eq!(decimal_string(1_699_999_999_999_999_999), "1699999999999999999");
    assert_eq!(
        decimal_string(u128::MAX),
        "340282366920938463463374607431768211455"
    );
}

#[test]
fn join_inserts_separator_only_where_needed() {
    assert_eq!(join_path_str("/tmp", "x"), "/tmp/x");
    assert_eq!(join_path_str("/tmp/", "x"), "/tmp/x");
    assert_eq!(join_path_str("", "x"), "x");
}

#[test]
fn capture_destination_is_dir_slash_nanos() {
    assert_eq!(
        capture_destination("/tmp", 1_699_999_999_999_999_999),
        "/tmp/1699999999999999999"
    );
}

#[test]
fn path_input_is_served_in_place() {
    let plan = resolve_plan(
        InputPath::Path(String::from("./report.pdf")),
        "/tmp",
        42,
    );
    match plan {
        CapturePlan::UseExisting(p) => assert_eq!(p, "./report.pdf"),
        CapturePlan::CaptureTo(_) => panic!("a path input must not be captured"),
    }
}

#[test]
fn stdin_input_is_captured_to_one_fresh_file() {
    let plan = resolve_plan(InputPath::Stdin, "/tmp", 42);
    match plan {
        CapturePlan::CaptureTo(p) => assert_eq!(p, "/tmp/42"),
        CapturePlan::UseExisting(_) => panic!("the stream input must be captured"),
    }
}

#[test]
fn distinct_clock_readings_give_distinct_destinations() {
    let a = capture_destination("/tmp", 1000);
    let b = capture_destination("/tmp", 1001);
    assert_ne!(a, b);
}
