use neworder::env::{set_rank, set_size, Env};
use neworder::logging::{format_log, int_to_string, log_line, py_log_line};

#[test]
fn integers_print_in_decimal() {
    assert_eq!(int_to_string(0), "0");
    assert_eq!(int_to_string(7), "7");
    assert_eq!(int_to_string(19937), "19937");
    assert_eq!(int_to_string(-1), "-1");
    assert_eq!(int_to_string(i32::MAX), i32::MAX.to_string());
    assert_eq!(int_to_string(i32::MIN), i32::MIN.to_string());
}

#[test]
fn log_lines_carry_context_rank_and_size() {
    assert_eq!(format_log("no", 0, 1, "neworder module test"), "[no 0/1] neworder module test");
    assert_eq!(format_log("py", -1, -1, ""), "[py -1/-1] ");
    let mut e = Env::new();
    assert_eq!(log_line(&e, "hello"), "[no 0/1] hello");
    set_rank(&mut e, 2);
    set_size(&mut e, 12);
    assert_eq!(py_log_line(&e, "x=1"), "[py 2/12] x=1");
}
