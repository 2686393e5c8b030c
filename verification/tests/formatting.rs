use water_bills::dates::{issue_date_text, month_abbrev, BillDate};
use water_bills::log::{
    init_logger, log_debug, log_error, log_info, log_message, log_trace, log_warn, LogLevel,
};
use water_bills::numfmt::{i64_to_string, u64_to_string};

#[test]
fn u64_renders_zero() {
    assert_eq!(u64_to_string(0), "0");
}

#[test]
fn u64_renders_single_digit() {
    assert_eq!(u64_to_string(7), "7");
}

#[test]
fn u64_renders_multi_digit() {
    assert_eq!(u64_to_string(150), "150");
    assert_eq!(u64_to_string(2568), "2568");
}

#[test]
fn u64_renders_large_value() {
    assert_eq!(u64_to_string(4294967295), "4294967295");
    assert_eq!(u64_to_string(u64::MAX), "18446744073709551615");
}

#[test]
fn i64_renders_signed_values() {
    assert_eq!(i64_to_string(543), "543");
    assert_eq!(i64_to_string(0), "0");
    assert_eq!(i64_to_string(-44), "-44");
    assert_eq!(i64_to_string(i64::MIN), "-9223372036854775808");
}

#[test]
fn month_abbrev_covers_all_months() {
    let expected = [
        "ม.ค.", "ก.พ.", "มี.ค.", "เม.ย.", "พ.ค.", "มิ.ย.", "ก.ค.", "ส.ค.", "ก.ย.", "ต.ค.",
        "พ.ย.", "ธ.ค.",
    ];
    for m in 1..=12u32 {
        assert_eq!(month_abbrev(m), expected[(m - 1) as usize]);
    }
}

#[test]
fn month_abbrev_empty_outside_range() {
    assert_eq!(month_abbrev(0), "");
    assert_eq!(month_abbrev(13), "");
}

#[test]
fn issue_date_uses_buddhist_year() {
    let d = BillDate { day: 15, month: 7, year: 2025 };
    assert_eq!(issue_date_text(&d), "15 ก.ค. 2568");
}

#[test]
fn issue_date_pads_the_day() {
    let d = BillDate { day: 1, month: 1, year: 2024 };
    assert_eq!(issue_date_text(&d), "01 ม.ค. 2567");
}

#[test]
fn logger_accepts_at_or_above_filter() {
    let mut logger = init_logger(LogLevel::Info);
    log_info(&mut logger, "milestone");
    log_warn(&mut logger, "careful");
    log_error(&mut logger, "broken");
    assert_eq!(logger.lines.len(), 3);
    assert_eq!(logger.lines[0], "[\x1b[32mINFO\x1b[0m] milestone");
    assert_eq!(logger.lines[1], "[\x1b[33mWARN\x1b[0m] careful");
    assert_eq!(logger.lines[2], "[\x1b[31mERROR\x1b[0m] broken");
}

#[test]
fn logger_drops_below_filter() {
    let mut logger = init_logger(LogLevel::Info);
    log_debug(&mut logger, "detail");
    log_trace(&mut logger, "fine detail");
    assert_eq!(logger.lines.len(), 0);
}

#[test]
fn error_filter_keeps_only_errors() {
    let mut logger = init_logger(LogLevel::Error);
    log_warn(&mut logger, "careful");
    log_info(&mut logger, "milestone");
    log_error(&mut logger, "broken");
    assert_eq!(logger.lines.len(), 1);
    assert_eq!(logger.lines[0], "[\x1b[31mERROR\x1b[0m] broken");
}

#[test]
fn trace_filter_keeps_everything() {
    let mut logger = init_logger(LogLevel::Trace);
    log_message(&mut logger, LogLevel::Trace, "a");
    log_message(&mut logger, LogLevel::Debug, "b");
    log_message(&mut logger, LogLevel::Info, "c");
    assert_eq!(logger.lines.len(), 3);
    assert_eq!(logger.lines[0], "[\x1b[35mTRACE\x1b[0m] a");
    assert_eq!(logger.lines[1], "[\x1b[36mDEBUG\x1b[0m] b");
}
