use timecmd::procstat::{
    chars_of, is_whitespace, parse_counter, probe_usage, split_fields, status_record_path,
    usage_from_record,
};
use timecmd::timespan::TimeSpan;
use timecmd::usage::ResourceUsage;

fn field(text: &str) -> Vec<char> {
    text.chars().collect()
}

fn words(text: &str) -> Vec<String> {
    split_fields(&field(text)).into_iter().map(|w| w.into_iter().collect()).collect()
}

const RECORD: &str = "4242 (sleep) S 4000 4242 4000 34816 4242 4194304 120 0 0 0 \
    157 43 0 0 20 0 1 0 123456 8388608 200 18446744073709551615 1 1 0 0 0 0 0 0 0 0 0 0 17 3 0 0 0 0 0\n";

#[test]
fn white_space_is_what_the_standard_library_calls_white_space() {
    let mut code: u32 = 0;
    while code <= 0x10FFFF {
        if let Some(c) = char::from_u32(code) {
            assert_eq!(is_whitespace(c), c.is_whitespace(), "at {:#x}", code);
        }
        code += 1;
    }
}

#[test]
fn chars_of_keeps_every_character() {
    assert_eq!(chars_of(""), Vec::<char>::new());
    assert_eq!(chars_of("a b"), vec!['a', ' ', 'b']);
    assert_eq!(chars_of("é\u{3000}ß"), vec!['é', '\u{3000}', 'ß']);
}

#[test]
fn fields_are_the_runs_between_white_space() {
    assert_eq!(words(""), Vec::<String>::new());
    assert_eq!(words("   \t\n"), Vec::<String>::new());
    assert_eq!(words("one"), vec!["one"]);
    assert_eq!(words("  one  two\tthree\n"), vec!["one", "two", "three"]);
    assert_eq!(words("a\u{a0}b\u{2003}c"), vec!["a", "b", "c"]);
}

#[test]
fn fields_agree_with_split_whitespace() {
    let samples = [RECORD, " x", "x ", "1 (a b) S 2", "\u{85}q\u{1680}r\u{2028}s\u{205f}", "a\u{200b}b"];
    for sample in samples {
        let expected: Vec<String> = sample.split_whitespace().map(|w| w.to_string()).collect();
        assert_eq!(words(sample), expected);
    }
}

#[test]
fn counters_are_plain_decimal_numbers() {
    assert_eq!(parse_counter(&field("0")), 0);
    assert_eq!(parse_counter(&field("157")), 157);
    assert_eq!(parse_counter(&field("000157")), 157);
    assert_eq!(parse_counter(&field("+157")), 157);
    assert_eq!(parse_counter(&field("18446744073709551615")), u64::MAX);
}

#[test]
fn anything_else_counts_as_zero() {
    assert_eq!(parse_counter(&field("")), 0);
    assert_eq!(parse_counter(&field("+")), 0);
    assert_eq!(parse_counter(&field("-5")), 0);
    assert_eq!(parse_counter(&field("++5")), 0);
    assert_eq!(parse_counter(&field("12a")), 0);
    assert_eq!(parse_counter(&field("a12")), 0);
    assert_eq!(parse_counter(&field("1.5")), 0);
    assert_eq!(parse_counter(&field("١٢")), 0);
    assert_eq!(parse_counter(&field("18446744073709551616")), 0);
    assert_eq!(parse_counter(&field("99999999999999999999999")), 0);
    assert_eq!(parse_counter(&field("18446744073709551616x")), 0);
}

#[test]
fn counters_agree_with_the_standard_parser() {
    let samples = [
        "0", "7", "+7", "-7", "", "+", "-", "007", "18446744073709551615", "18446744073709551616",
        "184467440737095516150", "1e3", " 1", "1 ", "+-1", "4294967296",
    ];
    for sample in samples {
        assert_eq!(parse_counter(&field(sample)), sample.parse::<u64>().unwrap_or(0), "{:?}", sample);
    }
}

#[test]
fn a_record_gives_times_and_memory() {
    let usage = usage_from_record(RECORD, 100);
    assert_eq!(usage.user_time, TimeSpan::from_secs_nanos(1, 570_000_000));
    assert_eq!(usage.system_time, TimeSpan::from_secs_nanos(0, 430_000_000));
    assert_eq!(usage.max_memory, 8192);
}

#[test]
fn ticks_are_divided_by_the_clock_rate() {
    let usage = usage_from_record(RECORD, 1000);
    assert_eq!(usage.user_time, TimeSpan::from_secs_nanos(0, 157_000_000));
    assert_eq!(usage.system_time, TimeSpan::from_secs_nanos(0, 43_000_000));
    let usage = usage_from_record(RECORD, 3);
    assert_eq!(usage.user_time, TimeSpan::from_secs_nanos(52, 333_333_333));
    assert_eq!(usage.system_time, TimeSpan::from_secs_nanos(14, 333_333_333));
}

#[test]
fn memory_is_rounded_down_to_whole_kibibytes() {
    let record = "1 2 3 4 5 6 7 8 9 10 11 12 13 14 15 16 17 18 19 20 21 22 2047 24";
    assert_eq!(usage_from_record(record, 100).max_memory, 1);
    let record = "1 2 3 4 5 6 7 8 9 10 11 12 13 14 15 16 17 18 19 20 21 22 1023 24";
    assert_eq!(usage_from_record(record, 100).max_memory, 0);
}

#[test]
fn a_short_record_reports_nothing() {
    let record = "1 2 3 4 5 6 7 8 9 10 11 12 13 14 15 16 17 18 19 20 21 22 23";
    assert_eq!(usage_from_record(record, 100), ResourceUsage::none());
    assert_eq!(usage_from_record("", 100), ResourceUsage::none());
    let record = "1 2 3 4 5 6 7 8 9 10 11 12 13 14 15 16 17 18 19 20 21 22 4096 24";
    assert_eq!(usage_from_record(record, 100).max_memory, 4);
    assert_eq!(usage_from_record(record, 100).user_time, TimeSpan::from_secs_nanos(0, 140_000_000));
}

#[test]
fn a_clock_that_does_not_tick_reports_nothing() {
    assert_eq!(usage_from_record(RECORD, 0), ResourceUsage::none());
    assert_eq!(usage_from_record(RECORD, -1), ResourceUsage::none());
    assert_eq!(usage_from_record(RECORD, i64::MIN), ResourceUsage::none());
}

#[test]
fn unreadable_counters_count_as_zero() {
    let record = "1 2 3 4 5 6 7 8 9 10 11 12 13 x -3 16 17 18 19 20 21 22 2.5 24";
    assert_eq!(usage_from_record(record, 100), ResourceUsage::none());
}

#[test]
fn a_missing_record_reports_nothing() {
    assert_eq!(probe_usage(None, 100), ResourceUsage::none());
    assert_eq!(probe_usage(None, 100), ResourceUsage::default());
    assert_eq!(probe_usage(Some(RECORD), 100), usage_from_record(RECORD, 100));
}

#[test]
fn the_record_lies_under_the_process_number() {
    assert_eq!(status_record_path(0), "/proc/0/stat");
    assert_eq!(status_record_path(4242), "/proc/4242/stat");
    assert_eq!(status_record_path(u32::MAX), "/proc/4294967295/stat");
}
