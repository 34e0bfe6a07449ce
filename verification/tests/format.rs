use timecmd::format::{format_cpu_share, format_memory, format_time};
use timecmd::timespan::TimeSpan;

fn millis(ms: u64) -> TimeSpan {
    TimeSpan::from_secs_nanos(ms / 1000, ((ms % 1000) * 1_000_000) as u32)
}

fn float_time(seconds: f64) -> String {
    if seconds < 60.0 {
        format!("{:.3}s", seconds)
    } else {
        let minutes = (seconds as u64) / 60;
        let remaining = seconds - (minutes as f64 * 60.0);
        format!("{}m{:.3}s", minutes, remaining)
    }
}

fn float_memory(kb: u64) -> String {
    if kb == 0 {
        "N/A".to_string()
    } else if kb < 1024 {
        format!("{}KB", kb)
    } else if kb < 1024 * 1024 {
        format!("{:.1}MB", kb as f64 / 1024.0)
    } else {
        format!("{:.1}GB", kb as f64 / (1024.0 * 1024.0))
    }
}

#[test]
fn time_under_a_minute_has_three_decimals() {
    assert_eq!(format_time(TimeSpan::zero()), "0.000s");
    assert_eq!(format_time(millis(1)), "0.001s");
    assert_eq!(format_time(millis(1003)), "1.003s");
    assert_eq!(format_time(millis(59_999)), "59.999s");
    assert_eq!(format_time(TimeSpan::from_secs_nanos(12, 345_678_901)), "12.346s");
}

#[test]
fn time_from_a_minute_on_shows_minutes() {
    assert_eq!(format_time(millis(60_000)), "1m0.000s");
    assert_eq!(format_time(millis(61_500)), "1m1.500s");
    assert_eq!(format_time(millis(3_725_250)), "62m5.250s");
    assert_eq!(format_time(TimeSpan::from_secs_nanos(u64::MAX, 0)), "307445734561825860m15.000s");
}

#[test]
fn time_rounds_to_the_nearest_millisecond() {
    assert_eq!(format_time(TimeSpan::from_secs_nanos(0, 499_999)), "0.000s");
    assert_eq!(format_time(TimeSpan::from_secs_nanos(0, 500_001)), "0.001s");
    assert_eq!(format_time(TimeSpan::from_secs_nanos(0, 500_000)), "0.000s");
    assert_eq!(format_time(TimeSpan::from_secs_nanos(0, 1_500_000)), "0.002s");
    assert_eq!(format_time(TimeSpan::from_secs_nanos(0, 2_500_000)), "0.002s");
}

#[test]
fn time_keeps_the_rounded_remainder_beside_the_minutes() {
    assert_eq!(format_time(TimeSpan::from_secs_nanos(59, 999_600_000)), "60.000s");
    assert_eq!(format_time(TimeSpan::from_secs_nanos(119, 999_600_000)), "1m60.000s");
}

#[test]
fn time_agrees_with_floating_point_on_whole_milliseconds() {
    let mut ms: u64 = 0;
    while ms < 400_000 {
        assert_eq!(format_time(millis(ms)), float_time(ms as f64 / 1000.0), "at {} ms", ms);
        ms += 7;
    }
}

#[test]
fn time_agrees_with_floating_point_on_clock_ticks() {
    let mut ticks: u64 = 0;
    while ticks < 100_000 {
        let span = TimeSpan::from_ticks(ticks, 100).unwrap();
        assert_eq!(format_time(span), float_time(ticks as f64 / 100.0), "at {} ticks", ticks);
        ticks += 3;
    }
}

#[test]
fn memory_text_by_range() {
    assert_eq!(format_memory(0), "N/A");
    assert_eq!(format_memory(1), "1KB");
    assert_eq!(format_memory(512), "512KB");
    assert_eq!(format_memory(1023), "1023KB");
    assert_eq!(format_memory(1024), "1.0MB");
    assert_eq!(format_memory(1536), "1.5MB");
    assert_eq!(format_memory(1_048_575), "1024.0MB");
    assert_eq!(format_memory(1_048_576), "1.0GB");
    assert_eq!(format_memory(1_572_864), "1.5GB");
    assert_eq!(format_memory(u64::MAX), "17592186044416.0GB");
}

#[test]
fn memory_ties_go_to_the_even_tenth() {
    // 1280 KB is 1.25 MB and 1792 KB is 1.75 MB.
    assert_eq!(format_memory(1280), "1.2MB");
    assert_eq!(format_memory(1792), "1.8MB");
}

#[test]
fn memory_agrees_with_floating_point() {
    let mut kb: u64 = 0;
    while kb < 3_000_000 {
        assert_eq!(format_memory(kb), float_memory(kb), "at {} KB", kb);
        kb += 1;
    }
    let mut kb: u64 = 3_000_000;
    while kb < (1u64 << 52) {
        assert_eq!(format_memory(kb), float_memory(kb), "at {} KB", kb);
        kb = kb * 3 + 256;
    }
}

#[test]
fn cpu_share_text() {
    assert_eq!(format_cpu_share(millis(500), millis(250), millis(1000)), "75.0%");
    assert_eq!(format_cpu_share(millis(1), millis(0), millis(3)), "33.3%");
    assert_eq!(format_cpu_share(millis(2), millis(0), millis(3)), "66.7%");
    assert_eq!(format_cpu_share(millis(3000), millis(1000), millis(1000)), "400.0%");
    assert_eq!(format_cpu_share(millis(0), millis(0), millis(1000)), "0.0%");
    assert_eq!(format_cpu_share(millis(5), millis(5), TimeSpan::zero()), "0.0%");
}
