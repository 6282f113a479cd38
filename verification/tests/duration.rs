use std::time::Duration;

use anyhow::Result;
use task_log::util::format_duration;
use task_log::util::TimeUnit;

fn nanos(duration: Duration) -> Result<i64> {
    Ok(chrono::Duration::from_std(duration)?.num_nanoseconds().unwrap())
}

#[test]
fn duration_formatter() -> Result<()> {
    assert_eq!(String::from("0ns"), format_duration(nanos(Duration::from_secs(0))?));
    for i in 1..7 {
        assert_eq!(format!("{}ns", i), format_duration(nanos(Duration::from_nanos(i))?));
        assert_eq!(format!("{}µs", i), format_duration(nanos(Duration::from_micros(i))?));
        assert_eq!(format!("{}ms", i), format_duration(nanos(Duration::from_millis(i))?));
        assert_eq!(format!("{}s ", i), format_duration(nanos(Duration::from_secs(i))?));
        assert_eq!(format!("{}m ", i), format_duration(nanos(Duration::from_secs(i * 60))?));
        assert_eq!(format!("{}h ", i), format_duration(nanos(Duration::from_secs(i * 3600))?));
        assert_eq!(format!("{}d ", i), format_duration(nanos(Duration::from_secs(i * 86400))?));
        assert_eq!(
            format!("{}mo", i),
            format_duration(nanos(Duration::from_secs(i * 2.628e6 as u64))?)
        );
        assert_eq!(
            format!("{}y ", i),
            format_duration(nanos(Duration::from_secs(i * 3.154e7 as u64))?)
        );
    }
    Ok(())
}

#[test]
fn format_is_a_function_of_the_count() {
    assert_eq!(format_duration(0), "0ns");
    assert_eq!(format_duration(1), "1ns");
    assert_eq!(format_duration(999), "999ns");
    assert_eq!(format_duration(1000), "1µs");
    assert_eq!(format_duration(999_999), "999µs");
    assert_eq!(format_duration(1_000_000), "1ms");
    assert_eq!(format_duration(1_000_000_000), "1s ");
    assert_eq!(format_duration(60_000_000_000), "1m ");
    assert_eq!(format_duration(3_600_000_000_000), "1h ");
    assert_eq!(format_duration(123_456), format_duration(123_456));
}

#[test]
fn each_unit_takes_over_at_its_own_length() {
    assert_eq!(format_duration(999_999_999), "999ms");
    assert_eq!(format_duration(59_999_999_999), "59s ");
    assert_eq!(format_duration(3_599_999_999_999), "59m ");
    assert_eq!(format_duration(86_399_999_999_999), "23h ");
    assert_eq!(format_duration(86_400_000_000_000), "1d ");
    assert_eq!(format_duration(604_799_999_999_999), "6d ");
    assert_eq!(format_duration(604_800_000_000_000), "1w ");
    assert_eq!(format_duration(2_627_999_999_999_999), "4w ");
    assert_eq!(format_duration(2_628_000_000_000_000), "1mo");
    assert_eq!(format_duration(31_539_999_999_999_999), "12mo");
    assert_eq!(format_duration(31_540_000_000_000_000), "1y ");
}

#[test]
fn count_is_cut_off_not_rounded() {
    assert_eq!(format_duration(1_999), "1µs");
    assert_eq!(format_duration(1_999_999_999), "1s ");
    assert_eq!(format_duration(119_999_999_999), "1m ");
    assert_eq!(format_duration(63_079_999_999_999_999), "1y ");
}

#[test]
fn extremes_of_the_range() {
    assert_eq!(format_duration(i64::MAX), "292y ");
    assert_eq!(format_duration(-1), "-1ns");
    assert_eq!(format_duration(-5_000_000_000), "-5000000000ns");
    assert_eq!(format_duration(i64::MIN), "-9223372036854775808ns");
}

#[test]
fn count_of_a_time_that_is_not_negative_is_short() {
    let times: [i64; 8] = [
        0,
        999,
        1_000,
        59_999_999_999,
        2_627_999_999_999_999,
        31_539_999_999_999_999,
        31_540_000_000_000_000,
        i64::MAX,
    ];
    for time in times {
        let text = format_duration(time);
        let digits = text.chars().take_while(|c| c.is_ascii_digit()).count();
        assert!(1 <= digits && digits <= 3);
        assert_eq!(text.chars().count(), digits + 2);
    }
}

#[test]
fn units_and_their_suffixes() {
    assert_eq!(TimeUnit::of(0), TimeUnit::Nanosecond);
    assert_eq!(TimeUnit::of(-7), TimeUnit::Nanosecond);
    assert_eq!(TimeUnit::of(1_000), TimeUnit::Microsecond);
    assert_eq!(TimeUnit::of(1_000_000), TimeUnit::Millisecond);
    assert_eq!(TimeUnit::of(1_000_000_000), TimeUnit::Second);
    assert_eq!(TimeUnit::of(60_000_000_000), TimeUnit::Minute);
    assert_eq!(TimeUnit::of(3_600_000_000_000), TimeUnit::Hour);
    assert_eq!(TimeUnit::of(86_400_000_000_000), TimeUnit::Day);
    assert_eq!(TimeUnit::of(604_800_000_000_000), TimeUnit::Week);
    assert_eq!(TimeUnit::of(2_628_000_000_000_000), TimeUnit::Month);
    assert_eq!(TimeUnit::of(31_540_000_000_000_000), TimeUnit::Year);
    assert_eq!(TimeUnit::Nanosecond.nanos(), 1);
    assert_eq!(TimeUnit::Month.nanos(), 2_628_000_000_000_000);
    assert_eq!(TimeUnit::Year.nanos(), 31_540_000_000_000_000);
    assert_eq!(TimeUnit::Microsecond.suffix(), "µs");
    assert_eq!(TimeUnit::Second.suffix(), "s ");
    assert_eq!(TimeUnit::Week.suffix(), "w ");
    assert_eq!(TimeUnit::Month.suffix(), "mo");
}
