use sensor_chart::align::{align_series, align_times, AlignError, AlignedSeries};
use sensor_chart::clock::TimeOfDay;
use sensor_chart::ingest::Row;
use sensor_chart::label::{decimal_text, elapsed_label};

fn row(time: &str, ram: f64, cpu: f64, gpu: f64) -> Row<f64> {
    Row { time: time.to_string(), ram, cpu, gpu }
}

fn chrono_seconds(later: &str, earlier: &str) -> i64 {
    let format = "%H:%M:%S%.3f";
    let a = chrono::NaiveTime::parse_from_str(later, format).unwrap();
    let b = chrono::NaiveTime::parse_from_str(earlier, format).unwrap();
    a.signed_duration_since(b).num_seconds()
}

#[test]
fn second_label_counts_whole_seconds() {
    let rows = vec![row("12:00:00.000", 1.0, 2.0, 3.0), row("12:00:05.500", 4.0, 5.0, 6.0)];
    let series = align_series(&rows).expect("times");
    assert_eq!(series.x_label, vec!["0s".to_string(), "5s".to_string()]);
}

#[test]
fn first_label_is_zero() {
    let rows = vec![row("23:59:59.999", 1.0, 2.0, 3.0)];
    let series = align_series(&rows).expect("times");
    assert_eq!(series.x_label[0], "0s");
}

#[test]
fn sequences_have_one_length() {
    let rows = vec![
        row("08:00:00.000", 1.0, 2.0, 3.0),
        row("08:00:02.000", 4.0, 5.0, 6.0),
        row("08:00:04.000", 7.0, 8.0, 9.0),
    ];
    let series = align_series(&rows).expect("times");
    assert_eq!(series.len(), 3);
    assert_eq!(series.x_index.len(), 3);
    assert_eq!(series.x_label.len(), 3);
    assert_eq!(series.ram.len(), 3);
    assert_eq!(series.cpu.len(), 3);
    assert_eq!(series.gpu.len(), 3);
}

#[test]
fn series_project_the_rows() {
    let rows = vec![
        row("08:00:00.000", 1.0, 2.0, 3.0),
        row("08:00:02.250", 4.0, 5.0, 6.0),
        row("08:01:04.999", 7.0, 8.0, 9.0),
    ];
    let series = align_series(&rows).expect("times");
    assert_eq!(
        series,
        AlignedSeries {
            x_index: vec![0, 1, 2],
            x_label: vec!["0s".to_string(), "2s".to_string(), "64s".to_string()],
            ram: vec![1.0, 4.0, 7.0],
            cpu: vec![2.0, 5.0, 8.0],
            gpu: vec![3.0, 6.0, 9.0],
        }
    );
}

#[test]
fn no_rows_give_an_empty_series() {
    let rows: Vec<Row<f64>> = Vec::new();
    let series = align_series(&rows).expect("no error");
    assert_eq!(series.len(), 0);
    assert!(series.x_index.is_empty());
    assert!(series.x_label.is_empty());
    assert!(series.ram.is_empty());
    assert!(series.cpu.is_empty());
    assert!(series.gpu.is_empty());
    assert_eq!(series.label_at(0), None);
}

#[test]
fn time_before_the_origin_gives_a_negative_label() {
    let rows = vec![row("23:59:59.000", 1.0, 2.0, 3.0), row("00:00:01.000", 4.0, 5.0, 6.0)];
    let series = align_series(&rows).expect("times");
    assert_eq!(series.x_label, vec!["0s".to_string(), "-86398s".to_string()]);
}

#[test]
fn fraction_is_dropped_towards_zero() {
    let rows = vec![
        row("12:00:10.000", 0.0, 0.0, 0.0),
        row("12:00:10.999", 0.0, 0.0, 0.0),
        row("12:00:11.000", 0.0, 0.0, 0.0),
        row("12:00:09.001", 0.0, 0.0, 0.0),
        row("12:00:08.500", 0.0, 0.0, 0.0),
    ];
    let series = align_series(&rows).expect("times");
    assert_eq!(series.x_label, vec!["0s", "0s", "1s", "0s", "-1s"]);
}

#[test]
fn first_bad_time_is_reported() {
    let rows = vec![
        row("12:00:00.000", 0.0, 0.0, 0.0),
        row("noon", 0.0, 0.0, 0.0),
        row("25:00:00.000", 0.0, 0.0, 0.0),
    ];
    assert_eq!(align_series(&rows), Err(AlignError::BadTime { row: 1 }));
}

#[test]
fn hour_out_of_range_is_a_bad_time() {
    let rows = vec![row("24:00:00.000", 0.0, 0.0, 0.0)];
    assert_eq!(align_series(&rows), Err(AlignError::BadTime { row: 0 }));
}

#[test]
fn time_of_day_is_read_in_the_log_format() {
    assert_eq!(TimeOfDay::parse("00:00:00.000"), Some(TimeOfDay { secs: 0, frac: 0 }));
    assert_eq!(
        TimeOfDay::parse("12:00:05.500"),
        Some(TimeOfDay { secs: 43_205, frac: 500_000_000 })
    );
    assert_eq!(
        TimeOfDay::parse("23:59:59.999"),
        Some(TimeOfDay { secs: 86_399, frac: 999_000_000 })
    );
    assert_eq!(TimeOfDay::parse(""), None);
    assert_eq!(TimeOfDay::parse("Time"), None);
    assert_eq!(TimeOfDay::parse("12:60:00.000"), None);
    assert_eq!(TimeOfDay::parse("12:00:00.000 "), None);
}

#[test]
fn leap_second_is_read_as_the_last_second_of_the_minute() {
    assert_eq!(
        TimeOfDay::parse("23:59:60.250"),
        Some(TimeOfDay { secs: 86_399, frac: 1_250_000_000 })
    );
}

#[test]
fn elapsed_seconds_agree_with_chrono() {
    let times = [
        "00:00:00.000",
        "00:00:00.999",
        "00:00:59.500",
        "00:00:60.500",
        "00:01:00.000",
        "11:59:59.001",
        "12:00:00.000",
        "23:59:59.999",
        "23:59:60.999",
    ];
    for later in times.iter() {
        for earlier in times.iter() {
            let a = TimeOfDay::parse(later).unwrap();
            let b = TimeOfDay::parse(earlier).unwrap();
            assert_eq!(a.elapsed_since(b), chrono_seconds(later, earlier), "{} - {}", later, earlier);
        }
    }
}

#[test]
fn elapsed_seconds_by_hand() {
    let at = |secs: u32, frac: u32| TimeOfDay { secs, frac };
    assert_eq!(at(43_205, 500_000_000).elapsed_since(at(43_200, 0)), 5);
    assert_eq!(at(43_200, 0).elapsed_since(at(43_205, 500_000_000)), -5);
    assert_eq!(at(10, 0).elapsed_since(at(10, 0)), 0);
    assert_eq!(at(86_399, 1_999_999_999).elapsed_since(at(0, 0)), 86_400);
    assert_eq!(at(0, 0).elapsed_since(at(86_399, 1_999_999_999)), -86_400);
    // A leap second held by the earlier time is counted in.
    assert_eq!(at(60, 0).elapsed_since(at(59, 1_000_000_000)), 1);
    assert_eq!(at(61, 0).elapsed_since(at(59, 1_500_000_000)), 1);
    assert_eq!(at(59, 1_000_000_000).elapsed_since(at(59, 0)), 1);
    assert_eq!(at(59, 1_500_000_000).elapsed_since(at(61, 0)), -1);
}

#[test]
fn align_times_uses_the_first_time_as_origin() {
    let rows = vec![row("a", 1.0, 2.0, 3.0), row("b", 4.0, 5.0, 6.0), row("c", 7.0, 8.0, 9.0)];
    let times = vec![
        TimeOfDay { secs: 100, frac: 900_000_000 },
        TimeOfDay { secs: 3_700, frac: 0 },
        TimeOfDay { secs: 40, frac: 0 },
    ];
    let series = align_times(&rows, &times);
    assert_eq!(series.x_index, vec![0, 1, 2]);
    assert_eq!(series.x_label, vec!["0s", "3599s", "-60s"]);
    assert_eq!(series.gpu, vec![3.0, 6.0, 9.0]);
}

#[test]
fn labels_are_found_by_position() {
    let rows = vec![row("12:00:00.000", 1.0, 2.0, 3.0), row("12:00:07.000", 4.0, 5.0, 6.0)];
    let series = align_series(&rows).expect("times");
    assert_eq!(series.label_at(0), Some(&"0s".to_string()));
    assert_eq!(series.label_at(1), Some(&"7s".to_string()));
    assert_eq!(series.label_at(2), None);
    assert_eq!(series.label_at(usize::MAX), None);
}

#[test]
fn numbers_are_written_in_decimal() {
    assert_eq!(decimal_text(0), "0");
    assert_eq!(decimal_text(7), "7");
    assert_eq!(decimal_text(10), "10");
    assert_eq!(decimal_text(1_234_567_890), "1234567890");
    assert_eq!(decimal_text(u64::MAX), "18446744073709551615");
}

#[test]
fn labels_end_in_the_unit() {
    assert_eq!(elapsed_label(0), "0s");
    assert_eq!(elapsed_label(5), "5s");
    assert_eq!(elapsed_label(-5), "-5s");
    assert_eq!(elapsed_label(86_400), "86400s");
    assert_eq!(elapsed_label(i64::MAX), "9223372036854775807s");
    assert_eq!(elapsed_label(i64::MIN), "-9223372036854775808s");
}

#[test]
fn labels_agree_with_the_standard_formatter() {
    for secs in [-86_400i64, -3_601, -100, -10, -9, -1, 0, 1, 9, 10, 99, 100, 3_600, 86_399] {
        assert_eq!(elapsed_label(secs), format!("{}s", secs));
    }
}
