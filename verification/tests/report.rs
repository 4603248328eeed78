use spawn_bench::duration::Duration;
use spawn_bench::report::{describe_header, describe_result};
use spawn_bench::runner::run_benchmark;

#[test]
fn header_is_two_titles_and_a_tab() {
    assert_eq!(describe_header(), "runtime\ttime per");
}

#[test]
fn header_has_two_columns() {
    let header = describe_header();
    let columns: Vec<&str> = header.split('\t').collect();
    assert_eq!(columns, vec!["runtime", "time per"]);
}

#[test]
fn result_renders_seconds_and_milliseconds() {
    assert_eq!(describe_result("r", Duration::new(1, 250_000_000)), "r\t1.250");
}

#[test]
fn result_pads_milliseconds_to_three_digits() {
    assert_eq!(describe_result("r", Duration::new(0, 5_000_000)), "r\t0.005");
    assert_eq!(describe_result("r", Duration::new(0, 50_000_000)), "r\t0.050");
    assert_eq!(describe_result("r", Duration::new(0, 500_000_000)), "r\t0.500");
    assert_eq!(describe_result("r", Duration::zero()), "r\t0.000");
}

#[test]
fn result_names_the_runtime() {
    assert_eq!(describe_result("async-std", Duration::from_millis(123)), "async-std\t0.123");
    assert_eq!(describe_result("bastion", Duration::from_millis(123)), "bastion\t0.123");
    assert_eq!(describe_result("", Duration::from_millis(123)), "\t0.123");
    assert_eq!(describe_result("zäh\tlang", Duration::from_millis(1)), "zäh\tlang\t0.001");
}

#[test]
fn result_cuts_off_what_is_less_than_a_millisecond() {
    assert_eq!(describe_result("r", Duration::new(0, 999_999)), "r\t0.000");
    assert_eq!(describe_result("r", Duration::new(0, 1_999_999)), "r\t0.001");
    assert_eq!(describe_result("r", Duration::new(2, 999_999_999)), "r\t2.999");
}

#[test]
fn result_renders_seconds_of_any_size() {
    assert_eq!(describe_result("r", Duration::new(9, 0)), "r\t9.000");
    assert_eq!(describe_result("r", Duration::new(10, 0)), "r\t10.000");
    assert_eq!(describe_result("r", Duration::new(1_234_567_890, 12_000_000)), "r\t1234567890.012");
    assert_eq!(
        describe_result("r", Duration::new(u64::MAX, 999_999_999)),
        "r\t18446744073709551615.999"
    );
}

#[test]
fn result_agrees_with_the_formatter() {
    for (secs, nanos) in [(0u64, 0u32), (0, 7_654_321), (3, 141_592_653), (600, 1), (99, 999_000_000)] {
        let expected = format!("{}\t{}.{:03}", "name", secs, nanos / 1_000_000);
        assert_eq!(describe_result("name", Duration::new(secs, nanos)), expected);
    }
}

#[test]
fn run_of_three_trials_reports_their_mean() {
    let orders: [[u64; 3]; 6] =
        [[10, 20, 30], [10, 30, 20], [20, 10, 30], [20, 30, 10], [30, 10, 20], [30, 20, 10]];
    for order in orders {
        let trials: Result<Vec<Duration>, String> =
            Ok(order.iter().map(|&m| Duration::from_millis(m)).collect());
        let report = run_benchmark(trials, Some("test"), 3);
        assert_eq!(report, Ok(Some("test\t0.020".to_string())));
    }
}

#[test]
fn run_without_a_name_reports_nothing() {
    for count in [1u32, 3, 100] {
        let trials: Result<Vec<Duration>, String> =
            Ok((0..count).map(|i| Duration::from_millis(i as u64)).collect());
        assert_eq!(run_benchmark(trials, None, count), Ok(None));
    }
}

#[test]
fn run_with_a_failed_trial_reports_nothing_and_fails() {
    let trials: Result<Vec<Duration>, String> = Err("trial failed".to_string());
    assert_eq!(run_benchmark(trials, Some("test"), 3), Err("trial failed".to_string()));
    let trials: Result<Vec<Duration>, String> = Err("trial failed".to_string());
    assert_eq!(run_benchmark(trials, None, 3), Err("trial failed".to_string()));
}

#[test]
fn run_of_many_trials_reports_one_line() {
    let trials: Result<Vec<Duration>, String> =
        Ok((0..5000u64).map(|i| Duration::from_millis(100 + i % 3)).collect());
    let report = run_benchmark(trials, Some("async-std"), 5000).unwrap().unwrap();
    assert_eq!(report, "async-std\t0.100");
    assert_eq!(report.lines().count(), 1);
}
