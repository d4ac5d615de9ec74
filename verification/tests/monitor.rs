use auto_sade::monitor::{
    any_in_flight, is_in_flight, Monitor, Verdict, POLL_INTERVAL_MS, STABILITY_WINDOW_MS,
};

/// Polls a simulated directory whose marker disappears at `gone_ms`, and
/// returns the verdict together with the time at which it was given.
fn simulate(gone_ms: u64, timeout_ms: u64) -> (bool, u64) {
    let mut now = 0u64;
    let mut monitor = Monitor::new(now, timeout_ms);
    loop {
        let pending = now < gone_ms;
        match monitor.observe(now, pending) {
            Verdict::Stable => return (true, now),
            Verdict::TimedOut => return (false, now),
            Verdict::PollAgain { wait_ms } => now += wait_ms,
        }
    }
}

#[test]
fn marker_removed_after_one_second_is_stable_at_three() {
    assert_eq!(simulate(1000, 5000), (true, 3000));
}

#[test]
fn timeout_under_three_seconds_gives_up() {
    assert_eq!(simulate(1000, 2000), (false, 2000));
    assert_eq!(simulate(1000, 2500), (false, 2500));
    assert_eq!(simulate(1000, 1000), (false, 1000));
}

#[test]
fn empty_directory_is_stable_after_the_window() {
    assert_eq!(simulate(0, 30_000), (true, STABILITY_WINDOW_MS));
}

#[test]
fn marker_that_stays_times_out() {
    assert_eq!(simulate(u64::MAX, 5000), (false, 5000));
}

#[test]
fn reappearing_marker_restarts_the_window() {
    let mut monitor = Monitor::new(0, 60_000);
    assert_eq!(monitor.observe(0, false), Verdict::PollAgain { wait_ms: POLL_INTERVAL_MS });
    assert_eq!(monitor.quiet_since_ms, Some(0));
    assert_eq!(monitor.observe(1500, true), Verdict::PollAgain { wait_ms: 500 });
    assert_eq!(monitor.quiet_since_ms, None);
    assert_eq!(monitor.observe(2000, false), Verdict::PollAgain { wait_ms: 500 });
    assert_eq!(monitor.observe(3999, false), Verdict::PollAgain { wait_ms: 500 });
    assert_eq!(monitor.observe(4000, false), Verdict::Stable);
}

#[test]
fn window_is_tested_before_the_timeout() {
    let mut monitor = Monitor::new(0, 2000);
    assert_eq!(monitor.observe(0, false), Verdict::PollAgain { wait_ms: 500 });
    assert_eq!(monitor.observe(2000, false), Verdict::Stable);
}

#[test]
fn clock_that_goes_back_counts_as_no_time() {
    let mut monitor = Monitor::new(1000, 500);
    assert_eq!(monitor.observe(900, false), Verdict::PollAgain { wait_ms: 500 });
    assert_eq!(monitor.observe(800, false), Verdict::PollAgain { wait_ms: 500 });
}

#[test]
fn marker_names() {
    assert!(is_in_flight("informe.pdf.crdownload"));
    assert!(is_in_flight("a.crdownload"));
    assert!(is_in_flight("..crdownload"));
    assert!(is_in_flight("ñandú.crdownload"));
    assert!(!is_in_flight(".crdownload"));
    assert!(!is_in_flight("crdownload"));
    assert!(!is_in_flight("informe.pdf"));
    assert!(!is_in_flight("informe.crdownload.pdf"));
    assert!(!is_in_flight("informe.CRDOWNLOAD"));
    assert!(!is_in_flight(""));
}

#[test]
fn listing_with_and_without_markers() {
    let none: Vec<String> = vec!["a.pdf".to_string(), "b.txt".to_string()];
    let some: Vec<String> = vec!["a.pdf".to_string(), "b.pdf.crdownload".to_string()];
    assert!(!any_in_flight(&none));
    assert!(any_in_flight(&some));
    assert!(!any_in_flight(&Vec::new()));
}
