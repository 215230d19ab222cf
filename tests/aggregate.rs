use pickaxe::result;
use pickaxe::worker::WorkResult;

fn ok(code: u16, ms: u64) -> WorkResult {
    WorkResult::Success { status_code: code, duration: ms, url: "http://localhost/".to_string() }
}

#[test]
fn bucket_keeps_whole_seconds_and_leading_digit() {
    assert_eq!(result::Result::truncate_duration(1234), (1, 100));
    assert_eq!(result::Result::truncate_duration(1876), (1, 100));
    assert_eq!(result::Result::truncate_duration(25000), (25, 200));
    assert_eq!(result::Result::truncate_duration(999), (0, 900));
    assert_eq!(result::Result::truncate_duration(57), (0, 500));
    assert_eq!(result::Result::truncate_duration(3), (0, 300));
    assert_eq!(result::Result::truncate_duration(0), (0, 0));
}

#[test]
fn bucket_of_a_bucket_is_itself() {
    for ms in [0u64, 7, 42, 999, 1100, 1234, 25000, 98765, 123456789] {
        let (s, m) = result::Result::truncate_duration(ms);
        assert_eq!(result::Result::truncate_duration(s * 1000 + m), (s, m));
    }
}

#[test]
fn bucket_of_largest_duration() {
    assert_eq!(
        result::Result::truncate_duration(u64::MAX),
        (u64::MAX / 1000, 100)
    );
}

#[test]
fn new_result_is_empty() {
    let r = result::new();
    assert_eq!(r.total(), 0);
    assert_eq!(r.url_str(), "");
    assert!(r.status_code_summary.is_empty());
    assert!(r.duration_summary.is_empty());
}

#[test]
fn each_kind_of_outcome_counts_once() {
    let mut r = result::new();
    r.work_result_handler(ok(200, 12));
    r.work_result_handler(WorkResult::Fail);
    r.work_result_handler(WorkResult::TimeOut);
    r.work_result_handler(WorkResult::TimeOut);
    assert_eq!(r.success, 1);
    assert_eq!(r.failed, 1);
    assert_eq!(r.timed_out, 2);
    assert_eq!(r.total(), 4);
    assert_eq!(r.total(), r.success + r.failed + r.timed_out);
}

#[test]
fn histograms_count_each_success_once() {
    let mut r = result::new();
    r.work_result_handler(ok(200, 1234));
    r.work_result_handler(ok(200, 1876));
    r.work_result_handler(ok(404, 45));
    r.work_result_handler(ok(500, 2500));
    r.work_result_handler(WorkResult::Fail);
    assert_eq!(r.status_code_summary.get(&200), Some(&2));
    assert_eq!(r.status_code_summary.get(&404), Some(&1));
    assert_eq!(r.status_code_summary.get(&500), Some(&1));
    assert_eq!(r.duration_summary.get(&(1, 100)), Some(&2));
    assert_eq!(r.duration_summary.get(&(0, 400)), Some(&1));
    assert_eq!(r.duration_summary.get(&(2, 200)), Some(&1));
    assert_eq!(r.status_code_summary.values().sum::<usize>(), r.success);
    assert_eq!(r.duration_summary.values().sum::<usize>(), r.success);
}

#[test]
fn error_statuses_are_successes() {
    let mut r = result::new();
    r.work_result_handler(ok(503, 10));
    assert_eq!(r.success, 1);
    assert_eq!(r.failed, 0);
}

#[test]
fn last_answering_url_is_kept() {
    let mut r = result::new();
    r.work_result_handler(WorkResult::Success {
        status_code: 200,
        duration: 5,
        url: "http://a.example/".to_string(),
    });
    r.work_result_handler(WorkResult::Success {
        status_code: 200,
        duration: 5,
        url: "http://b.example/".to_string(),
    });
    r.work_result_handler(WorkResult::Fail);
    assert_eq!(r.url_str(), "http://b.example/");
}

#[test]
fn fast_target_gives_only_successes() {
    let mut r = result::new();
    for _ in 0..25 {
        r.work_result_handler(ok(200, 0));
    }
    assert_eq!(r.failed, 0);
    assert_eq!(r.timed_out, 0);
    assert!(r.success > 0);
    assert_eq!(r.status_code_summary.len(), 1);
    assert_eq!(r.status_code_summary.get(&200), Some(&r.success));
    assert_eq!(r.duration_summary.get(&(0, 0)), Some(&25));
}

#[test]
fn silent_target_gives_only_timeouts() {
    let mut r = result::new();
    for _ in 0..7 {
        r.work_result_handler(WorkResult::TimeOut);
    }
    assert_eq!(r.success, 0);
    assert_eq!(r.failed, 0);
    assert_eq!(r.timed_out, r.total());
    assert_eq!(r.url_str(), "");
}
