use gsi::planner::{OutputLocationPlanner, Timestamp};

#[test]
fn plan_composes_exact_path() {
    let t = Timestamp { year: 2024, month: 9, day: 3, hour: 7, minute: 5, second: 9 };
    let p = OutputLocationPlanner::plan("hw1", "subs", &t);
    assert_eq!(p, "subs/hw1D2024-09-03T07:05:09");
}

#[test]
fn plan_zero_pads_every_field() {
    let t = Timestamp { year: 5, month: 12, day: 31, hour: 23, minute: 59, second: 58 };
    let p = OutputLocationPlanner::plan("hw1", "out", &t);
    assert_eq!(p, "out/hw1D0005-12-31T23:59:58");
}

#[test]
fn plan_is_deterministic_within_one_timestamp() {
    let t = Timestamp { year: 2024, month: 1, day: 2, hour: 3, minute: 4, second: 5 };
    let first = OutputLocationPlanner::plan("lab", "base", &t);
    let second = OutputLocationPlanner::plan("lab", "base", &t);
    assert_eq!(first, second);
}

#[test]
fn now_yields_calendar_fields() {
    let t = Timestamp::now();
    assert!(1 <= t.month && t.month <= 12);
    assert!(1 <= t.day && t.day <= 31);
    assert!(t.hour < 24);
    assert!(t.minute < 60);
    assert!(t.second < 60);
}
