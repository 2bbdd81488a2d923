use gsi::batch::{BatchOrchestrator, CloneJob, CloneStatus, Cloner};
use gsi::planner::{OutputLocationPlanner, Timestamp};
use gsi::roster::RosterStore;
use gsi::student::Student;

struct FakeCloner {
    calls: Vec<String>,
    fail_addresses: Vec<String>,
}

impl FakeCloner {
    fn new() -> FakeCloner {
        FakeCloner { calls: Vec::new(), fail_addresses: Vec::new() }
    }
}

impl Cloner for FakeCloner {
    fn execute(&mut self, job: &CloneJob) -> CloneStatus {
        self.calls.push(job.remote_address.clone());
        if self.fail_addresses.contains(&job.remote_address) {
            CloneStatus { success: false, diagnostic: Some("simulated failure".to_string()) }
        } else {
            CloneStatus { success: true, diagnostic: None }
        }
    }
}

fn roster_of(names: &[(&str, &str)]) -> Vec<Student> {
    names
        .iter()
        .map(|(n, u)| Student { name: n.to_string(), github_username: u.to_string() })
        .collect()
}

#[test]
fn run_yields_one_outcome_per_student() {
    let students = roster_of(&[("A", "a"), ("B", "b"), ("C", "c"), ("D", "d"), ("E", "e")]);
    let mut cloner = FakeCloner::new();
    let report = BatchOrchestrator::run(&mut cloner, "org", "hw", "dest", &students);
    assert_eq!(report.outcomes.len(), 5);
    assert_eq!(cloner.calls.len(), 5);
    assert_eq!(report.failures(), 0);
}

#[test]
fn run_isolates_failures_and_continues() {
    let students = roster_of(&[("A", "a"), ("B", "b"), ("C", "c"), ("D", "d"), ("E", "e")]);
    let mut cloner = FakeCloner::new();
    cloner.fail_addresses.push("git@github.com:org/hw-b.git".to_string());
    cloner.fail_addresses.push("git@github.com:org/hw-d.git".to_string());
    let report = BatchOrchestrator::run(&mut cloner, "org", "hw", "dest", &students);
    assert_eq!(report.outcomes.len(), 5);
    assert_eq!(cloner.calls.len(), 5);
    assert_eq!(report.failures(), 2);
    let failed: Vec<&str> = report
        .outcomes
        .iter()
        .filter(|o| !o.success)
        .map(|o| o.student.github_username.as_str())
        .collect();
    assert_eq!(failed, vec!["b", "d"]);
}

#[test]
fn run_records_each_student_under_its_identity() {
    let students = roster_of(&[("A", "a"), ("B", "b")]);
    let mut cloner = FakeCloner::new();
    cloner.fail_addresses.push("git@github.com:org/hw-a.git".to_string());
    let report = BatchOrchestrator::run(&mut cloner, "org", "hw", "dest", &students);
    assert_eq!(report.outcomes[0].student.github_username, "a");
    assert!(!report.outcomes[0].success);
    assert_eq!(report.outcomes[0].diagnostic.as_deref(), Some("simulated failure"));
    assert_eq!(report.outcomes[1].student.github_username, "b");
    assert!(report.outcomes[1].success);
    assert_eq!(report.outcomes[1].diagnostic, None);
}

#[test]
fn end_to_end_two_students() {
    let text = "name,github_username\nAlice,alice\nBob,bob\n";
    let students = RosterStore::load(Some(text)).unwrap();
    assert_eq!(students.len(), 2);

    let t = Timestamp { year: 2024, month: 9, day: 3, hour: 7, minute: 5, second: 9 };
    let dir = OutputLocationPlanner::plan("hw1", "subs", &t);
    assert_eq!(dir, "subs/hw1D2024-09-03T07:05:09");

    let mut cloner = FakeCloner::new();
    let report = BatchOrchestrator::run(&mut cloner, "cs101", "hw1", &dir, &students);
    assert_eq!(report.outcomes.len(), 2);
    assert_eq!(cloner.calls.len(), 2);
    assert!(cloner.calls.contains(&"git@github.com:cs101/hw1-alice.git".to_string()));
    assert!(cloner.calls.contains(&"git@github.com:cs101/hw1-bob.git".to_string()));
}
