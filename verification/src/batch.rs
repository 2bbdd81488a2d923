//! Sequences one batch: derives each student's clone job, invokes the
//! clone capability once per student, and aggregates the outcomes.

use vstd::prelude::*;
use crate::address::RepositoryAddressBuilder;
use crate::student::Student;

verus! {

/// One clone invocation's inputs: derived per student immediately before
/// the clone, discarded after.
pub struct CloneJob {
    pub remote_address: String,
    pub destination_dir: String,
}

/// What one clone invocation reported: a single success/failure signal and
/// whatever diagnostic text was available. Authentication, missing
/// repository and transport failures are not distinguished.
pub struct CloneStatus {
    pub success: bool,
    pub diagnostic: Option<String>,
}

/// One student's result within a batch.
pub struct CloneOutcome {
    pub student: Student,
    pub success: bool,
    pub diagnostic: Option<String>,
}

/// The capability that performs one clone. The real implementation invokes
/// the external version-control client as a subprocess; tests substitute a
/// fake. Nothing is assumed of an implementation: the orchestrator's
/// guarantees hold whatever `execute` returns.
pub trait Cloner {
    /// Attempts one clone of `job.remote_address` into
    /// `job.destination_dir`.
    fn execute(&mut self, job: &CloneJob) -> CloneStatus;
}

/// How many of the outcomes are failures.
pub open spec fn failure_count(s: Seq<CloneOutcome>) -> int
    decreases s.len(),
{
    if s.len() == 0 {
        0
    } else {
        failure_count(s.drop_last()) + if s.last().success {
            0int
        } else {
            1int
        }
    }
}

/// A batch never counts more failures than it has outcomes.
pub proof fn lemma_failure_count_bounds(s: Seq<CloneOutcome>)
    ensures
        0 <= failure_count(s) <= s.len(),
    decreases s.len(),
{
    if s.len() > 0 {
        lemma_failure_count_bounds(s.drop_last());
    }
}

/// The terminal state of one batch: one outcome per roster entry.
pub struct BatchReport {
    pub outcomes: Vec<CloneOutcome>,
}

impl BatchReport {
    /// How many students' clones failed; zero exactly on full success.
    pub fn failures(&self) -> (n: usize)
        ensures
            n == failure_count(self.outcomes@),
    {
        proof {
            lemma_failure_count_bounds(self.outcomes@);
        }
        let mut n: usize = 0;
        let mut i: usize = 0;
        while i < self.outcomes.len()
            invariant
                i <= self.outcomes@.len(),
                n == failure_count(self.outcomes@.take(i as int)),
                n <= i,
            decreases self.outcomes@.len() - i,
        {
            if !self.outcomes[i].success {
                n = n + 1;
            }
            i = i + 1;
            proof {
                assert(self.outcomes@.take(i as int).drop_last() =~= self.outcomes@.take(
                    i as int - 1,
                ));
            }
        }
        proof {
            assert(self.outcomes@.take(self.outcomes@.len() as int) =~= self.outcomes@);
        }
        n
    }
}

/// Sequences a batch across a full roster.
pub struct BatchOrchestrator {

}

impl BatchOrchestrator {
    /// Runs one batch: for each student in roster order, derives the
    /// repository address, invokes the cloner once, and records the outcome
    /// under that student's identity. Every student yields exactly one
    /// outcome; a failed clone is recorded and never stops the remaining
    /// students' jobs.
    pub fn run<C: Cloner>(
        cloner: &mut C,
        org: &str,
        assignment_name: &str,
        destination_dir: &str,
        students: &Vec<Student>,
    ) -> (report: BatchReport)
        ensures
            report.outcomes@.len() == students@.len(),
            forall|i: int|
                0 <= i < students@.len() ==> report.outcomes@[i].student@ == students@[i]@,
    {
        let mut outcomes: Vec<CloneOutcome> = Vec::new();
        let mut idx: usize = 0;
        while idx < students.len()
            invariant
                idx <= students@.len(),
                outcomes@.len() == idx,
                forall|i: int| 0 <= i < idx ==> outcomes@[i].student@ == students@[i]@,
            decreases students@.len() - idx,
        {
            let student = &students[idx];
            let address = RepositoryAddressBuilder::build(org, assignment_name, student);
            let job = CloneJob {
                remote_address: address,
                destination_dir: destination_dir.to_owned(),
            };
            let status = cloner.execute(&job);
            outcomes.push(
                CloneOutcome {
                    student: student.clone(),
                    success: status.success,
                    diagnostic: status.diagnostic,
                },
            );
            idx = idx + 1;
        }
        BatchReport { outcomes }
    }
}

} // verus!
