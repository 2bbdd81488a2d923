//! Bulk-fetches per-student git repositories for a classroom assignment.
//!
//! Given an organization, an assignment name, a base directory and a roster
//! of students, the library derives each student's repository address, plans
//! a timestamped output directory, and drives one clone attempt per student,
//! isolating and reporting individual failures.

pub mod address;
pub mod batch;
pub mod config;
pub mod planner;
pub mod roster;
pub mod student;
