//! Derives the remote repository address for one student.

use vstd::prelude::*;
use vstd::string::StringExecFns;
use crate::student::Student;

verus! {

/// SSH endpoint of the hosting service.
pub const GITHUB_HOST: &'static str = "git@github.com";

/// The address a clone of `assignment`'s repository for `username` in `org`
/// is fetched from: `<host>:<org>/<assignment>-<username>.git`.
pub open spec fn address_seq(org: Seq<char>, assignment: Seq<char>, username: Seq<char>) -> Seq<char> {
    GITHUB_HOST@ + ":"@ + org + "/"@ + assignment + "-"@ + username + ".git"@
}

/// Derives the remote repository address for one student: a pure function
/// of organization, assignment name and username, with no failure mode.
pub struct RepositoryAddressBuilder {

}

impl RepositoryAddressBuilder {
    /// Produces `<host>:<org>/<assignment>-<username>.git` exactly; no
    /// normalization or escaping is performed on any part.
    pub fn build(org: &str, assignment_name: &str, student: &Student) -> (r: String)
        ensures
            r@ == address_seq(org@, assignment_name@, student.github_username@),
    {
        let mut r: String = GITHUB_HOST.to_owned();
        r.append(":");
        r.append(org);
        r.append("/");
        r.append(assignment_name);
        r.append("-");
        r.append(student.github_username.as_str());
        r.append(".git");
        r
    }
}

} // verus!
