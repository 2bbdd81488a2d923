//! The student record: one roster entry, identified by the full
//! name/username pair.

use vstd::prelude::*;

verus! {

/// One roster entry. Identity is the full tuple: two entries are the same
/// student exactly when both the name and the username agree.
#[derive(Debug)]
pub struct Student {
    pub name: String,
    pub github_username: String,
}

/// The mathematical value of a [`Student`]: both fields as character
/// sequences.
pub struct StudentView {
    pub name: Seq<char>,
    pub github_username: Seq<char>,
}

impl View for Student {
    type V = StudentView;

    open spec fn view(&self) -> StudentView {
        StudentView { name: self.name@, github_username: self.github_username@ }
    }
}

impl Clone for Student {
    fn clone(&self) -> (r: Self)
        ensures
            r@ == self@,
    {
        Student { name: self.name.clone(), github_username: self.github_username.clone() }
    }
}

impl PartialEq for Student {
    fn eq(&self, other: &Student) -> (r: bool)
    {
        self.name == other.name && self.github_username == other.github_username
    }
}

impl Eq for Student {

}

impl vstd::std_specs::cmp::PartialEqSpecImpl for Student {
    open spec fn obeys_eq_spec() -> bool {
        true
    }

    open spec fn eq_spec(&self, other: &Student) -> bool {
        self@ == other@
    }
}

} // verus!
