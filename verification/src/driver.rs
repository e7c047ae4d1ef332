//! Driver status: whether one of the running processes carries a wanted
//! name, whatever the case of either.

use vstd::prelude::*;
use vstd::string::*;
use crate::text::{contains, lowercase, lowercase_of, occurs_in};

verus! {

/// A process matches if the wanted name, in lowercase, occurs in its own
/// name in lowercase.
pub open spec fn name_matches(process: Seq<char>, wanted: Seq<char>) -> bool {
    occurs_in(lowercase_of(wanted), lowercase_of(process))
}

/// Some process among `processes` matches.
pub open spec fn any_matches(processes: Seq<Seq<char>>, wanted: Seq<char>) -> bool {
    exists|i: int| 0 <= i < processes.len() && name_matches(#[trigger] processes[i], wanted)
}

/// Tells whether a wanted name occurs in a process name, both already in
/// lowercase.
pub fn lowered_name_matches(lowered_process: &str, lowered_wanted: &str) -> (r: bool)
    ensures
        r == occurs_in(lowered_wanted@, lowered_process@),
{
    contains(lowered_process, lowered_wanted)
}

/// Tells whether the process carries the wanted name.
pub fn process_matches(process: &str, wanted: &str) -> (r: bool)
    ensures
        r == name_matches(process@, wanted@),
{
    let lowered_process = lowercase(process);
    let lowered_wanted = lowercase(wanted);
    lowered_name_matches(lowered_process.as_str(), lowered_wanted.as_str())
}

/// Tells whether a driver is running, given the names of the running
/// processes.
pub fn check_driver_status(processes: &Vec<String>, name: &str) -> (running: bool)
    ensures
        running == any_matches(processes.deep_view(), name@),
{
    let mut i: usize = 0;
    while i < processes.len()
        invariant
            i <= processes@.len(),
            forall|j: int| 0 <= j < i ==> !name_matches(#[trigger] processes.deep_view()[j], name@),
        decreases processes@.len() - i,
    {
        assert(processes.deep_view()[i as int] == processes@[i as int]@);
        if process_matches(processes[i].as_str(), name) {
            return true;
        }
        i = i + 1;
    }
    false
}

} // verus!
