//! The command line: which argument may name the file to start with.

use vstd::prelude::*;
use vstd::string::*;

verus! {

/// The candidate path among the process's arguments: the first one after the
/// program's name, if there is one.
pub open spec fn candidate_of(args: Seq<Seq<char>>) -> Option<Seq<char>> {
    if args.len() > 1 {
        Some(args[1])
    } else {
        None
    }
}

/// Picks the candidate path out of the process's arguments. Later arguments
/// are ignored.
pub fn startup_candidate(args: &Vec<String>) -> (candidate: Option<String>)
    ensures
        candidate.deep_view() == candidate_of(args.deep_view()),
{
    if args.len() > 1 {
        Some(args[1].clone())
    } else {
        None
    }
}

} // verus!
