//! Findings that oracles report.
use vstd::prelude::*;

verus! {

/// One reported bug: its class name, a stable identifier, a readable
/// description and the name of the contract it concerns.
pub struct BugResult {
    pub name: String,
    pub bug_id: u64,
    pub description: String,
    pub target_name: Option<String>,
}

/// Whether `f` holds exactly the given fields.
pub open spec fn spec_finding_is(
    f: BugResult,
    name: Seq<char>,
    bug_id: u64,
    description: Seq<char>,
    target_name: Seq<char>,
) -> bool {
    &&& f.name@ == name
    &&& f.bug_id == bug_id
    &&& f.description@ == description
    &&& f.target_name.is_some()
    &&& f.target_name.unwrap()@ == target_name
}

} // verus!
