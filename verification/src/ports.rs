//! The candidate port set and the resolution of a target selector into an
//! ordered attempt plan.

use vstd::prelude::*;

use crate::text::str_eq;

verus! {

/// The fixed candidate ports, as the decimal text used in the loopback
/// address, in ascending order.  Every delivery call scans within this set
/// unless the caller names one concrete port.
pub open spec fn candidate_ports() -> Seq<Seq<char>> {
    seq!["8392"@, "8393"@, "8394"@, "8395"@, "8396"@, "8397"@]
}

/// The selector text that requests a broadcast to every candidate port.
pub open spec fn is_broadcast(selector: Seq<char>) -> bool {
    selector == "ALL"@
}

/// The payload sentinel meaning "probe only": connect, send nothing.
pub open spec fn is_probe(code: Seq<char>) -> bool {
    code == "NULL"@
}

/// The ordered list of ports one call attempts: the full candidate set for a
/// broadcast selector, otherwise the selector itself alone.
pub open spec fn plan_of(selector: Seq<char>) -> Seq<Seq<char>> {
    if is_broadcast(selector) {
        candidate_ports()
    } else {
        seq![selector]
    }
}

/// Builds the candidate port list in its fixed order.
pub fn candidate_port_list() -> (r: Vec<String>)
    ensures
        r.deep_view() == candidate_ports(),
{
    let mut r: Vec<String> = Vec::new();
    r.push(String::from_str("8392"));
    r.push(String::from_str("8393"));
    r.push(String::from_str("8394"));
    r.push(String::from_str("8395"));
    r.push(String::from_str("8396"));
    r.push(String::from_str("8397"));
    proof {
        assert(r.deep_view() =~= candidate_ports());
    }
    r
}

/// Resolves a selector into the ordered attempt plan.
pub fn port_plan(selector: &str) -> (r: Vec<String>)
    ensures
        r.deep_view() == plan_of(selector@),
{
    if str_eq(selector, "ALL") {
        candidate_port_list()
    } else {
        let mut r: Vec<String> = Vec::new();
        r.push(String::from_str(selector));
        proof {
            assert(r.deep_view() =~= plan_of(selector@));
        }
        r
    }
}

} // verus!
