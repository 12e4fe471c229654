//! Proved laws of the delivery resolver: how the early-exit rule, the
//! full-scan rule and the last-error rule shape the reported status.

use vstd::prelude::*;

use crate::ports::{candidate_ports, is_broadcast, plan_of};
use crate::resolver::{
    connect_error_text, execute_status, last_error_upto, success_ports, success_ports_upto,
    AttemptOutcome,
};

verus! {

/// Attempts with no accepted outcome between `m` and `n` contribute no
/// success port: the fold up to `n` equals the fold up to `m`.
proof fn lemma_success_ports_segment(
    plan: Seq<Seq<char>>,
    outs: Seq<AttemptOutcome>,
    m: int,
    n: int,
)
    requires
        0 <= m <= n,
        forall|k: int| m <= k < n ==> !(outs[k] is Accepted),
    ensures
        success_ports_upto(plan, outs, n) == success_ports_upto(plan, outs, m),
    decreases n - m,
{
    if m < n {
        lemma_success_ports_segment(plan, outs, m, n - 1);
    }
}

/// A single-port call attempts exactly one port — the selector itself — and
/// when that attempt is accepted, the report names exactly that port.
pub proof fn lemma_single_port_accepted(port: Seq<char>, outs: Seq<AttemptOutcome>)
    requires
        !is_broadcast(port),
        outs.len() == plan_of(port).len(),
        outs[0] is Accepted,
    ensures
        plan_of(port).len() == 1,
        execute_status(plan_of(port), outs) == "Successfully connected to Opiumware on port: "@
            + port,
{
    let plan = plan_of(port);
    assert(success_ports_upto(plan, outs, 0) == Seq::<Seq<char>>::empty());
    assert(success_ports(plan, outs) =~= seq![port]);
}

/// A single-port call attempts exactly one port, so no other candidate port
/// is touched; when its one connection attempt fails, the call reports
/// failure carrying that port's connection error.
pub proof fn lemma_single_port_early_exit(port: Seq<char>, outs: Seq<AttemptOutcome>, err: String)
    requires
        !is_broadcast(port),
        outs.len() == plan_of(port).len(),
        outs[0] == AttemptOutcome::ConnectFailed(err),
    ensures
        plan_of(port).len() == 1,
        plan_of(port)[0] == port,
        execute_status(plan_of(port), outs) == "Failed to connect on all ports. Last error: "@
            + connect_error_text(port, err@),
{
    let plan = plan_of(port);
    assert(success_ports_upto(plan, outs, 0) == Seq::<Seq<char>>::empty());
    assert(success_ports(plan, outs).len() == 0);
    assert(last_error_upto(plan, outs, 0) == Seq::<char>::empty());
}

/// A broadcast call's plan is the whole candidate set: all six ports are
/// attempted, in their fixed ascending order, regardless of earlier results.
pub proof fn lemma_broadcast_full_scan(selector: Seq<char>)
    requires
        is_broadcast(selector),
    ensures
        plan_of(selector) == candidate_ports(),
        plan_of(selector).len() == 6,
{
}

/// Under a broadcast where exactly two attempts are accepted, the report
/// lists exactly those two ports, in candidate (ascending) order.
pub proof fn lemma_broadcast_two_successes(outs: Seq<AttemptOutcome>, i: int, j: int)
    requires
        outs.len() == 6,
        0 <= i < j < 6,
        outs[i] is Accepted,
        outs[j] is Accepted,
        forall|k: int| 0 <= k < 6 && k != i && k != j ==> !(outs[k] is Accepted),
    ensures
        success_ports(candidate_ports(), outs) == seq![
            candidate_ports()[i],
            candidate_ports()[j],
        ],
        execute_status(candidate_ports(), outs) == "Successfully executed on ports: "@
            + candidate_ports()[i] + ", "@ + candidate_ports()[j],
{
    let plan = candidate_ports();
    lemma_success_ports_segment(plan, outs, 0, i);
    assert(success_ports_upto(plan, outs, 0) == Seq::<Seq<char>>::empty());
    assert(success_ports_upto(plan, outs, i + 1) =~= seq![plan[i]]);
    lemma_success_ports_segment(plan, outs, i + 1, j);
    assert(success_ports_upto(plan, outs, j + 1) =~= seq![plan[i], plan[j]]);
    lemma_success_ports_segment(plan, outs, j + 1, 6);
    let s = success_ports(plan, outs);
    assert(s == seq![plan[i], plan[j]]);
    assert(s.drop_last() =~= seq![plan[i]]);
    assert(crate::resolver::joined_ports(s.drop_last()) == plan[i]);
    assert(crate::resolver::joined_ports(s) == plan[i] + ", "@ + plan[j]);
}

/// When no attempt is accepted, the call reports failure carrying the error
/// of the last attempted port — earlier errors are discarded.
pub proof fn lemma_no_success_last_error(
    plan: Seq<Seq<char>>,
    outs: Seq<AttemptOutcome>,
    err: String,
)
    requires
        plan.len() == outs.len(),
        outs.len() > 0,
        forall|k: int| 0 <= k < outs.len() ==> !(outs[k] is Accepted),
        outs.last() == AttemptOutcome::ConnectFailed(err),
    ensures
        execute_status(plan, outs) == "Failed to connect on all ports. Last error: "@
            + connect_error_text(plan.last(), err@),
{
    lemma_success_ports_segment(plan, outs, 0, outs.len() as int);
    assert(success_ports_upto(plan, outs, 0) == Seq::<Seq<char>>::empty());
    assert(success_ports(plan, outs).len() == 0);
}

/// Delivery is stateless: the reported status is a function of the call's
/// inputs alone, so two calls with the same selector and the same observed
/// outcomes report the same status.
pub proof fn lemma_execute_stateless(
    port: Seq<char>,
    outs: Seq<AttemptOutcome>,
    r1: Seq<char>,
    r2: Seq<char>,
)
    requires
        r1 == execute_status(plan_of(port), outs),
        r2 == execute_status(plan_of(port), outs),
    ensures
        r1 == r2,
{
}

} // verus!
