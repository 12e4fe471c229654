//! The delivery resolver: folds the per-port attempt outcomes of one call
//! into the aggregate result and renders the caller-facing status line.
//!
//! The library itself opens no connections.  The caller attempts each port of
//! the plan in order over its own transport and hands back one
//! [`AttemptOutcome`] per attempted port; everything from there on — which
//! ports count as accepted, which error survives, and the exact report text —
//! is decided and proved here.

use vstd::prelude::*;

use crate::ports::{candidate_ports, is_probe, plan_of};
use crate::text::concat_strs;

verus! {

/// The outcome of one delivery attempt against one port.
pub enum AttemptOutcome {
    /// The connection could not be opened; carries the transport's error text.
    ConnectFailed(String),
    /// The port accepted: the connection opened and, for a payload-bearing
    /// call, the write succeeded; for a probe the connection alone suffices.
    Accepted,
    /// The connection opened but the payload could not be compressed or
    /// written; carries the error text.
    SendFailed(String),
}

/// The aggregate result of one delivery call.
pub enum Outcome {
    /// At least one port accepted; the accepting ports in attempt order.
    Success { ports: Vec<String> },
    /// No port accepted; the error text of the last failed attempt.
    Failure { last_error: String },
}

/// Report text recorded when a connection to `port` fails with error `e`.
pub open spec fn connect_error_text(port: Seq<char>, e: Seq<char>) -> Seq<char> {
    "Failed to connect to port "@ + port + ": "@ + e
}

/// Report text recorded when sending the payload fails with error `e`.
pub open spec fn send_error_text(e: Seq<char>) -> Seq<char> {
    "Error sending script: "@ + e
}

/// The ports among the first `n` attempts that accepted, in attempt order.
pub open spec fn success_ports_upto(
    plan: Seq<Seq<char>>,
    outs: Seq<AttemptOutcome>,
    n: int,
) -> Seq<Seq<char>>
    decreases n,
{
    if n <= 0 {
        Seq::empty()
    } else {
        let rest = success_ports_upto(plan, outs, n - 1);
        if outs[n - 1] is Accepted {
            rest.push(plan[n - 1])
        } else {
            rest
        }
    }
}

/// The ports that accepted, in attempt order.
pub open spec fn success_ports(plan: Seq<Seq<char>>, outs: Seq<AttemptOutcome>) -> Seq<Seq<char>> {
    success_ports_upto(plan, outs, outs.len() as int)
}

/// The error text retained after the first `n` attempts: the report of the
/// most recent failed attempt, and empty while none has failed.
pub open spec fn last_error_upto(
    plan: Seq<Seq<char>>,
    outs: Seq<AttemptOutcome>,
    n: int,
) -> Seq<char>
    decreases n,
{
    if n <= 0 {
        Seq::empty()
    } else {
        match outs[n - 1] {
            AttemptOutcome::Accepted => last_error_upto(plan, outs, n - 1),
            AttemptOutcome::ConnectFailed(e) => connect_error_text(plan[n - 1], e@),
            AttemptOutcome::SendFailed(e) => send_error_text(e@),
        }
    }
}

/// The error text retained after all attempts.
pub open spec fn last_error_text(plan: Seq<Seq<char>>, outs: Seq<AttemptOutcome>) -> Seq<char> {
    last_error_upto(plan, outs, outs.len() as int)
}

/// The comma-joined text of a port list.
pub open spec fn joined_ports(ports: Seq<Seq<char>>) -> Seq<char>
    decreases ports.len(),
{
    if ports.len() == 0 {
        Seq::empty()
    } else if ports.len() == 1 {
        ports[0]
    } else {
        joined_ports(ports.drop_last()) + ", "@ + ports.last()
    }
}

/// The status text one delivery call reports, as a function of the attempt
/// plan and the per-port outcomes.
pub open spec fn execute_status(plan: Seq<Seq<char>>, outs: Seq<AttemptOutcome>) -> Seq<char> {
    let s = success_ports(plan, outs);
    if s.len() == 1 {
        "Successfully connected to Opiumware on port: "@ + s[0]
    } else if s.len() > 1 {
        "Successfully executed on ports: "@ + joined_ports(s)
    } else {
        "Failed to connect on all ports. Last error: "@ + last_error_text(plan, outs)
    }
}

/// A complete attach-scan trace: one reachability result per candidate port
/// probed in order, where the scan stops at the first reachable port and
/// otherwise runs through all six candidates.
pub open spec fn attach_complete(probes: Seq<bool>) -> bool {
    &&& probes.len() <= 6
    &&& forall|i: int| 0 <= i < probes.len() - 1 ==> !probes[i]
    &&& probes.len() < 6 ==> probes.len() > 0 && probes.last()
}

/// The status text an attach scan reports.
pub open spec fn attach_status(probes: Seq<bool>) -> Seq<char> {
    if probes.len() > 0 && probes.last() {
        "Successfully attached on port "@ + candidate_ports()[probes.len() - 1]
    } else {
        "Failed to attach: no Opiumware instance found on ports 8392-8397"@
    }
}

/// Builds the report text for a failed connection attempt.
fn connect_error_string(port: &String, e: &String) -> (r: String)
    ensures
        r@ == connect_error_text(port@, e@),
{
    let mut r = String::from_str("Failed to connect to port ");
    r.append(port.as_str());
    r.append(": ");
    r.append(e.as_str());
    r
}

/// Builds the report text for a failed transmission.
fn send_error_string(e: &String) -> (r: String)
    ensures
        r@ == send_error_text(e@),
{
    concat_strs("Error sending script: ", e.as_str())
}

/// Folds the per-port outcomes of one call into the aggregate result:
/// success with the accepting ports in attempt order when any port accepted,
/// otherwise failure with the last recorded error.
pub fn fold_outcomes(plan: &Vec<String>, outcomes: &Vec<AttemptOutcome>) -> (r: Outcome)
    requires
        plan@.len() == outcomes@.len(),
    ensures
        ({
            let s = success_ports(plan.deep_view(), outcomes@);
            match r {
                Outcome::Success { ports } => s.len() > 0 && ports.deep_view() == s,
                Outcome::Failure { last_error } => s.len() == 0 && last_error@
                    == last_error_text(plan.deep_view(), outcomes@),
            }
        }),
{
    let ghost splan = plan.deep_view();
    let ghost souts = outcomes@;
    let n = outcomes.len();
    let mut successes: Vec<String> = Vec::new();
    let mut last_error = String::new();
    let mut i: usize = 0;
    while i < n
        invariant
            n == souts.len() == splan.len(),
            i <= n,
            splan == plan.deep_view(),
            souts == outcomes@,
            successes.deep_view() == success_ports_upto(splan, souts, i as int),
            last_error@ == last_error_upto(splan, souts, i as int),
        decreases n - i,
    {
        match &outcomes[i] {
            AttemptOutcome::Accepted => {
                successes.push(plan[i].clone());
                proof {
                    assert(successes.deep_view() =~= success_ports_upto(
                        splan,
                        souts,
                        i + 1 as int,
                    ));
                }
            },
            AttemptOutcome::ConnectFailed(e) => {
                last_error = connect_error_string(&plan[i], e);
            },
            AttemptOutcome::SendFailed(e) => {
                last_error = send_error_string(e);
            },
        }
        i = i + 1;
    }
    if successes.len() > 0 {
        Outcome::Success { ports: successes }
    } else {
        Outcome::Failure { last_error }
    }
}

/// Renders the aggregate result as the caller-facing status line: a lone
/// accepting port is named directly, several are comma-joined, and a failure
/// reports the last recorded error.
pub fn render_status(outcome: &Outcome) -> (r: String)
    ensures
        ({
            match outcome {
                Outcome::Success { ports } => {
                    let s = ports.deep_view();
                    if s.len() == 1 {
                        r@ == "Successfully connected to Opiumware on port: "@ + s[0]
                    } else {
                        r@ == "Successfully executed on ports: "@ + joined_ports(s)
                    }
                },
                Outcome::Failure { last_error } => r@ == "Failed to connect on all ports. Last error: "@
                    + last_error@,
            }
        }),
{
    match outcome {
        Outcome::Success { ports } => {
            if ports.len() == 1 {
                concat_strs("Successfully connected to Opiumware on port: ", ports[0].as_str())
            } else {
                let joined = join_port_list(ports);
                concat_strs("Successfully executed on ports: ", joined.as_str())
            }
        },
        Outcome::Failure { last_error } => {
            concat_strs("Failed to connect on all ports. Last error: ", last_error.as_str())
        },
    }
}

/// Comma-joins a port list.
fn join_port_list(ports: &Vec<String>) -> (r: String)
    ensures
        r@ == joined_ports(ports.deep_view()),
{
    let ghost sports = ports.deep_view();
    let n = ports.len();
    let mut r = String::new();
    let mut i: usize = 0;
    while i < n
        invariant
            n == sports.len(),
            i <= n,
            sports == ports.deep_view(),
            r@ == joined_ports(sports.take(i as int)),
        decreases n - i,
    {
        if i > 0 {
            r.append(", ");
        }
        r.append(ports[i].as_str());
        proof {
            assert(sports.take(i + 1 as int).drop_last() =~= sports.take(i as int));
            assert(sports.take(i + 1 as int).last() == sports[i as int]);
        }
        i = i + 1;
    }
    proof {
        assert(sports.take(n as int) =~= sports);
    }
    r
}

/// Resolves one delivery call: the selector's attempt plan is folded with the
/// per-port outcomes the caller's transport observed, and the status line is
/// returned.  A probe call (`code` the probe sentinel) sends nothing, so none
/// of its outcomes can be a send failure.
pub fn opiumware_execute(code: &str, port: &str, outcomes: &Vec<AttemptOutcome>) -> (r: String)
    requires
        outcomes@.len() == plan_of(port@).len(),
        is_probe(code@) ==> forall|i: int|
            0 <= i < outcomes@.len() ==> !(outcomes@[i] is SendFailed),
    ensures
        r@ == execute_status(plan_of(port@), outcomes@),
{
    let plan = crate::ports::port_plan(port);
    let folded = fold_outcomes(&plan, outcomes);
    render_status(&folded)
}

/// Reports whether an attach scan is finished: it ends at the first reachable
/// candidate port, or after all six candidates proved unreachable.
pub fn attach_scan_done(probes: &Vec<bool>) -> (r: bool)
    ensures
        r == (probes@.len() >= 6 || (probes@.len() > 0 && probes@.last())),
{
    probes.len() >= 6 || (probes.len() > 0 && probes[probes.len() - 1])
}

/// Resolves an attach scan: given the reachability results of the candidate
/// ports probed in order (stopping at the first reachable one), names the
/// port the scan attached to, or reports that none was found.
pub fn opiumware_attach_any(probes: &Vec<bool>) -> (r: String)
    requires
        attach_complete(probes@),
    ensures
        r@ == attach_status(probes@),
{
    let n = probes.len();
    if n > 0 && probes[n - 1] {
        let ports = crate::ports::candidate_port_list();
        proof {
            assert(ports@.len() == ports.deep_view().len());
            assert(ports@[n - 1]@ == candidate_ports()[n - 1]);
        }
        concat_strs("Successfully attached on port ", ports[n - 1].as_str())
    } else {
        String::from_str("Failed to attach: no Opiumware instance found on ports 8392-8397")
    }
}

/// Confirms a detach.  Delivery holds no connection open between calls, so
/// there is nothing to undo: the report merely names the port.
pub fn opiumware_detach(port: &str) -> (r: String)
    ensures
        r@ == "Detached from port "@ + port@,
{
    concat_strs("Detached from port ", port)
}

} // verus!
