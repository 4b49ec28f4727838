use vstd::prelude::*;

use crate::attempt::{successor, Phase};
use crate::driver::{
    drive, finished, fresh, invocations, recorded, target, well_formed, ReportView, RunView,
};
use crate::error::{ErrorKind, FailureView};

verus! {

/// Feeding a run one outcome per remaining node attempts each remaining node
/// once, in order, with the run's command, and records each outcome against
/// its node.
proof fn lemma_drive_rest(r: RunView, outcomes: Seq<Result<Seq<char>, FailureView>>)
    requires
        well_formed(r),
        outcomes.len() >= r.nodes.len() - r.reports.len(),
    ensures
        ({
            let d = drive(r, outcomes);
            let k = r.reports.len() as int;
            &&& d.nodes == r.nodes
            &&& d.command == r.command
            &&& well_formed(d)
            &&& finished(d)
            &&& d.reports == r.reports + Seq::new(
                (r.nodes.len() - k) as nat,
                |j: int| ReportView { node: r.nodes[k + j], outcome: outcomes[j] },
            )
            &&& invocations(r, outcomes) == Seq::new(
                (r.nodes.len() - k) as nat,
                |j: int| (r.nodes[k + j], r.command),
            )
        }),
    decreases r.nodes.len() - r.reports.len(),
{
    let k = r.reports.len() as int;
    if finished(r) {
        assert(r.reports + Seq::new(0, |j: int| ReportView { node: r.nodes[k + j], outcome: outcomes[j] }) =~= r.reports);
        assert(invocations(r, outcomes) =~= Seq::new(0, |j: int| (r.nodes[k + j], r.command)));
    } else {
        let r2 = recorded(r, outcomes[0]);
        let rest = outcomes.drop_first();
        assert(well_formed(r2)) by {
            assert forall|i: int| 0 <= i < r2.reports.len() implies #[trigger] r2.reports[i].node
                == r2.nodes[i] by {
                if i < k {
                    assert(r2.reports[i] == r.reports[i]);
                }
            }
        }
        lemma_drive_rest(r2, rest);
        assert(drive(r, outcomes) == drive(r2, rest));
        assert(drive(r, outcomes).reports =~= r.reports + Seq::new(
            (r.nodes.len() - k) as nat,
            |j: int| ReportView { node: r.nodes[k + j], outcome: outcomes[j] },
        ));
        assert(invocations(r, outcomes) =~= Seq::new(
            (r.nodes.len() - k) as nat,
            |j: int| (r.nodes[k + j], r.command),
        ));
    }
}

/// With one outcome per node, a run attempts each configured node exactly
/// once, in the order of the list, skipping and reordering none, and ends
/// with one report per node in that order.
pub proof fn each_node_attempted_once_in_order(
    nodes: Seq<Seq<char>>,
    command: Seq<char>,
    outcomes: Seq<Result<Seq<char>, FailureView>>,
)
    requires
        outcomes.len() >= nodes.len(),
    ensures
        invocations(fresh(nodes, command), outcomes) == nodes.map_values(
            |n: Seq<char>| (n, command),
        ),
        finished(drive(fresh(nodes, command), outcomes)),
        drive(fresh(nodes, command), outcomes).reports.len() == nodes.len(),
        forall|k: int|
            0 <= k < nodes.len() ==> #[trigger] drive(fresh(nodes, command), outcomes).reports[k]
                == (ReportView { node: nodes[k], outcome: outcomes[k] }),
{
    lemma_drive_rest(fresh(nodes, command), outcomes);
    assert(invocations(fresh(nodes, command), outcomes) =~= nodes.map_values(
        |n: Seq<char>| (n, command),
    ));
}

/// Which nodes a run attempts, and with which command, does not depend on
/// how any attempt ends: a failed node does not keep the later ones from
/// being attempted.
pub proof fn attempts_independent_of_outcomes(
    nodes: Seq<Seq<char>>,
    command: Seq<char>,
    outcomes: Seq<Result<Seq<char>, FailureView>>,
    other: Seq<Result<Seq<char>, FailureView>>,
)
    requires
        outcomes.len() >= nodes.len(),
        other.len() >= nodes.len(),
    ensures
        invocations(fresh(nodes, command), outcomes) == invocations(fresh(nodes, command), other),
{
    each_node_attempted_once_in_order(nodes, command, outcomes);
    each_node_attempted_once_in_order(nodes, command, other);
}

/// After a failed attempt the run goes on to the next node of the list,
/// with the same command, just as after a successful one.
pub proof fn failure_moves_to_next_node(r: RunView, failure: FailureView)
    requires
        well_formed(r),
        r.reports.len() + 1 < r.nodes.len(),
    ensures
        well_formed(recorded(r, Err(failure))),
        target(recorded(r, Err(failure))) == Some(
            (r.nodes[r.reports.len() + 1int], r.command),
        ),
{
    let r2 = recorded(r, Err(failure));
    assert forall|i: int| 0 <= i < r2.reports.len() implies #[trigger] r2.reports[i].node
        == r2.nodes[i] by {
        if i < r.reports.len() {
            assert(r2.reports[i] == r.reports[i]);
        }
    }
}

/// Every attempt of a run is handed the same command, byte for byte.
pub proof fn same_command_for_every_node(
    nodes: Seq<Seq<char>>,
    command: Seq<char>,
    outcomes: Seq<Result<Seq<char>, FailureView>>,
)
    ensures
        forall|i: int, j: int|
            0 <= i < invocations(fresh(nodes, command), outcomes).len() && 0 <= j < invocations(
                fresh(nodes, command),
                outcomes,
            ).len() ==> #[trigger] invocations(fresh(nodes, command), outcomes)[i].1
                == #[trigger] invocations(fresh(nodes, command), outcomes)[j].1 && invocations(
                fresh(nodes, command),
                outcomes,
            )[i].1 == command,
{
    lemma_same_command(fresh(nodes, command), outcomes);
}

proof fn lemma_same_command(r: RunView, outcomes: Seq<Result<Seq<char>, FailureView>>)
    ensures
        forall|i: int|
            0 <= i < invocations(r, outcomes).len() ==> #[trigger] invocations(r, outcomes)[i].1
                == r.command,
    decreases outcomes.len(),
{
    if outcomes.len() > 0 && !finished(r) {
        let r2 = recorded(r, outcomes[0]);
        lemma_same_command(r2, outcomes.drop_first());
        assert forall|i: int| 0 <= i < invocations(r, outcomes).len() implies #[trigger] invocations(
            r,
            outcomes,
        )[i].1 == r.command by {
            if i > 0 {
                assert(invocations(r, outcomes)[i] == invocations(r2, outcomes.drop_first())[i
                    - 1]);
            }
        }
    }
}

/// When the key files are missing, every node's attempt fails for that
/// reason and the run still goes through the whole list, one failure report
/// per node.
pub proof fn missing_keys_fail_every_node(
    nodes: Seq<Seq<char>>,
    command: Seq<char>,
    cause: Seq<char>,
)
    ensures
        ({
            let outcomes = Seq::new(
                nodes.len(),
                |i: int| Err::<Seq<char>, FailureView>(FailureView { kind: ErrorKind::KeyNotFound, cause }),
            );
            let d = drive(fresh(nodes, command), outcomes);
            &&& finished(d)
            &&& d.reports.len() == nodes.len()
            &&& forall|k: int|
                0 <= k < nodes.len() ==> ((#[trigger] d.reports[k]).node == nodes[k]
                    && (d.reports[k].outcome matches Err(e) && e.kind == ErrorKind::KeyNotFound))
        }),
{
    let outcomes = Seq::new(
        nodes.len(),
        |i: int| Err::<Seq<char>, FailureView>(FailureView { kind: ErrorKind::KeyNotFound, cause }),
    );
    each_node_attempted_once_in_order(nodes, command, outcomes);
}

/// The phase an attempt reaches from `p` after `n` successful steps.
pub open spec fn advanced(p: Phase, n: nat) -> Phase
    decreases n,
{
    if n == 0 {
        p
    } else {
        advanced(successor(p), (n - 1) as nat)
    }
}

/// An attempt that meets no failure goes through the protocol in its fixed
/// order: connect, handshake, authenticate, open a channel, execute, drain
/// the output, close; after those seven steps, and not before, it is over.
pub proof fn protocol_order()
    ensures
        advanced(Phase::Unconnected, 1) == Phase::Connected,
        advanced(Phase::Unconnected, 2) == Phase::Handshaken,
        advanced(Phase::Unconnected, 3) == Phase::Authenticated,
        advanced(Phase::Unconnected, 4) == Phase::ChannelOpen,
        advanced(Phase::Unconnected, 5) == Phase::Executing,
        advanced(Phase::Unconnected, 6) == Phase::Drained,
        advanced(Phase::Unconnected, 7) == Phase::Closed,
        forall|n: nat| n < 7 ==> !(#[trigger] advanced(Phase::Unconnected, n)).is_terminal(),
{
    reveal_with_fuel(advanced, 8);
    assert forall|n: nat| n < 7 implies !(#[trigger] advanced(Phase::Unconnected, n)).is_terminal() by {
        reveal_with_fuel(advanced, 8);
    }
}

} // verus!
