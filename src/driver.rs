use vstd::prelude::*;
use vstd::string::StringExecFns;

use crate::command::{command_from_args, command_of, views};
use crate::error::{ErrorKind, Failure, FailureView};

verus! {

/// The nodes of the cluster, in the order they are to be visited.
#[derive(Clone, Debug)]
pub struct ClusterConfig {
    pub nodes: Vec<String>,
}

/// One node to run the command on.
#[derive(Clone, Debug)]
pub struct Target {
    pub node: String,
    pub command: String,
}

/// How one node's attempt ended.
#[derive(Debug)]
pub struct NodeReport {
    pub node: String,
    pub outcome: Result<String, Failure>,
}

/// The view of an outcome: the output, or what failed.
pub open spec fn outcome_view(o: Result<String, Failure>) -> Result<Seq<char>, FailureView> {
    match o {
        Ok(s) => Ok(s@),
        Err(e) => Err(e@),
    }
}

pub struct ReportView {
    pub node: Seq<char>,
    pub outcome: Result<Seq<char>, FailureView>,
}

impl View for NodeReport {
    type V = ReportView;

    open spec fn view(&self) -> ReportView {
        ReportView { node: self.node@, outcome: outcome_view(self.outcome) }
    }
}

/// A run as mathematical values: the nodes, the command, and the reports of
/// the nodes attempted so far.
pub struct RunView {
    pub nodes: Seq<Seq<char>>,
    pub command: Seq<char>,
    pub reports: Seq<ReportView>,
}

/// A run that has attempted no node yet.
pub open spec fn fresh(nodes: Seq<Seq<char>>, command: Seq<char>) -> RunView {
    RunView { nodes, command, reports: Seq::empty() }
}

/// The reports are those of a prefix of the nodes, in order.
pub open spec fn well_formed(r: RunView) -> bool {
    &&& r.reports.len() <= r.nodes.len()
    &&& forall|k: int| 0 <= k < r.reports.len() ==> #[trigger] r.reports[k].node == r.nodes[k]
}

pub open spec fn finished(r: RunView) -> bool {
    r.reports.len() >= r.nodes.len()
}

/// The node and command of the next attempt, if any is left.
pub open spec fn target(r: RunView) -> Option<(Seq<char>, Seq<char>)> {
    if finished(r) {
        None
    } else {
        Some((r.nodes[r.reports.len() as int], r.command))
    }
}

/// The run after the next node's attempt ended with `outcome`.
pub open spec fn recorded(r: RunView, outcome: Result<Seq<char>, FailureView>) -> RunView {
    RunView {
        reports: r.reports.push(ReportView { node: r.nodes[r.reports.len() as int], outcome }),
        ..r
    }
}

/// The run after feeding it `outcomes`, one per attempt, until it finishes.
pub open spec fn drive(r: RunView, outcomes: Seq<Result<Seq<char>, FailureView>>) -> RunView
    decreases outcomes.len(),
{
    if outcomes.len() == 0 || finished(r) {
        r
    } else {
        drive(recorded(r, outcomes[0]), outcomes.drop_first())
    }
}

/// The node and command of each attempt made while feeding `outcomes`.
pub open spec fn invocations(r: RunView, outcomes: Seq<Result<Seq<char>, FailureView>>) -> Seq<
    (Seq<char>, Seq<char>),
>
    decreases outcomes.len(),
{
    if outcomes.len() == 0 || finished(r) {
        Seq::empty()
    } else {
        seq![(r.nodes[r.reports.len() as int], r.command)] + invocations(
            recorded(r, outcomes[0]),
            outcomes.drop_first(),
        )
    }
}

/// A run of one command over the nodes of a cluster, one node at a time.
pub struct Run {
    nodes: Vec<String>,
    command: String,
    reports: Vec<NodeReport>,
}

impl View for Run {
    type V = RunView;

    closed spec fn view(&self) -> RunView {
        RunView {
            nodes: views(self.nodes@),
            command: self.command@,
            reports: self.reports@.map_values(|p: NodeReport| p@),
        }
    }
}

impl Run {
    /// A run of `command` over the nodes of `config`, none attempted yet.
    pub fn new(config: ClusterConfig, command: String) -> (r: Run)
        ensures
            r@ == fresh(views(config.nodes@), command@),
            well_formed(r@),
    {
        let r = Run { nodes: config.nodes, command, reports: Vec::new() };
        assert(r@.reports =~= Seq::<ReportView>::empty());
        r
    }

    /// The next node to attempt, with the command; `None` once every node
    /// has been attempted.
    pub fn next_target(&self) -> (r: Option<Target>)
        requires
            well_formed(self@),
        ensures
            target(self@) matches Some(t) ==> (r matches Some(x) && x.node@ == t.0
                && x.command@ == t.1),
            target(self@) is None ==> r is None,
    {
        let i = self.reports.len();
        if i < self.nodes.len() {
            Some(Target { node: self.nodes[i].clone(), command: self.command.clone() })
        } else {
            None
        }
    }

    /// Records how the attempt at the next node ended.
    pub fn record(&mut self, outcome: Result<String, Failure>)
        requires
            well_formed(old(self)@),
            !finished(old(self)@),
        ensures
            final(self)@ == recorded(old(self)@, outcome_view(outcome)),
            well_formed(final(self)@),
    {
        let i = self.reports.len();
        let node = self.nodes[i].clone();
        self.reports.push(NodeReport { node, outcome });
        assert(self@.reports =~= old(self)@.reports.push(
            ReportView { node: old(self)@.nodes[i as int], outcome: outcome_view(outcome) },
        ));
    }

    pub fn is_finished(&self) -> (r: bool)
        ensures
            r == finished(self@),
    {
        self.reports.len() >= self.nodes.len()
    }

    /// The reports of the nodes attempted so far, in order.
    pub fn reports(&self) -> (r: &Vec<NodeReport>)
        ensures
            r@.map_values(|p: NodeReport| p@) == self@.reports,
    {
        &self.reports
    }

    /// The process exit status of a run that got under way: a node's failure
    /// is reported but does not change it.
    pub fn exit_status(&self) -> (r: i32)
        ensures
            r == 0,
    {
        0
    }
}

/// Starts a run from the command line and the configuration as it was read
/// (`Err` with the cause when it could not be read or parsed). The command
/// line is checked first; either failure ends the process before any node
/// is contacted.
pub fn start_run(args: &Vec<String>, config: Result<ClusterConfig, String>) -> (r: Result<
    Run,
    Failure,
>)
    ensures
        args@.len() < 2 ==> (r matches Err(e) && e.kind == ErrorKind::Usage),
        args@.len() >= 2 && config is Err ==> (r matches Err(e) && e.kind
            == ErrorKind::Configuration && e.cause@ == config->Err_0@),
        args@.len() >= 2 && config is Ok ==> (r matches Ok(run) && run@ == fresh(
            views(config->Ok_0.nodes@),
            command_of(args@),
        ) && well_formed(run@)),
{
    let command = match command_from_args(args) {
        Ok(c) => c,
        Err(e) => {
            return Err(e);
        },
    };
    match config {
        Ok(c) => Ok(Run::new(c, command)),
        Err(cause) => Err(Failure::new(ErrorKind::Configuration, cause)),
    }
}

/// The line announcing an attempt at `node`.
pub fn connecting_line(node: &str) -> (r: String)
    ensures
        r@ == "Connecting to node "@ + node@ + "..."@,
{
    String::from_str("Connecting to node ").concat(node).concat("...")
}

/// The text shown for a report of a run of `command`.
pub open spec fn report_text(r: ReportView, command: Seq<char>) -> Seq<char> {
    match r.outcome {
        Ok(out) => "Output from "@ + r.node + " for command '"@ + command + "': \n"@ + out,
        Err(e) => "Error for node "@ + r.node + ": "@ + e.cause,
    }
}

impl NodeReport {
    /// The text shown for this report of a run of `command`.
    pub fn message(&self, command: &str) -> (r: String)
        ensures
            r@ == report_text(self@, command@),
    {
        match &self.outcome {
            Ok(out) => String::from_str("Output from ").concat(self.node.as_str()).concat(
                " for command '",
            ).concat(command).concat("': \n").concat(out.as_str()),
            Err(e) => String::from_str("Error for node ").concat(self.node.as_str()).concat(
                ": ",
            ).concat(e.cause.as_str()),
        }
    }
}

} // verus!
