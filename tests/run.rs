use cluster_run::attempt::{Action, NodeAttempt};
use cluster_run::credentials::{confirm_keys, key_paths, KeyPaths};
use cluster_run::driver::{connecting_line, start_run, ClusterConfig, Run};
use cluster_run::error::{ErrorKind, Failure};

fn strings(words: &[&str]) -> Vec<String> {
    words.iter().map(|w| w.to_string()).collect()
}

fn config(nodes: &[&str]) -> Result<ClusterConfig, String> {
    Ok(ClusterConfig { nodes: strings(nodes) })
}

/// Drives one attempt, answering each action from `answer`.
fn attempt(
    node: String,
    command: String,
    keys: Result<KeyPaths, Failure>,
    answer: &mut dyn FnMut(&Action) -> Result<String, String>,
) -> (Vec<String>, Result<String, Failure>) {
    let mut a = NodeAttempt::new(node, command, keys);
    let mut seen = Vec::new();
    loop {
        let action = a.next_action();
        if let Action::Finish(r) = action {
            return (seen, r);
        }
        seen.push(format!("{:?}", action));
        let event = answer(&action);
        a.step(event);
    }
}

#[test]
fn nodes_are_attempted_once_each_in_order() {
    let mut run = start_run(&strings(&["run", "uptime"]), config(&["a", "b", "c"])).unwrap();
    let mut visited = Vec::new();
    while let Some(t) = run.next_target() {
        visited.push(t.node.clone());
        assert_eq!(t.command, "uptime");
        run.record(Ok(String::new()));
    }
    assert_eq!(visited, strings(&["a", "b", "c"]));
    assert!(run.is_finished());
    assert_eq!(run.reports().len(), 3);
    assert!(run.next_target().is_none());
}

#[test]
fn failed_node_does_not_stop_the_run() {
    let mut run = start_run(&strings(&["run", "ls", "-l"]), config(&["a", "b", "c"])).unwrap();
    let mut commands = Vec::new();
    let mut i = 0;
    while let Some(t) = run.next_target() {
        commands.push(t.command.clone());
        if i == 0 {
            run.record(Err(Failure::new(ErrorKind::Transport, "refused".to_string())));
        } else {
            run.record(Ok(format!("out {}", i)));
        }
        i += 1;
    }
    assert_eq!(i, 3);
    assert_eq!(commands, strings(&["ls -l", "ls -l", "ls -l"]));
    let reports = run.reports();
    assert_eq!(reports[0].node, "a");
    assert_eq!(reports[0].outcome.as_ref().unwrap_err().kind, ErrorKind::Transport);
    assert_eq!(reports[1].node, "b");
    assert_eq!(reports[1].outcome.as_ref().unwrap(), "out 1");
    assert_eq!(reports[2].node, "c");
    assert_eq!(run.exit_status(), 0);
}

#[test]
fn empty_node_list_does_no_work() {
    let run = start_run(&strings(&["run", "uptime"]), config(&[])).unwrap();
    assert!(run.is_finished());
    assert!(run.next_target().is_none());
    assert_eq!(run.exit_status(), 0);
}

#[test]
fn missing_node_list_is_fatal_before_any_node() {
    let r = start_run(
        &strings(&["run", "uptime"]),
        Err("missing field `nodes`".to_string()),
    );
    let e = r.err().unwrap();
    assert_eq!(e.kind, ErrorKind::Configuration);
    assert_eq!(e.cause, "missing field `nodes`");
    assert!(e.kind.is_fatal());
}

#[test]
fn usage_is_checked_before_configuration() {
    let e = start_run(&strings(&["run"]), Err("unreadable".to_string())).err().unwrap();
    assert_eq!(e.kind, ErrorKind::Usage);
}

#[test]
fn missing_keys_fail_every_node_and_run_completes() {
    let mut run = start_run(&strings(&["run", "uptime"]), config(&["n1", "n2"])).unwrap();
    while let Some(t) = run.next_target() {
        let keys = confirm_keys(key_paths("/home/op"), false, false);
        let (actions, outcome) = attempt(t.node, t.command, keys, &mut |_| Ok(String::new()));
        assert!(actions.is_empty());
        run.record(outcome);
    }
    assert_eq!(run.reports().len(), 2);
    for r in run.reports() {
        assert_eq!(r.outcome.as_ref().unwrap_err().kind, ErrorKind::KeyNotFound);
    }
    assert_eq!(run.exit_status(), 0);
}

#[test]
fn scenario_one_reachable_one_unreachable() {
    let args = strings(&["run", "echo", "hi"]);
    let mut run = start_run(&args, config(&["10.0.0.1", "10.0.0.2"])).unwrap();
    let mut lines = Vec::new();
    while let Some(t) = run.next_target() {
        lines.push(connecting_line(&t.node));
        let reachable = t.node == "10.0.0.1";
        let keys = Ok(key_paths("/home/op"));
        let (_, outcome) = attempt(t.node.clone(), t.command.clone(), keys, &mut |a| match a {
            Action::Connect { .. } if !reachable => Err("Connection refused".to_string()),
            Action::ReadOutput => Ok("hi\n".to_string()),
            _ => Ok(String::new()),
        });
        run.record(outcome);
        let last = run.reports().last().unwrap();
        lines.push(last.message(&t.command));
    }
    assert_eq!(lines[0], "Connecting to node 10.0.0.1...");
    assert_eq!(lines[1], "Output from 10.0.0.1 for command 'echo hi': \nhi\n");
    assert_eq!(lines[2], "Connecting to node 10.0.0.2...");
    assert_eq!(lines[3], "Error for node 10.0.0.2: Connection refused");
    let reports = run.reports();
    assert_eq!(reports[1].outcome.as_ref().unwrap_err().kind, ErrorKind::Transport);
    assert_eq!(run.exit_status(), 0);
}

#[test]
fn same_read_only_command_twice_gives_same_report() {
    let run_once = || {
        let mut run = start_run(&strings(&["run", "uptime"]), config(&["a"])).unwrap();
        let t = run.next_target().unwrap();
        let (_, outcome) = attempt(t.node, t.command, Ok(key_paths("/h")), &mut |a| match a {
            Action::ReadOutput => Ok("up\n".to_string()),
            _ => Ok(String::new()),
        });
        run.record(outcome);
        run.reports()[0].message("uptime")
    };
    assert_eq!(run_once(), run_once());
}

#[test]
fn run_over_new_config_starts_empty() {
    let run = Run::new(ClusterConfig { nodes: strings(&["x"]) }, "true".to_string());
    assert!(!run.is_finished());
    assert!(run.reports().is_empty());
    let t = run.next_target().unwrap();
    assert_eq!(t.node, "x");
    assert_eq!(t.command, "true");
}
