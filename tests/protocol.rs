use cluster_run::attempt::{Action, NodeAttempt, Phase};
use cluster_run::credentials::key_paths;
use cluster_run::error::{ErrorKind, Failure};

fn attempt() -> NodeAttempt {
    NodeAttempt::new("10.0.0.1".to_string(), "uptime".to_string(), Ok(key_paths("/home/op")))
}

fn ok() -> Result<String, String> {
    Ok(String::new())
}

#[test]
fn successful_attempt_follows_the_protocol_order() {
    let mut a = attempt();
    assert_eq!(a.phase, Phase::Unconnected);
    match a.next_action() {
        Action::Connect { address } => assert_eq!(address, "10.0.0.1:22"),
        other => panic!("unexpected {:?}", other),
    }
    a.step(ok());
    assert!(matches!(a.next_action(), Action::Handshake));
    a.step(ok());
    match a.next_action() {
        Action::Authenticate { user, public_key, private_key } => {
            assert_eq!(user, "ubuntu");
            assert_eq!(public_key, "/home/op/.ssh/id_rsa.pub");
            assert_eq!(private_key, "/home/op/.ssh/id_rsa");
        }
        other => panic!("unexpected {:?}", other),
    }
    a.step(ok());
    assert!(matches!(a.next_action(), Action::OpenChannel));
    a.step(ok());
    match a.next_action() {
        Action::Exec { command } => assert_eq!(command, "uptime"),
        other => panic!("unexpected {:?}", other),
    }
    a.step(ok());
    assert!(matches!(a.next_action(), Action::ReadOutput));
    a.step(Ok(" 10:00:00 up 3 days\n".to_string()));
    assert!(matches!(a.next_action(), Action::WaitClose));
    assert_eq!(a.phase, Phase::Drained);
    a.step(ok());
    assert_eq!(a.phase, Phase::Closed);
    assert!(a.phase.is_terminal());
    match a.next_action() {
        Action::Finish(Ok(out)) => assert_eq!(out, " 10:00:00 up 3 days\n"),
        other => panic!("unexpected {:?}", other),
    }
}

fn fail_after(successes: usize) -> Failure {
    let mut a = attempt();
    for _ in 0..successes {
        a.step(ok());
    }
    a.step(Err("boom".to_string()));
    assert!(a.phase.is_terminal());
    match a.next_action() {
        Action::Finish(Err(e)) => e,
        other => panic!("unexpected {:?}", other),
    }
}

#[test]
fn connect_and_handshake_failures_are_transport_errors() {
    assert_eq!(fail_after(0).kind, ErrorKind::Transport);
    assert_eq!(fail_after(1).kind, ErrorKind::Transport);
    assert_eq!(fail_after(0).cause, "boom");
}

#[test]
fn rejected_key_is_an_authentication_error() {
    assert_eq!(fail_after(2).kind, ErrorKind::Authentication);
}

#[test]
fn channel_exec_read_and_close_failures_are_execution_errors() {
    for n in 3..7 {
        assert_eq!(fail_after(n).kind, ErrorKind::Execution);
    }
}

#[test]
fn missing_keys_fail_before_any_connection() {
    let keys = Err(Failure::new(ErrorKind::KeyNotFound, "no keys".to_string()));
    let a = NodeAttempt::new("10.0.0.1".to_string(), "uptime".to_string(), keys);
    assert_eq!(a.phase, Phase::Failed(ErrorKind::KeyNotFound));
    match a.next_action() {
        Action::Finish(Err(e)) => {
            assert_eq!(e.kind, ErrorKind::KeyNotFound);
            assert_eq!(e.cause, "no keys");
        }
        other => panic!("unexpected {:?}", other),
    }
}

#[test]
fn output_of_other_steps_is_ignored() {
    let mut a = attempt();
    a.step(Ok("noise".to_string()));
    assert_eq!(a.phase, Phase::Connected);
    assert_eq!(a.text, "");
}
