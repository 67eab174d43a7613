use dioxus_inspector::{
    build_script, http_status, new_command, reply_outcome, resize_response, status_response,
    Enqueue, EvalRequest, EvalResponse, Operation, Relay, RelayError, ReplyError,
    ResizeRequest, MAX_RELAY_CAPACITY, RELAY_CAPACITY,
};

#[test]
fn closed_relay_fails_fast() {
    let (relay, queue) = Relay::open(RELAY_CAPACITY);
    drop(queue);
    for _ in 0..3 {
        let (cmd, _reply) = new_command("return 42".to_string());
        match relay.try_enqueue(cmd) {
            Enqueue::Unavailable(cmd) => assert_eq!(cmd.script, "return 42"),
            _ => panic!("expected the relay to be unavailable"),
        }
    }
    let outcome: Result<EvalResponse, RelayError> = Err(RelayError::Unavailable);
    assert_eq!(http_status(&outcome), 503);
}

#[test]
fn full_relay_hands_command_back() {
    let (relay, _queue) = Relay::open(1);
    let (first, _first_reply) = new_command("first".to_string());
    assert!(matches!(relay.try_enqueue(first), Enqueue::Queued));
    let (second, _second_reply) = new_command("second".to_string());
    match relay.try_enqueue(second) {
        Enqueue::Full(cmd) => assert_eq!(cmd.script, "second"),
        _ => panic!("expected a full queue"),
    }
}

#[test]
fn commands_leave_in_enqueue_order() {
    let (relay, mut queue) = Relay::open(RELAY_CAPACITY);
    for script in ["one", "two", "three"] {
        let (cmd, _reply) = new_command(script.to_string());
        assert!(matches!(relay.try_enqueue(cmd), Enqueue::Queued));
    }
    for script in ["one", "two", "three"] {
        assert_eq!(queue.try_recv().ok().unwrap().script, script);
    }
}

#[test]
fn reply_slot_is_used_once() {
    let (mut cmd, mut reply) = new_command("return 1".to_string());
    assert_eq!(cmd.response_tx.send(EvalResponse::success("1")), Ok(true));
    assert_eq!(
        cmd.response_tx.send(EvalResponse::success("2")),
        Err(ReplyError::AlreadyFulfilled)
    );
    let got = reply.try_recv().ok().unwrap();
    assert_eq!(got.result, Some("1".to_string()));
}

#[test]
fn reply_to_abandoned_caller_is_dropped() {
    let (mut cmd, reply) = new_command("return 1".to_string());
    drop(reply);
    assert_eq!(cmd.response_tx.send(EvalResponse::success("1")), Ok(false));
    assert_eq!(
        cmd.response_tx.send(EvalResponse::success("1")),
        Err(ReplyError::AlreadyFulfilled)
    );
}

#[test]
fn eval_end_to_end() {
    let (relay, mut queue) = Relay::open(RELAY_CAPACITY);
    let script = build_script(&Operation::Eval(EvalRequest { script: "return 41+1".to_string() }));
    let (cmd, mut reply) = new_command(script);
    assert!(matches!(relay.try_enqueue(cmd), Enqueue::Queued));
    let mut cmd = queue.try_recv().ok().unwrap();
    assert_eq!(cmd.script, "return 41+1");
    assert!(queue.try_recv().is_err());
    assert_eq!(cmd.response_tx.send(EvalResponse::success("42")), Ok(true));
    let outcome = reply_outcome(reply.try_recv().ok());
    assert_eq!(http_status(&outcome), 200);
    let resp = outcome.unwrap();
    assert!(resp.success);
    assert_eq!(resp.result, Some("42".to_string()));
    assert!(resp.error.is_none());
}

#[test]
fn failed_script_is_still_a_completed_outcome() {
    let outcome = reply_outcome(Some(EvalResponse::error("Script failed")));
    assert_eq!(http_status(&outcome), 200);
    let resp = outcome.unwrap();
    assert!(!resp.success);
    assert_eq!(resp.error, Some("Script failed".to_string()));
}

#[test]
fn unanswered_command_loses_its_reply() {
    let (relay, mut queue) = Relay::open(RELAY_CAPACITY);
    let (cmd, mut reply) = new_command("return 1".to_string());
    assert!(matches!(relay.try_enqueue(cmd), Enqueue::Queued));
    drop(queue.try_recv().ok().unwrap());
    let outcome = reply_outcome(reply.try_recv().ok());
    assert!(matches!(outcome, Err(RelayError::ReplyLost)));
    assert_eq!(http_status(&outcome), 500);
}

#[test]
fn resize_success_echoes_size() {
    let req = ResizeRequest { width: 800, height: 600 };
    let resp = resize_response(&req, EvalResponse::success("__BRIDGE_RESIZE__800x600__"));
    assert!(resp.success);
    assert_eq!(resp.width, 800);
    assert_eq!(resp.height, 600);
    assert!(resp.error.is_none());
}

#[test]
fn resize_failure_carries_error() {
    let req = ResizeRequest { width: 800, height: 600 };
    let resp = resize_response(&req, EvalResponse::error("Window not found"));
    assert!(!resp.success);
    assert_eq!(resp.width, 800);
    assert_eq!(resp.height, 600);
    assert_eq!(resp.error, Some("Window not found".to_string()));
}

#[test]
fn status_report() {
    let resp = status_response("test-app", 12345, 60);
    assert_eq!(resp.status, "ok");
    assert_eq!(resp.app, "test-app");
    assert_eq!(resp.pid, 12345);
    assert_eq!(resp.uptime_secs, 60);
    assert_eq!(resp.uptime_human, "1m 0s");
}

#[test]
fn largest_capacity_opens() {
    let (relay, mut queue) = Relay::open(MAX_RELAY_CAPACITY);
    let (cmd, _reply) = new_command("return 1".to_string());
    assert!(matches!(relay.try_enqueue(cmd), Enqueue::Queued));
    assert_eq!(queue.try_recv().ok().unwrap().script, "return 1");
}
