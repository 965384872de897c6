use callback_relay::envelope::{
    reply_of_outcome, CallbackRequest, HostOutcome, RelayError, Reply,
};
use callback_relay::execution::{execute, Execution, ExecutionPhase};
use callback_relay::pool::PoolConfig;

#[test]
fn phases_run_idle_to_completed() {
    let mut e = Execution::new();
    assert_eq!(e.current_phase(), ExecutionPhase::Idle);
    e.submit_query();
    assert_eq!(e.current_phase(), ExecutionPhase::Submitted);
    e.enter_dispatch();
    assert_eq!(e.current_phase(), ExecutionPhase::Dispatching);
    assert!(e.all_requests_serviced());
    e.complete();
    assert_eq!(e.current_phase(), ExecutionPhase::Completed);
    assert_eq!(e.first_fault(), None);
}

#[test]
fn late_request_observes_channel_closed() {
    let mut e = Execution::new();
    e.submit_query();
    e.enter_dispatch();
    e.complete();
    // the query is already done: a late proxy call is a propagated failure
    assert_eq!(e.request_host_call(vec![1]), Err(RelayError::ChannelClosed));
}

#[test]
fn host_error_fails_only_the_requesting_branch() {
    let mut e = Execution::new();
    e.submit_query();
    e.request_host_call(vec![1]).unwrap();
    e.request_host_call(vec![2]).unwrap();
    e.request_host_call(vec![3]).unwrap();
    e.enter_dispatch();

    let mut first_error: Option<String> = None;
    while e.pending_requests() > 0 {
        let req = e.take_next_request();
        let outcome = if req.args == vec![2] {
            HostOutcome::Error { message: String::from("bad value") }
        } else {
            HostOutcome::Success { values: vec![req.args[0] * 10] }
        };
        if let HostOutcome::Error { message } = &outcome {
            if first_error.is_none() {
                first_error = Some(message.clone());
            }
        }
        e.complete_request(req.id, outcome);
    }

    // exactly the requesting branch fails, with the host-reported cause
    assert_eq!(
        e.poll_reply(1),
        Some(&Reply::Failure {
            error: RelayError::HostCallFailure { message: String::from("bad value") },
        })
    );
    // sibling branches that completed are not retroactively corrupted
    assert_eq!(e.poll_reply(0), Some(&Reply::Value { values: vec![10] }));
    assert_eq!(e.poll_reply(2), Some(&Reply::Value { values: vec![30] }));

    // and the overall execution reports that failure
    e.fail(RelayError::HostCallFailure { message: first_error.unwrap() });
    assert_eq!(e.current_phase(), ExecutionPhase::Failed);
    assert!(matches!(
        e.first_fault(),
        Some(RelayError::HostCallFailure { .. })
    ));
    // completed siblings still hold their replies after teardown
    assert_eq!(e.poll_reply(0), Some(&Reply::Value { values: vec![10] }));
    assert_eq!(e.poll_reply(2), Some(&Reply::Value { values: vec![30] }));
}

#[test]
fn doubling_expression_over_column() {
    // an expression over columns [a, b] with one host-defined element that
    // doubles each value of a = [1, 2, 3]
    let requests = vec![vec![1], vec![2], vec![3]];
    let host = |req: CallbackRequest| -> HostOutcome {
        HostOutcome::Success { values: req.args.iter().map(|v| v * 2).collect() }
    };
    let e = execute(requests, host, None);
    assert_eq!(e.current_phase(), ExecutionPhase::Completed);
    for (i, want) in [2i64, 4, 6].iter().enumerate() {
        assert_eq!(e.poll_reply(i as u64), Some(&Reply::Value { values: vec![*want] }));
    }
}

#[test]
fn hundred_simultaneous_requests_round_trip() {
    let mut requests = Vec::new();
    for p in 0..100i64 {
        requests.push(vec![p]);
    }
    let host = |req: CallbackRequest| -> HostOutcome {
        HostOutcome::Success { values: vec![req.args[0] * 2] }
    };
    let e = execute(requests, host, None);
    assert_eq!(e.current_phase(), ExecutionPhase::Completed);
    assert_eq!(e.issued_requests(), 100);

    // payload-to-result correspondence holds per request ...
    let mut returned = Vec::new();
    for p in 0..100u64 {
        match e.poll_reply(p) {
            Some(Reply::Value { values }) => {
                assert_eq!(*values, vec![p as i64 * 2]);
                returned.push(values[0]);
            }
            other => panic!("request {} was not serviced with a value: {:?}", p, other),
        }
    }
    // ... and the returned values are exactly the doubled payloads
    let expected: Vec<i64> = (0..100i64).map(|p| p * 2).collect();
    assert_eq!(returned, expected);
}

#[test]
fn engine_failure_before_any_callback_exits_promptly() {
    let host = |_req: CallbackRequest| -> HostOutcome {
        HostOutcome::Success { values: Vec::new() }
    };
    let e = execute(Vec::new(), host, Some(String::from("engine stage failed")));
    assert_eq!(e.current_phase(), ExecutionPhase::Failed);
    assert_eq!(
        e.first_fault(),
        Some(&RelayError::EngineFailure { message: String::from("engine stage failed") })
    );
    assert_eq!(e.issued_requests(), 0);
    assert_eq!(e.pending_requests(), 0);
}

#[test]
fn engine_failure_fails_inflight_requests_with_channel_closed() {
    let requests = vec![vec![7], vec![8]];
    let host = |req: CallbackRequest| -> HostOutcome {
        HostOutcome::Success { values: req.args.clone() }
    };
    let e = execute(requests, host, Some(String::from("io error")));
    assert_eq!(e.current_phase(), ExecutionPhase::Failed);
    for id in 0..2u64 {
        assert_eq!(
            e.poll_reply(id),
            Some(&Reply::Failure { error: RelayError::ChannelClosed })
        );
    }
}

#[test]
fn outcome_to_reply_mapping() {
    assert_eq!(
        reply_of_outcome(HostOutcome::Success { values: vec![5, 6] }),
        Reply::Value { values: vec![5, 6] }
    );
    assert_eq!(
        reply_of_outcome(HostOutcome::Error { message: String::from("nope") }),
        Reply::Failure { error: RelayError::HostCallFailure { message: String::from("nope") } }
    );
}

#[test]
fn pool_configuration_reports_size() {
    let mut p = PoolConfig::new(8);
    assert_eq!(p.thread_pool_size(), 8);
    p.resize(4);
    assert_eq!(p.thread_pool_size(), 4);
}
