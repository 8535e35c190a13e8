use pingpong_engine::engine::{
    DecodeOutcome, DecodeStep, EncodeStep, Engine, HandlerStep, Phase,
};
use pingpong_engine::fault::{classify, DecodeFault, Disposition, FaultClass};
use pingpong_engine::message::{Envelope, MessageKind, Payload};
use pingpong_engine::turn::{wire_output, TurnInput, TurnReport};

fn call(method: &str, seq_id: i32, body: &[u8]) -> Envelope {
    Envelope {
        kind: MessageKind::Call,
        method: String::from(method),
        seq_id,
        payload: Payload::Entry(body.to_vec()),
    }
}

fn one_way(method: &str, seq_id: i32) -> Envelope {
    Envelope {
        kind: MessageKind::OneWay,
        method: String::from(method),
        seq_id,
        payload: Payload::Entry(Vec::new()),
    }
}

fn ok_request(envelope: Envelope, body: &[u8]) -> TurnInput {
    TurnInput::Request {
        envelope,
        outcome: Ok(body.to_vec()),
        started_at: 10,
        ended_at: 20,
        shutdown_pending: false,
        encode_ok: true,
    }
}

fn frames(reports: &[TurnReport]) -> Vec<&Envelope> {
    reports.iter().filter_map(|r| r.sent.as_ref()).collect()
}

#[test]
fn classifier_matches_taxonomy() {
    assert_eq!(classify(FaultClass::Transport), Disposition::SilentClose);
    assert_eq!(classify(FaultClass::Shutdown), Disposition::SilentClose);
    assert_eq!(classify(FaultClass::Protocol), Disposition::BestEffortException);
    assert_eq!(classify(FaultClass::Application), Disposition::ExceptionReply);
}

#[test]
fn reply_envelope_exact_values() {
    let reply = Envelope::server_reply(String::from("echo"), 9, Ok(vec![1, 2, 3]));
    assert_eq!(reply.kind, MessageKind::Reply);
    assert_eq!(reply.method, "echo");
    assert_eq!(reply.seq_id, 9);
    assert_eq!(reply.payload, Payload::Entry(vec![1, 2, 3]));

    let exception = Envelope::server_reply(String::from("echo"), 9, Err(String::from("boom")));
    assert_eq!(exception.kind, MessageKind::Exception);
    assert_eq!(exception.seq_id, 9);
    assert_eq!(exception.payload, Payload::Failure(String::from("boom")));
}

#[test]
fn three_two_way_requests_three_ordered_replies() {
    // Pingpong sequencing: each reply is produced within its own turn, so the
    // i-th frame answers the i-th request.
    let mut engine = Engine::new(2, Some(String::from("10.0.0.9:8000")));
    let script = vec![
        ok_request(call("a", 1, b"x"), b"rx"),
        ok_request(call("b", 2, b"y"), b"ry"),
        ok_request(call("c", 3, b"z"), b"rz"),
    ];
    let reports = engine.run_connection(script);
    assert_eq!(reports.len(), 3);
    let out = frames(&reports);
    assert_eq!(out.len(), 3);
    for (i, (seq_id, method)) in [(1, "a"), (2, "b"), (3, "c")].iter().enumerate() {
        assert_eq!(out[i].seq_id, *seq_id);
        assert_eq!(out[i].method, *method);
        assert_eq!(out[i].kind, MessageKind::Reply);
        assert!(reports[i].proceed);
        assert!(reports[i].stats_fired);
    }
}

#[test]
fn one_way_produces_no_wire_output() {
    for outcome in [Ok(vec![7u8]), Err(String::from("ignored"))] {
        let mut engine = Engine::new(2, None);
        let input = TurnInput::Request {
            envelope: one_way("notify", 5),
            outcome,
            started_at: 1,
            ended_at: 2,
            shutdown_pending: false,
            encode_ok: false, // irrelevant: nothing is encoded
        };
        let reports = engine.run_connection(vec![input]);
        assert_eq!(reports.len(), 1);
        assert_eq!(reports[0].sent, None);
        assert!(reports[0].proceed);
        assert!(reports[0].stats_fired);
    }
}

#[test]
fn cancellation_between_requests_stops_before_next_decode() {
    let mut engine = Engine::new(2, None);
    let script = vec![
        ok_request(call("a", 1, b"x"), b"rx"),
        TurnInput::Cancelled,
        ok_request(call("never", 99, b"n"), b"rn"),
    ];
    let reports = engine.run_connection(script);
    // The first turn completes in full; the cancelled turn emits nothing and
    // fires no tracers; the third request is never decoded.
    assert_eq!(reports.len(), 2);
    assert!(reports[0].proceed);
    assert_eq!(reports[1].sent, None);
    assert!(!reports[1].proceed);
    assert!(!reports[1].stats_fired);
    assert_eq!(frames(&reports).len(), 1);
}

#[test]
fn shutdown_during_handler_still_replies_then_stops() {
    let mut engine = Engine::new(2, None);
    let input = TurnInput::Request {
        envelope: call("work", 11, b"w"),
        outcome: Ok(b"done".to_vec()),
        started_at: 1,
        ended_at: 2,
        shutdown_pending: true,
        encode_ok: true,
    };
    let reports = engine.run_connection(vec![input, TurnInput::EndOfStream]);
    assert_eq!(reports.len(), 1);
    let frame = reports[0].sent.as_ref().expect("in-flight request owed a reply");
    assert_eq!(frame.kind, MessageKind::Reply);
    assert_eq!(frame.seq_id, 11);
    assert!(!reports[0].proceed);
    // the forced-reset exit does not fire the tracers
    assert!(!reports[0].stats_fired);
}

#[test]
fn handler_error_two_way_yields_exception_with_same_seq_id() {
    let mut engine = Engine::new(2, None);
    let input = TurnInput::Request {
        envelope: call("fails", 77, b"q"),
        outcome: Err(String::from("handler failure")),
        started_at: 1,
        ended_at: 2,
        shutdown_pending: false,
        encode_ok: true,
    };
    let reports = engine.run_connection(vec![input]);
    assert_eq!(reports.len(), 1);
    let out = frames(&reports);
    assert_eq!(out.len(), 1);
    assert_eq!(out[0].kind, MessageKind::Exception);
    assert_eq!(out[0].seq_id, 77);
    assert_eq!(out[0].payload, Payload::Failure(String::from("handler failure")));
    // an application failure does not terminate the loop
    assert!(reports[0].proceed);
}

#[test]
fn protocol_fault_sends_one_best_effort_exception_then_stops() {
    let mut engine = Engine::new(2, None);
    let fault = DecodeFault {
        class: FaultClass::Protocol,
        method: String::from("bad"),
        seq_id: 4,
        message: String::from("malformed frame"),
    };
    let reports = engine.run_connection(vec![
        TurnInput::Fault(fault),
        ok_request(call("never", 5, b"n"), b"rn"),
    ]);
    assert_eq!(reports.len(), 1);
    let frame = reports[0].sent.as_ref().expect("protocol fault owes a notification");
    assert_eq!(frame.kind, MessageKind::Exception);
    assert_eq!(frame.seq_id, 4);
    assert_eq!(frame.payload, Payload::Failure(String::from("malformed frame")));
    assert!(!reports[0].proceed);
    assert!(reports[0].stats_fired);
}

#[test]
fn transport_fault_sends_nothing_then_stops() {
    let mut engine = Engine::new(2, None);
    let fault = DecodeFault {
        class: FaultClass::Transport,
        method: String::new(),
        seq_id: 0,
        message: String::from("connection severed"),
    };
    let reports = engine.run_connection(vec![TurnInput::Fault(fault)]);
    assert_eq!(reports.len(), 1);
    assert_eq!(reports[0].sent, None);
    assert!(!reports[0].proceed);
    assert!(reports[0].stats_fired);
}

#[test]
fn encode_failure_fires_tracers_then_stops() {
    let mut engine = Engine::new(2, None);
    let input = TurnInput::Request {
        envelope: call("echo", 8, b"e"),
        outcome: Ok(b"r".to_vec()),
        started_at: 1,
        ended_at: 2,
        shutdown_pending: false,
        encode_ok: false,
    };
    let reports = engine.run_connection(vec![input]);
    assert_eq!(reports.len(), 1);
    // the frame was handed to the encoder, which failed to deliver it
    assert!(reports[0].sent.is_some());
    assert!(!reports[0].proceed);
    assert!(reports[0].stats_fired);
}

#[test]
fn end_of_stream_closes_silently() {
    let mut engine = Engine::new(2, None);
    let reports = engine.run_connection(vec![TurnInput::EndOfStream]);
    assert_eq!(reports.len(), 1);
    assert_eq!(reports[0], TurnReport { sent: None, proceed: false, stats_fired: false });
}

#[test]
fn step_by_step_turn_walks_the_phases() {
    let mut engine = Engine::new(2, Some(String::from("192.168.1.5:9000")));
    assert_eq!(engine.phase, Phase::Idle);

    let mut ctx = engine.begin_turn();
    assert_eq!(engine.phase, Phase::Decoding);
    assert_eq!(ctx.peer.as_deref(), Some("192.168.1.5:9000"));

    let step = engine.on_decode(&mut ctx, DecodeOutcome::Frame(call("sum", 21, b"1+1")));
    assert_eq!(engine.phase, Phase::Processing);
    let payload = match step {
        DecodeStep::Invoke { payload } => payload,
        _ => panic!("a frame must reach the handler"),
    };
    assert_eq!(payload, b"1+1".to_vec());
    assert_eq!(ctx.method.as_deref(), Some("sum"));
    assert_eq!(ctx.req_kind, Some(MessageKind::Call));
    assert_eq!(ctx.seq_id, Some(21));

    let hstep = engine.on_handler_result(&mut ctx, Ok(b"2".to_vec()), 100, 140, false);
    assert_eq!(engine.phase, Phase::Encoding);
    assert_eq!(ctx.started_at, Some(100));
    assert_eq!(ctx.ended_at, Some(140));
    assert_eq!(ctx.resp_kind, Some(MessageKind::Reply));
    let frame = match hstep {
        HandlerStep::Encode { frame } => frame,
        _ => panic!("a two-way call must be encoded"),
    };
    assert_eq!(frame.kind, MessageKind::Reply);
    assert_eq!(frame.seq_id, 21);
    assert_eq!(frame.payload, Payload::Entry(b"2".to_vec()));

    let estep = engine.on_encode_result(&ctx, true);
    assert_eq!(engine.phase, Phase::Recycling);
    assert!(matches!(estep, EncodeStep::Complete));

    engine.scope.insert(String::from("span"), String::from("sum#21"));
    engine.finish_turn(ctx);
    assert_eq!(engine.phase, Phase::Idle);
    assert_eq!(engine.scope.len(), 0, "metadata is cleared before the next turn");
    assert_eq!(engine.pool.len(), 1, "the finished context was recycled");
}

#[test]
fn wire_output_interleaves_only_two_way_replies() {
    let mut engine = Engine::new(2, None);
    let script = vec![
        ok_request(call("a", 1, b"x"), b"ra"),
        ok_request(one_way("notify", 2), b"ignored"),
        ok_request(call("b", 3, b"y"), b"rb"),
        TurnInput::EndOfStream,
    ];
    let reports = engine.run_connection(script);
    assert_eq!(reports.len(), 4);
    let wire = wire_output(reports);
    // the one-way turn and the end of stream leave no frame behind
    assert_eq!(wire.len(), 2);
    assert_eq!((wire[0].method.as_str(), wire[0].seq_id), ("a", 1));
    assert_eq!((wire[1].method.as_str(), wire[1].seq_id), ("b", 3));
}

#[test]
fn empty_script_takes_no_turn() {
    let mut engine = Engine::new(2, None);
    let reports = engine.run_connection(Vec::new());
    assert!(reports.is_empty());
    assert_eq!(engine.phase, Phase::Idle);
}

#[test]
fn empty_method_and_payload_still_answered() {
    let mut engine = Engine::new(2, None);
    let input = ok_request(call("", 0, b""), b"");
    let reports = engine.run_connection(vec![input]);
    let out = frames(&reports);
    assert_eq!(out.len(), 1);
    assert_eq!(out[0].method, "");
    assert_eq!(out[0].seq_id, 0);
    assert_eq!(out[0].kind, MessageKind::Reply);
    assert_eq!(out[0].payload, Payload::Entry(Vec::new()));
}

#[test]
fn cancellation_at_decode_race_is_terminal() {
    let mut engine = Engine::new(2, None);
    let mut ctx = engine.begin_turn();
    let step = engine.on_decode(&mut ctx, DecodeOutcome::Cancelled);
    assert!(matches!(step, DecodeStep::CloseSilent));
    assert_eq!(engine.phase, Phase::Terminating);
}

#[test]
fn one_way_under_shutdown_closes_without_output() {
    let mut engine = Engine::new(2, None);
    let mut ctx = engine.begin_turn();
    let step = engine.on_decode(&mut ctx, DecodeOutcome::Frame(one_way("notify", 6)));
    assert!(matches!(step, DecodeStep::Invoke { .. }));
    let hstep = engine.on_handler_result(&mut ctx, Ok(Vec::new()), 1, 2, true);
    assert!(matches!(hstep, HandlerStep::CloseSilent));
    assert_eq!(engine.phase, Phase::Terminating);
    assert!(ctx.conn_reset);
    assert!(ctx.transport_reset);
}
