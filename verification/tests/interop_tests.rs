use tower_grpc::examples::client_payload;
use tower_grpc::interop::{
    assert_success, client_streaming_assertions, client_streaming_requests, echo_status_request,
    echo_status_stream_request, empty_stream_assertions, empty_unary_assertions, full_duplex_replies,
    large_unary_assertions, large_unary_request, make_ping_pong_request, not_supported_reply,
    response_length, server_streaming_assertions, server_streaming_request, special_test_status_message,
    status_assertions, test_status_message, unary_reply, unimplemented_assertions, unimplemented_call_reply,
    PingPong, PingPongAction, PingPongPhase, ResponseParameters, SimpleRequest, StreamingInputCallResponse,
    StreamingOutputCallRequest, StreamingOutputCallResponse, Support, TestAssertion, Testcase,
    LARGE_REQ_SIZE, LARGE_RSP_SIZE,
};
use tower_grpc::status::Code;

fn response_of(size: usize) -> StreamingOutputCallResponse {
    StreamingOutputCallResponse { payload: Some(client_payload(size)) }
}

fn why() -> String {
    "result=...".to_string()
}

#[test]
fn ping_pong_requests_follow_the_tables() {
    let r = make_ping_pong_request(1);
    assert_eq!(r.response_parameters.len(), 1);
    assert_eq!(r.response_parameters[0].size, 9);
    assert_eq!(r.payload.as_ref().unwrap().body.len(), 8);
    let r = make_ping_pong_request(3);
    assert_eq!(r.response_parameters[0].size, 58979);
    assert_eq!(r.payload.as_ref().unwrap().body.len(), 45904);
    assert!(r.response_status.is_none());
}

#[test]
fn request_builders() {
    let big = large_unary_request();
    assert_eq!(big.response_size, LARGE_RSP_SIZE);
    assert_eq!(big.payload.as_ref().unwrap().body.len(), LARGE_REQ_SIZE);
    let sizes: Vec<usize> = client_streaming_requests()
        .iter()
        .map(|r| r.payload.as_ref().unwrap().body.len())
        .collect();
    assert_eq!(sizes, vec![27182, 8, 1828, 45904]);
    assert_eq!(sizes.iter().sum::<usize>(), 74922);
    let stream = server_streaming_request();
    let asked: Vec<i32> = stream.response_parameters.iter().map(|p| p.size).collect();
    assert_eq!(asked, vec![31415, 9, 2653, 58979]);
    let echo = echo_status_request(test_status_message());
    let s = echo.response_status.unwrap();
    assert_eq!(s.code, 2);
    assert_eq!(s.message, "test status message");
    let echo2 = echo_status_stream_request(special_test_status_message());
    assert_eq!(echo2.response_status.unwrap().message, "\t\ntest with whitespace\r\nand Unicode BMP ☺ and non-BMP 😈\t\n");
}

#[test]
fn server_unary_reply() {
    let ok = unary_reply(&SimpleRequest { response_type: 0, response_size: 3, payload: None, response_status: None });
    match ok {
        Ok(resp) => assert_eq!(resp.payload.unwrap().body, vec![0, 0, 0]),
        Err(_) => panic!("expected a payload"),
    }
    match unary_reply(&SimpleRequest { response_type: 0, response_size: -1, payload: None, response_status: None }) {
        Err((c, m)) => {
            assert_eq!(c, Code::InvalidArgument);
            assert_eq!(m, "response_size cannot be negative");
        }
        Ok(_) => panic!("expected an error"),
    }
    match unary_reply(&echo_status_request("boom")) {
        Err((c, m)) => {
            assert_eq!(c, Code::Unknown);
            assert_eq!(m, "boom");
        }
        Ok(_) => panic!("expected an error"),
    }
}

#[test]
fn server_full_duplex_replies() {
    let req = StreamingOutputCallRequest {
        response_parameters: vec![ResponseParameters::with_size(2), ResponseParameters::with_size(0)],
        payload: None,
        response_status: None,
    };
    let resps = full_duplex_replies(&req).ok().unwrap();
    let lens: Vec<i32> = resps.iter().map(response_length).collect();
    assert_eq!(lens, vec![2, 0]);
    let bad = StreamingOutputCallRequest {
        response_parameters: vec![ResponseParameters::with_size(2), ResponseParameters::with_size(-5)],
        payload: None,
        response_status: None,
    };
    match full_duplex_replies(&bad) {
        Err((c, _)) => assert_eq!(c, Code::InvalidArgument),
        Ok(_) => panic!("expected an error"),
    }
    let (c, m) = unimplemented_call_reply();
    assert_eq!(c, Code::Unimplemented);
    assert_eq!(m, "explicitly unimplemented_call");
    let (c, m) = not_supported_reply("half_duplex_call");
    assert_eq!(c, Code::Unknown);
    assert_eq!(m, "server test case is not supported yet: half_duplex_call");
}

#[test]
fn ping_pong_against_the_test_server_passes() {
    let (mut state, mut request) = PingPong::start();
    loop {
        let answers = full_duplex_replies(&request).ok().unwrap();
        assert_eq!(answers.len(), 1);
        match state.step(Some(&answers[0]), why()) {
            PingPongAction::Send(next) => request = next,
            PingPongAction::Close => break,
            PingPongAction::Finish => panic!("should not finish yet"),
        }
    }
    assert_eq!(state.phase, PingPongPhase::Closing);
    assert!(matches!(state.step(None, why()), PingPongAction::Finish));
    assert_eq!(state.lengths, vec![31415, 9, 2653, 58979]);
    let results = assert_success(Ok(state.results("4=4".to_string(), "same".to_string())), why());
    assert_eq!(results.len(), 4);
    assert!(results.iter().all(|a| a.passed()));
}

#[test]
fn ping_pong_failures() {
    let (mut state, _) = PingPong::start();
    assert!(matches!(state.step(Some(&response_of(31415)), why()), PingPongAction::Send(_)));
    assert!(matches!(state.step(None, why()), PingPongAction::Finish));
    let results = state.results("1=4".to_string(), "lengths".to_string());
    assert_eq!(results.len(), 3);
    assert!(results.iter().all(|a| !a.passed()));
    assert_eq!(
        results[0].to_text("+", "x"),
        "x server should keep the stream open until the client closes it\n  in `Stream terminated unexpectedly early`"
    );

    let (mut state, _) = PingPong::start();
    for n in [31415, 9, 2653, 58979] {
        state.step(Some(&response_of(n)), why());
    }
    assert!(matches!(state.step(Some(&response_of(1)), "resp=Some(..)".to_string()), PingPongAction::Finish));
    let results = state.results("4=4".to_string(), "same".to_string());
    assert!(!results[0].passed());
    assert_eq!(
        results[0].to_text("+", "x"),
        "x server should close stream after client closes it.\n  in `resp.is_none()`: resp=Some(..)"
    );
    assert!(results[1].passed());
    assert!(results[2].passed());
}

#[test]
fn call_checks() {
    let a = empty_unary_assertions(true, why(), "body=Empty".to_string());
    assert_eq!(a.len(), 2);
    assert!(a.iter().all(|x| x.passed()));
    let a = empty_unary_assertions(false, why(), "body".to_string());
    assert_eq!(a.len(), 1);
    assert!(!a[0].passed());

    let big = unary_reply(&large_unary_request()).ok().unwrap();
    let a = large_unary_assertions(Some(&big), why(), "size".to_string());
    assert_eq!(a.len(), 2);
    assert!(a.iter().all(|x| x.passed()));
    assert_eq!(a[1].to_text("+", "x"), "+ body must be 314159 bytes");
    assert_eq!(large_unary_assertions(None, why(), "size".to_string()).len(), 1);

    let a = client_streaming_assertions(Some(&StreamingInputCallResponse { aggregated_payload_size: 74922 }), why(), "s".to_string());
    assert!(a.iter().all(|x| x.passed()));
    let a = client_streaming_assertions(Some(&StreamingInputCallResponse { aggregated_payload_size: 7 }), why(), "s".to_string());
    assert!(!a[1].passed());

    let streamed: Vec<StreamingOutputCallResponse> = [31415, 9, 2653, 58979].iter().map(|n| response_of(*n)).collect();
    let a = server_streaming_assertions(&streamed, "4".to_string(), "same".to_string());
    assert!(a.iter().all(|x| x.passed()));
    let a = server_streaming_assertions(&streamed[..3].iter().map(|r| response_of(r.payload.as_ref().unwrap().body.len())).collect(), "3".to_string(), "x".to_string());
    assert!(!a[0].passed() && !a[1].passed());

    assert!(empty_stream_assertions(0, why())[0].passed());
    assert!(!empty_stream_assertions(2, why())[0].passed());

    assert!(unimplemented_assertions(Some(Code::Unimplemented), why())[0].passed());
    assert!(!unimplemented_assertions(None, why())[0].passed());
    assert!(!unimplemented_assertions(Some(Code::Unknown), why())[0].passed());
}

#[test]
fn status_checks_against_the_test_server() {
    let reply = unary_reply(&echo_status_request(test_status_message()));
    let result = match reply {
        Ok(_) => Ok(()),
        Err(e) => Err(e),
    };
    let a = status_assertions(&result, false, why());
    assert_eq!(a.len(), 2);
    assert!(a.iter().all(|x| x.passed()));
    let a = status_assertions(&result, true, why());
    assert!(a[0].passed());
    assert!(!a[1].passed());
    assert_eq!(
        a[1].to_text("+", "x"),
        "x call must repsond with expected status message\n  in `match &result { Err(status) => status.message() == SPECIAL_TEST_STATUS_MESSAGE, _ => false }`: result=..."
    );
    let special = unary_reply(&echo_status_request(special_test_status_message()));
    let special = match special {
        Ok(_) => Ok(()),
        Err(e) => Err(e),
    };
    assert!(status_assertions(&special, true, why()).iter().all(|x| x.passed()));
    let a = status_assertions(&Ok(()), false, why());
    assert!(!a[0].passed() && !a[1].passed());
}

#[test]
fn assert_success_adds_the_call_check() {
    let inner = vec![TestAssertion::Passed { description: "first" }];
    let r = assert_success(Ok(inner), why());
    assert_eq!(r.len(), 2);
    assert!(matches!(r[1], TestAssertion::Passed { description: "call must be successful" }));
    let r = assert_success(Err("boom".to_string()), "result=Err(boom)".to_string());
    assert_eq!(r.len(), 1);
    assert_eq!(r[0].to_text("+", "x"), "x call must be successful\n  in `result.is_ok()`: result=Err(boom)");
}

#[test]
fn testcase_names() {
    assert_eq!(Testcase::from_name("ping_pong").ok(), Some(Testcase::ping_pong));
    assert_eq!(Testcase::from_name("Large_Unary").ok(), Some(Testcase::large_unary));
    let err = Testcase::from_name("no_such_test").err().unwrap();
    assert!(err.starts_with("valid values: empty_unary ,cacheable_unary ,large_unary"));
    assert!(err.ends_with("timeout_on_sleeping_server ,concurrent_large_unary"));
    let names = Testcase::variants();
    assert_eq!(names.len(), 24);
    assert_eq!(names[9], "ping_pong");
    assert_eq!(Testcase::status_code_and_message.name(), "status_code_and_message");
    for t in Testcase::all() {
        assert_eq!(Testcase::from_name(t.name()).ok(), Some(t));
        assert_eq!(Testcase::from_name(&t.name().to_uppercase()).ok(), Some(t));
    }
}

#[test]
fn testcase_support() {
    assert_eq!(Testcase::empty_unary.support(), Support::Runs);
    assert!(Testcase::ping_pong.unsupported_message().is_none());
    assert_eq!(
        Testcase::jwt_token_creds.unsupported_message().unwrap(),
        "test case unimplemented: tower-grpc does not currently support gRPC authorization."
    );
    assert_eq!(
        Testcase::server_compressed_streaming.unsupported_message().unwrap(),
        "test case unimplemented: tower-grpc does not currently support gRPC compression."
    );
    assert_eq!(
        Testcase::custom_metadata.unsupported_message().unwrap(),
        "test case unimplemented: custom_metadata"
    );
}
