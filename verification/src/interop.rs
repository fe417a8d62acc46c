//! The gRPC interop tests: the messages they exchange, what the test server
//! answers, and how the test client judges what it receives.
use vstd::prelude::*;

use crate::examples::{client_payload, Payload};
use crate::names::{ascii_lower, chars_vec, push_all, str_eq, string_of, to_ascii_lowercase};
use crate::status::{code_of_number, Code};

verus! {

/// The size of the payload that the large unary test sends.
pub const LARGE_REQ_SIZE: usize = 271828;

/// The size of the payload that the large unary test asks for.
pub const LARGE_RSP_SIZE: i32 = 314159;

/// The sizes of the payloads that the client sends in the streaming tests.
pub open spec fn request_lengths() -> Seq<i32> {
    seq![27182i32, 8i32, 1828i32, 45904i32]
}

/// The sizes of the payloads that the client asks for in the streaming
/// tests.
pub open spec fn response_lengths() -> Seq<i32> {
    seq![31415i32, 9i32, 2653i32, 58979i32]
}

/// The size of the `idx`th payload that the client sends.
pub fn request_length(idx: usize) -> (r: i32)
    requires
        idx < 4,
    ensures
        r == request_lengths()[idx as int],
{
    if idx == 0 {
        27182
    } else if idx == 1 {
        8
    } else if idx == 2 {
        1828
    } else {
        45904
    }
}

/// The size of the `idx`th payload that the client asks for.
pub fn response_length_at(idx: usize) -> (r: i32)
    requires
        idx < 4,
    ensures
        r == response_lengths()[idx as int],
{
    if idx == 0 {
        31415
    } else if idx == 1 {
        9
    } else if idx == 2 {
        2653
    } else {
        58979
    }
}

/// The sizes of the payloads that the client asks for, in order.
pub fn expected_response_lengths() -> (r: Vec<i32>)
    ensures
        r@ == response_lengths(),
{
    let mut r: Vec<i32> = Vec::new();
    r.push(31415);
    r.push(9);
    r.push(2653);
    r.push(58979);
    assert(r@ =~= response_lengths());
    r
}

/// The status that a request asks the server to answer with.
pub struct EchoStatus {
    /// The number of the status code.
    pub code: i32,
    /// The status message.
    pub message: String,
}

/// The size of one response that a request asks for.
pub struct ResponseParameters {
    /// The payload size, in bytes.
    pub size: i32,
}

impl ResponseParameters {
    /// Parameters that ask for a payload of `size` bytes.
    pub fn with_size(size: i32) -> (r: ResponseParameters)
        ensures
            r.size == size,
    {
        ResponseParameters { size }
    }
}

/// A unary request.
pub struct SimpleRequest {
    /// The payload type asked for.
    pub response_type: i32,
    /// The size of the payload asked for.
    pub response_size: i32,
    /// The payload sent.
    pub payload: Option<Payload>,
    /// The status the server is asked to answer with instead.
    pub response_status: Option<EchoStatus>,
}

/// A unary response.
pub struct SimpleResponse {
    /// The payload.
    pub payload: Option<Payload>,
}

/// A request of a call whose server streams.
pub struct StreamingOutputCallRequest {
    /// One entry for each response asked for.
    pub response_parameters: Vec<ResponseParameters>,
    /// The payload sent.
    pub payload: Option<Payload>,
    /// The status the server is asked to answer with instead.
    pub response_status: Option<EchoStatus>,
}

/// A response of a call whose server streams.
pub struct StreamingOutputCallResponse {
    /// The payload.
    pub payload: Option<Payload>,
}

/// A request of a call whose client streams.
pub struct StreamingInputCallRequest {
    /// The payload sent.
    pub payload: Option<Payload>,
}

/// The response of a call whose client streams.
pub struct StreamingInputCallResponse {
    /// The total size of the payloads the server received.
    pub aggregated_payload_size: i32,
}

/// The size of a payload as the tests count it: its length, `0` where
/// there is none, as a 32-bit number.
pub open spec fn payload_length(p: Option<Payload>) -> i32 {
    match p {
        Some(p) => p.body@.len() as i32,
        None => 0,
    }
}

/// The payload size of a streamed response.
pub fn response_length(response: &StreamingOutputCallResponse) -> (r: i32)
    ensures
        r == payload_length(response.payload),
{
    match &response.payload {
        Some(p) => p.body.len() as i32,
        None => 0,
    }
}

/// The payload sizes of streamed responses, in order.
pub open spec fn lengths_of(responses: Seq<StreamingOutputCallResponse>) -> Seq<i32> {
    Seq::new(responses.len(), |i: int| payload_length(responses[i].payload))
}

/// The payload sizes of streamed responses, in order.
pub fn response_lengths_of(responses: &Vec<StreamingOutputCallResponse>) -> (r: Vec<i32>)
    ensures
        r@ == lengths_of(responses@),
{
    let mut r: Vec<i32> = Vec::new();
    let mut i: usize = 0;
    while i < responses.len()
        invariant
            i <= responses@.len(),
            r@ == lengths_of(responses@).take(i as int),
        decreases responses@.len() - i,
    {
        let l = response_length(&responses[i]);
        r.push(l);
        i = i + 1;
        assert(r@ =~= lengths_of(responses@).take(i as int));
    }
    assert(r@ =~= lengths_of(responses@));
    r
}

/// A payload of `size` zero bytes, of the default type.
pub open spec fn is_zero_payload(p: Payload, size: nat) -> bool {
    &&& p.type_ == 0
    &&& p.body@ == Seq::new(size, |i: int| 0u8)
}

/// The request of the `idx`th exchange of the ping-pong test: it sends the
/// `idx`th request payload and asks for one response of the `idx`th
/// response size.
pub fn make_ping_pong_request(idx: usize) -> (r: StreamingOutputCallRequest)
    requires
        idx < 4,
    ensures
        r.response_parameters@.len() == 1,
        r.response_parameters@[0].size == response_lengths()[idx as int],
        r.payload matches Some(p) && is_zero_payload(p, request_lengths()[idx as int] as nat),
        r.response_status is None,
{
    let req_len = request_length(idx);
    let resp_len = response_length_at(idx);
    let mut params: Vec<ResponseParameters> = Vec::new();
    params.push(ResponseParameters::with_size(resp_len));
    StreamingOutputCallRequest {
        response_parameters: params,
        payload: Some(client_payload(req_len as usize)),
        response_status: None,
    }
}

/// The request of the large unary test: a payload of `LARGE_REQ_SIZE`
/// bytes, asking for one of `LARGE_RSP_SIZE` bytes of the compressable
/// type.
pub fn large_unary_request() -> (r: SimpleRequest)
    ensures
        r.response_type == 0,
        r.response_size == LARGE_RSP_SIZE,
        r.payload matches Some(p) && is_zero_payload(p, LARGE_REQ_SIZE as nat),
        r.response_status is None,
{
    SimpleRequest {
        response_type: 0,
        response_size: LARGE_RSP_SIZE,
        payload: Some(client_payload(LARGE_REQ_SIZE)),
        response_status: None,
    }
}

/// The requests of the client streaming test: one for each request size,
/// in order.
pub fn client_streaming_requests() -> (r: Vec<StreamingInputCallRequest>)
    ensures
        r@.len() == 4,
        forall|i: int| 0 <= i < 4 ==> ((#[trigger] r@[i]).payload matches Some(p) && is_zero_payload(p, request_lengths()[i] as nat)),
{
    let mut r: Vec<StreamingInputCallRequest> = Vec::new();
    let mut i: usize = 0;
    while i < 4
        invariant
            i <= 4,
            r@.len() == i,
            forall|k: int| 0 <= k < i ==> ((#[trigger] r@[k]).payload matches Some(p) && is_zero_payload(p, request_lengths()[k] as nat)),
        decreases 4 - i,
    {
        let len = request_length(i);
        r.push(StreamingInputCallRequest { payload: Some(client_payload(len as usize)) });
        i = i + 1;
    }
    r
}

/// The request of the server streaming test: it asks for one response of
/// each response size, in order.
pub fn server_streaming_request() -> (r: StreamingOutputCallRequest)
    ensures
        r.response_parameters@.len() == 4,
        forall|i: int| 0 <= i < 4 ==> (#[trigger] r.response_parameters@[i]).size == response_lengths()[i],
        r.payload is None,
        r.response_status is None,
{
    let mut params: Vec<ResponseParameters> = Vec::new();
    let mut i: usize = 0;
    while i < 4
        invariant
            i <= 4,
            params@.len() == i,
            forall|k: int| 0 <= k < i ==> (#[trigger] params@[k]).size == response_lengths()[k],
        decreases 4 - i,
    {
        let len = response_length_at(i);
        params.push(ResponseParameters::with_size(len));
        i = i + 1;
    }
    StreamingOutputCallRequest { response_parameters: params, payload: None, response_status: None }
}

/// The message that the status test asks the server to answer with.
pub fn test_status_message() -> (r: &'static str)
    ensures
        r@ == "test status message"@,
{
    "test status message"
}

/// The message with whitespace and characters beyond ASCII that the
/// special status test asks the server to answer with.
pub fn special_test_status_message() -> (r: &'static str)
    ensures
        r@ == "\t\ntest with whitespace\r\nand Unicode BMP ☺ and non-BMP 😈\t\n"@,
{
    "\t\ntest with whitespace\r\nand Unicode BMP ☺ and non-BMP 😈\t\n"
}

/// A status to echo: code `2` (`Unknown`) with the given message.
fn echo_unknown(message: &str) -> (r: EchoStatus)
    ensures
        r.code == 2,
        r.message@ == message@,
{
    EchoStatus { code: 2, message: message.to_string() }
}

/// A unary request that asks the server to answer with the status `2`
/// (`Unknown`) and the given message.
pub fn echo_status_request(message: &str) -> (r: SimpleRequest)
    ensures
        r.response_status matches Some(s) && s.code == 2 && s.message@ == message@,
        r.response_type == 0,
        r.response_size == 0,
        r.payload is None,
{
    SimpleRequest { response_type: 0, response_size: 0, payload: None, response_status: Some(echo_unknown(message)) }
}

/// A streaming request that asks the server to answer with the status `2`
/// (`Unknown`) and the given message.
pub fn echo_status_stream_request(message: &str) -> (r: StreamingOutputCallRequest)
    ensures
        r.response_status matches Some(s) && s.code == 2 && s.message@ == message@,
        r.response_parameters@.len() == 0,
        r.payload is None,
{
    StreamingOutputCallRequest { response_parameters: Vec::new(), payload: None, response_status: Some(echo_unknown(message)) }
}

// ===== the test server =====

/// The message of the error for a negative response size.
pub open spec fn negative_size_message() -> Seq<char> {
    "response_size cannot be negative"@
}

/// What the test server answers to a unary request: the status the
/// request asks for, where it asks for one; else a payload of the size
/// asked for, of zero bytes; and `InvalidArgument` where that size is
/// negative.
pub fn unary_reply(req: &SimpleRequest) -> (r: Result<SimpleResponse, (Code, String)>)
    ensures
        req.response_status matches Some(s) ==> (r matches Err((c, m)) && c == code_of_number(s.code as int) && m@ == s.message@),
        req.response_status is None && req.response_size < 0 ==> (r matches Err((c, m)) && c == Code::InvalidArgument && m@ == negative_size_message()),
        req.response_status is None && req.response_size >= 0 ==> (r matches Ok(resp)
            && (resp.payload matches Some(p) && is_zero_payload(p, req.response_size as nat))),
{
    match &req.response_status {
        Some(s) => {
            return Err((Code::from_i32(s.code), s.message.clone()));
        },
        None => {},
    }
    if req.response_size >= 0 {
        Ok(SimpleResponse { payload: Some(client_payload(req.response_size as usize)) })
    } else {
        Err((Code::InvalidArgument, "response_size cannot be negative".to_string()))
    }
}

/// The responses answer the request: one for each entry of its
/// parameters, with a payload of zero bytes of the size asked for.
pub open spec fn duplex_answers(req: StreamingOutputCallRequest, resps: Seq<StreamingOutputCallResponse>) -> bool {
    &&& resps.len() == req.response_parameters@.len()
    &&& forall|i: int| 0 <= i < resps.len() ==> ((#[trigger] resps[i]).payload matches Some(p)
        && is_zero_payload(p, req.response_parameters@[i].size as nat))
}

/// What the test server answers to one request of a full duplex call: the
/// status the request asks for, where it asks for one; else one response
/// for each entry of its parameters, with a payload of the size asked for,
/// of zero bytes; and `InvalidArgument` where one of those sizes is
/// negative.
pub fn full_duplex_replies(req: &StreamingOutputCallRequest) -> (r: Result<Vec<StreamingOutputCallResponse>, (Code, String)>)
    ensures
        req.response_status matches Some(s) ==> (r matches Err((c, m)) && c == code_of_number(s.code as int) && m@ == s.message@),
        req.response_status is None && (exists|i: int| 0 <= i < req.response_parameters@.len() && (#[trigger] req.response_parameters@[i]).size < 0)
            ==> (r matches Err((c, m)) && c == Code::InvalidArgument && m@ == negative_size_message()),
        req.response_status is None && (forall|i: int| 0 <= i < req.response_parameters@.len() ==> (#[trigger] req.response_parameters@[i]).size >= 0)
            ==> (r matches Ok(resps) && duplex_answers(*req, resps@)),
{
    match &req.response_status {
        Some(s) => {
            return Err((Code::from_i32(s.code), s.message.clone()));
        },
        None => {},
    }
    let mut resps: Vec<StreamingOutputCallResponse> = Vec::new();
    let mut i: usize = 0;
    while i < req.response_parameters.len()
        invariant
            i <= req.response_parameters@.len(),
            req.response_status is None,
            forall|k: int| 0 <= k < i ==> (#[trigger] req.response_parameters@[k]).size >= 0,
            resps@.len() == i,
            forall|k: int| 0 <= k < i ==> ((#[trigger] resps@[k]).payload matches Some(p)
                && is_zero_payload(p, req.response_parameters@[k].size as nat)),
        decreases req.response_parameters@.len() - i,
    {
        let size = req.response_parameters[i].size;
        if size < 0 {
            return Err((Code::InvalidArgument, "response_size cannot be negative".to_string()));
        }
        resps.push(StreamingOutputCallResponse { payload: Some(client_payload(size as usize)) });
        i = i + 1;
    }
    Ok(resps)
}

/// What the test server answers to a method whose test it does not
/// support yet: `Unknown`, with a message that names the method.
pub fn not_supported_reply(method: &str) -> (r: (Code, String))
    ensures
        r.0 == Code::Unknown,
        r.1@ == "server test case is not supported yet: "@ + method@,
{
    let mut m = String::new();
    push_all(&mut m, "server test case is not supported yet: ");
    push_all(&mut m, method);
    (Code::Unknown, m)
}

/// What the test server answers to the method it does not implement.
pub fn unimplemented_call_reply() -> (r: (Code, String))
    ensures
        r.0 == Code::Unimplemented,
        r.1@ == "explicitly unimplemented_call"@,
{
    (Code::Unimplemented, "explicitly unimplemented_call".to_string())
}

// ===== the test client's judgements =====

/// The outcome of one check of a test.
pub enum TestAssertion {
    /// The check held.
    Passed {
        /// What was checked.
        description: &'static str,
    },
    /// The check did not hold.
    Failed {
        /// What was checked.
        description: &'static str,
        /// The condition that did not hold.
        expression: &'static str,
        /// What was seen instead, where it is known.
        why: Option<String>,
    },
    /// The check could not be made.
    Errored {
        /// What was to be checked.
        description: &'static str,
        /// What went wrong.
        error: String,
    },
}

/// The outcome of the check `description`: passed where the condition
/// `expression` holds, else failed with `why`.
pub open spec fn assertion_of(description: &'static str, holds: bool, expression: &'static str, why: Option<String>) -> TestAssertion {
    if holds {
        TestAssertion::Passed { description }
    } else {
        TestAssertion::Failed { description, expression, why }
    }
}

/// Checks a condition: passed where it holds, else failed with `why`.
pub fn test_assert(description: &'static str, holds: bool, expression: &'static str, why: Option<String>) -> (r: TestAssertion)
    ensures
        r == assertion_of(description, holds, expression, why),
{
    if holds {
        TestAssertion::Passed { description }
    } else {
        TestAssertion::Failed { description, expression, why }
    }
}

impl TestAssertion {
    /// Whether the check held.
    pub fn passed(&self) -> (r: bool)
        ensures
            r == (*self is Passed),
    {
        match self {
            TestAssertion::Passed { .. } => true,
            _ => false,
        }
    }
}

/// The line that reports a check: the mark and what was checked, and for a
/// failed check, on a second line, the condition and what was seen.
pub open spec fn assertion_text(a: TestAssertion, check: Seq<char>, cross: Seq<char>) -> Seq<char> {
    match a {
        TestAssertion::Passed { description } => check + " "@ + description@,
        TestAssertion::Failed { description, expression, why } => match why {
            Some(w) => cross + " "@ + description@ + "\n  in `"@ + expression@ + "`: "@ + w@,
            None => cross + " "@ + description@ + "\n  in `"@ + expression@ + "`"@,
        },
        TestAssertion::Errored { .. } => Seq::empty(),
    }
}

impl TestAssertion {
    /// The report of a check, with `check` marking a passed one and `cross`
    /// a failed one. A check that could not be made has no report.
    pub fn to_text(&self, check: &str, cross: &str) -> (r: String)
        requires
            !(*self is Errored),
        ensures
            r@ == assertion_text(*self, check@, cross@),
    {
        let mut r = String::new();
        match self {
            TestAssertion::Passed { description } => {
                push_all(&mut r, check);
                push_all(&mut r, " ");
                push_all(&mut r, description);
            },
            TestAssertion::Failed { description, expression, why } => {
                push_all(&mut r, cross);
                push_all(&mut r, " ");
                push_all(&mut r, description);
                push_all(&mut r, "\n  in `");
                push_all(&mut r, expression);
                match why {
                    Some(w) => {
                        push_all(&mut r, "`: ");
                        push_all(&mut r, w.as_str());
                    },
                    None => {
                        push_all(&mut r, "`");
                    },
                }
            },
            TestAssertion::Errored { .. } => {},
        }
        assert(r@ =~= assertion_text(*self, check@, cross@));
        r
    }
}

/// The check that a call succeeded.
pub open spec fn call_assertion(ok: bool, why: String) -> TestAssertion {
    assertion_of("call must be successful", ok, "result.is_ok()", Some(why))
}

/// The check that a call succeeded, with `why` the call's result as text.
pub fn check_call(ok: bool, why: String) -> (r: TestAssertion)
    ensures
        r == call_assertion(ok, why),
{
    test_assert("call must be successful", ok, "result.is_ok()", Some(why))
}

/// Adds the check that a call succeeded to the checks made on its result:
/// after them where it succeeded, alone where it failed. `why` is the
/// result as text.
pub fn assert_success(result: Result<Vec<TestAssertion>, String>, why: String) -> (r: Vec<TestAssertion>)
    ensures
        match result {
            Ok(a) => r@ == a@.push(call_assertion(true, why)),
            Err(_) => r@ == seq![call_assertion(false, why)],
        },
{
    let ok = result.is_ok();
    let assertion = check_call(ok, why);
    match result {
        Ok(a) => {
            let mut a = a;
            a.push(assertion);
            a
        },
        Err(_) => {
            let mut r: Vec<TestAssertion> = Vec::new();
            r.push(assertion);
            assert(r@ =~= seq![call_assertion(false, why)]);
            r
        },
    }
}

/// The checks of the empty unary test: the call succeeded, and then its
/// (always empty) body was received.
pub fn empty_unary_assertions(ok: bool, why_call: String, why_body: String) -> (r: Vec<TestAssertion>)
    ensures
        ok ==> r@ == seq![call_assertion(true, why_call), assertion_of("body must not be null", true, "body == Empty {}", Some(why_body))],
        !ok ==> r@ == seq![call_assertion(false, why_call)],
{
    let mut r: Vec<TestAssertion> = Vec::new();
    r.push(check_call(ok, why_call));
    if ok {
        r.push(test_assert("body must not be null", true, "body == Empty {}", Some(why_body)));
    }
    r
}

/// The checks of the large unary test: the call succeeded, and the payload
/// received is `LARGE_RSP_SIZE` bytes long. `None` stands for a failed
/// call.
pub fn large_unary_assertions(response: Option<&SimpleResponse>, why_call: String, why_size: String) -> (r: Vec<TestAssertion>)
    ensures
        response is None ==> r@ == seq![call_assertion(false, why_call)],
        response matches Some(body) ==> r@ == seq![
            call_assertion(true, why_call),
            assertion_of("body must be 314159 bytes",
                match body.payload { Some(p) => p.body@.len() == LARGE_RSP_SIZE, None => 0 == LARGE_RSP_SIZE },
                "payload_len == LARGE_RSP_SIZE as usize", Some(why_size)),
        ],
{
    let mut r: Vec<TestAssertion> = Vec::new();
    r.push(check_call(response.is_some(), why_call));
    match response {
        Some(body) => {
            let payload_len: usize = match &body.payload {
                Some(p) => p.body.len(),
                None => 0,
            };
            r.push(test_assert("body must be 314159 bytes", payload_len == LARGE_RSP_SIZE as usize,
                "payload_len == LARGE_RSP_SIZE as usize", Some(why_size)));
        },
        None => {},
    }
    r
}

/// The checks of the client streaming test: the call succeeded, and the
/// server received all four payloads, 74922 bytes in all. `None` stands
/// for a failed call.
pub fn client_streaming_assertions(response: Option<&StreamingInputCallResponse>, why_call: String, why_size: String) -> (r: Vec<TestAssertion>)
    ensures
        response is None ==> r@ == seq![call_assertion(false, why_call)],
        response matches Some(resp) ==> r@ == seq![
            call_assertion(true, why_call),
            assertion_of("aggregated payload size must be 74922 bytes", resp.aggregated_payload_size == 74922,
                "response.aggregated_payload_size == 74922", Some(why_size)),
        ],
{
    let mut r: Vec<TestAssertion> = Vec::new();
    r.push(check_call(response.is_some(), why_call));
    match response {
        Some(resp) => {
            r.push(test_assert("aggregated payload size must be 74922 bytes", resp.aggregated_payload_size == 74922,
                "response.aggregated_payload_size == 74922", Some(why_size)));
        },
        None => {},
    }
    r
}

/// Whether two lists of sizes are equal.
pub fn same_lengths(a: &Vec<i32>, b: &Vec<i32>) -> (r: bool)
    ensures
        r == (a@ == b@),
{
    if a.len() != b.len() {
        return false;
    }
    let mut i: usize = 0;
    while i < a.len()
        invariant
            i <= a@.len(),
            a@.len() == b@.len(),
            a@.take(i as int) == b@.take(i as int),
        decreases a@.len() - i,
    {
        if a[i] != b[i] {
            assert(a@[i as int] != b@[i as int]);
            return false;
        }
        assert(a@.take(i as int + 1) =~= a@.take(i as int).push(a@[i as int]));
        assert(b@.take(i as int + 1) =~= b@.take(i as int).push(b@[i as int]));
        i = i + 1;
    }
    assert(a@.take(a@.len() as int) =~= a@);
    assert(b@.take(b@.len() as int) =~= b@);
    true
}

/// The checks of a finished exchange of streamed responses: four of them,
/// with the payload sizes asked for.
pub open spec fn four_responses_assertions(lengths: Seq<i32>, count_expression: &'static str, why_count: String, why_lengths: String) -> Seq<TestAssertion> {
    seq![
        assertion_of("there should be four responses", lengths.len() == 4, count_expression, Some(why_count)),
        assertion_of("the response payload sizes should match input", response_lengths() == lengths,
            "RESPONSE_LENGTHS == actual_response_lengths.as_slice()", Some(why_lengths)),
    ]
}

/// The checks on the responses of the server streaming test: four of
/// them, with the payload sizes asked for.
pub fn server_streaming_assertions(responses: &Vec<StreamingOutputCallResponse>, why_count: String, why_lengths: String) -> (r: Vec<TestAssertion>)
    ensures
        r@ == four_responses_assertions(lengths_of(responses@), "responses.len() == 4", why_count, why_lengths),
{
    let lengths = response_lengths_of(responses);
    let expected = expected_response_lengths();
    let mut r: Vec<TestAssertion> = Vec::new();
    r.push(test_assert("there should be four responses", responses.len() == 4, "responses.len() == 4", Some(why_count)));
    let same = same_lengths(&expected, &lengths);
    r.push(test_assert("the response payload sizes should match input", same,
        "RESPONSE_LENGTHS == actual_response_lengths.as_slice()", Some(why_lengths)));
    assert(r@ =~= four_responses_assertions(lengths_of(responses@), "responses.len() == 4", why_count, why_lengths));
    r
}

/// The check of the empty stream test: no response came.
pub fn empty_stream_assertions(count: usize, why: String) -> (r: Vec<TestAssertion>)
    ensures
        r@ == seq![assertion_of("there should be no responses", count == 0, "responses.len() == 0", Some(why))],
{
    let mut r: Vec<TestAssertion> = Vec::new();
    r.push(test_assert("there should be no responses", count == 0, "responses.len() == 0", Some(why)));
    assert(r@ =~= seq![assertion_of("there should be no responses", count == 0, "responses.len() == 0", Some(why))]);
    r
}

/// The message a status test asks for: the special one, with whitespace
/// and characters beyond ASCII, or the plain one.
pub open spec fn expected_status_message(special: bool) -> Seq<char> {
    if special {
        "\t\ntest with whitespace\r\nand Unicode BMP ☺ and non-BMP 😈\t\n"@
    } else {
        "test status message"@
    }
}

/// The checks of a status test on a call that was asked to fail with
/// `Unknown` and the test's message: it failed with that code, and with
/// that message. `Ok` stands for a call that succeeded.
pub open spec fn status_assertions_of(result: Result<(), (Code, String)>, special: bool, why: String) -> Seq<TestAssertion> {
    seq![
        assertion_of("call must fail with unknown status code",
            match result { Err((c, _)) => c == Code::Unknown, Ok(_) => false },
            "match &result { Err(status) => status.code() == tower_grpc::Code::Unknown, _ => false }", Some(why)),
        assertion_of("call must repsond with expected status message",
            match result { Err((_, m)) => m@ == expected_status_message(special), Ok(_) => false },
            if special {
                "match &result { Err(status) => status.message() == SPECIAL_TEST_STATUS_MESSAGE, _ => false }"
            } else {
                "match &result { Err(status) => status.message() == TEST_STATUS_MESSAGE, _ => false }"
            },
            Some(why)),
    ]
}

/// The checks of a status test (the special one, or the plain one) on a
/// call that was asked to fail with `Unknown` and the test's message. `Ok`
/// stands for a call that succeeded; `why` is the result as text.
pub fn status_assertions(result: &Result<(), (Code, String)>, special: bool, why: String) -> (r: Vec<TestAssertion>)
    ensures
        r@ == status_assertions_of(*result, special, why),
{
    let expected = if special { special_test_status_message() } else { test_status_message() };
    let (code_ok, message_ok) = match result {
        Err((c, m)) => (*c == Code::Unknown, str_eq(m.as_str(), expected)),
        Ok(_) => (false, false),
    };
    let expression = if special {
        "match &result { Err(status) => status.message() == SPECIAL_TEST_STATUS_MESSAGE, _ => false }"
    } else {
        "match &result { Err(status) => status.message() == TEST_STATUS_MESSAGE, _ => false }"
    };
    let mut r: Vec<TestAssertion> = Vec::new();
    r.push(test_assert("call must fail with unknown status code", code_ok,
        "match &result { Err(status) => status.code() == tower_grpc::Code::Unknown, _ => false }", Some(why.clone())));
    r.push(test_assert("call must repsond with expected status message", message_ok, expression, Some(why)));
    assert(r@ =~= status_assertions_of(*result, special, why));
    r
}

/// The check on a call of a method that is not implemented: it failed with
/// `Unimplemented`. `None` stands for a call that succeeded.
pub fn unimplemented_assertions(error_code: Option<Code>, why: String) -> (r: Vec<TestAssertion>)
    ensures
        r@ == seq![assertion_of("call must fail with unimplemented status code", error_code == Some(Code::Unimplemented),
            "match &result { Err(status) => status.code() == tower_grpc::Code::Unimplemented, _ => false }", Some(why))],
{
    let holds = match error_code {
        Some(c) => c == Code::Unimplemented,
        None => false,
    };
    let mut r: Vec<TestAssertion> = Vec::new();
    r.push(test_assert("call must fail with unimplemented status code", holds,
        "match &result { Err(status) => status.code() == tower_grpc::Code::Unimplemented, _ => false }", Some(why)));
    assert(r@ =~= seq![assertion_of("call must fail with unimplemented status code", error_code == Some(Code::Unimplemented),
        "match &result { Err(status) => status.code() == tower_grpc::Code::Unimplemented, _ => false }", Some(why))]);
    r
}

// ===== the ping-pong test =====

/// The request is the one of the `idx`th exchange of the ping-pong test.
pub open spec fn is_ping_pong_request(req: StreamingOutputCallRequest, idx: int) -> bool {
    &&& req.response_parameters@.len() == 1
    &&& req.response_parameters@[0].size == response_lengths()[idx]
    &&& req.payload matches Some(p) && is_zero_payload(p, request_lengths()[idx] as nat)
    &&& req.response_status is None
}

/// Where the ping-pong exchange stands.
#[derive(Clone, Copy, Debug, PartialEq, Eq, Structural)]
pub enum PingPongPhase {
    /// Requests are sent and answered one by one.
    Exchanging,
    /// All requests are answered and the client has closed its stream; the
    /// server is to end its own.
    Closing,
    /// The exchange is over.
    Done,
}

/// What the client does after a step of the ping-pong exchange.
pub enum PingPongAction {
    /// Send this request, then read the next response.
    Send(StreamingOutputCallRequest),
    /// Close the request stream, then read once more.
    Close,
    /// Stop: the exchange is over.
    Finish,
}

/// The client's side of the ping-pong test: the payload sizes of the
/// responses received, the checks made, and where the exchange stands.
pub struct PingPong {
    /// The payload sizes of the responses received, in order.
    pub lengths: Vec<i32>,
    /// The checks made so far.
    pub assertions: Vec<TestAssertion>,
    /// Where the exchange stands.
    pub phase: PingPongPhase,
}

/// The state of the exchange as plain values: sizes received, checks made,
/// and phase.
pub type PingPongView = (Seq<i32>, Seq<TestAssertion>, PingPongPhase);

impl PingPong {
    /// The state as plain values.
    pub open spec fn view_of(&self) -> PingPongView {
        (self.lengths@, self.assertions@, self.phase)
    }

    /// The state is one the exchange can be in: fewer than four responses
    /// while exchanging, four when closing.
    pub open spec fn wf(&self) -> bool {
        &&& self.phase == PingPongPhase::Exchanging ==> self.lengths@.len() < 4
        &&& self.phase == PingPongPhase::Closing ==> self.lengths@.len() == 4
    }
}

/// The check made when the server ends its stream before it has answered
/// every request.
pub open spec fn early_end_assertion() -> TestAssertion {
    TestAssertion::Failed {
        description: "server should keep the stream open until the client closes it",
        expression: "Stream terminated unexpectedly early",
        why: None,
    }
}

/// The check made after the client closed its stream: the server ended
/// its own.
pub open spec fn close_assertion(ended: bool, why: String) -> TestAssertion {
    assertion_of("server should close stream after client closes it.", ended, "resp.is_none()", Some(why))
}

/// One step of the exchange: what the state becomes when the next read
/// gives a response with a payload of size `next`, or `None` where the
/// server ended its stream. While exchanging, a response is recorded (the
/// fourth one moves on to closing) and an end is a failure; when closing,
/// the end is checked. `why` is the read's result as text.
pub open spec fn ping_pong_step(s: PingPongView, next: Option<i32>, why: String) -> PingPongView {
    match s.2 {
        PingPongPhase::Exchanging => match next {
            Some(n) => (s.0.push(n), s.1, if s.0.len() + 1 == 4 { PingPongPhase::Closing } else { PingPongPhase::Exchanging }),
            None => (s.0, s.1.push(early_end_assertion()), PingPongPhase::Done),
        },
        PingPongPhase::Closing => (s.0, s.1.push(close_assertion(next is None, why)), PingPongPhase::Done),
        PingPongPhase::Done => s,
    }
}

/// The steps of an exchange over the reads `events`, each with the same
/// `why`.
pub open spec fn ping_pong_run(s: PingPongView, events: Seq<Option<i32>>, why: String) -> PingPongView
    decreases events.len(),
{
    if events.len() == 0 {
        s
    } else {
        ping_pong_run(ping_pong_step(s, events[0], why), events.drop_first(), why)
    }
}

/// The checks of a finished exchange: those made during it, then that four
/// responses came with the sizes asked for.
pub open spec fn ping_pong_results(s: PingPongView, why_count: String, why_lengths: String) -> Seq<TestAssertion> {
    s.1 + four_responses_assertions(s.0, "responses.len() == RESPONSE_LENGTHS.len()", why_count, why_lengths)
}

/// The size of the payload of a response that was read.
pub open spec fn read_length(next: Option<&StreamingOutputCallResponse>) -> Option<i32> {
    match next {
        Some(r) => Some(payload_length(r.payload)),
        None => None,
    }
}

impl PingPong {
    /// The start of the exchange: nothing received, and the first request
    /// to send.
    pub fn start() -> (r: (PingPong, StreamingOutputCallRequest))
        ensures
            r.0.view_of() == (Seq::<i32>::empty(), Seq::<TestAssertion>::empty(), PingPongPhase::Exchanging),
            r.0.wf(),
            is_ping_pong_request(r.1, 0),
    {
        let state = PingPong { lengths: Vec::new(), assertions: Vec::new(), phase: PingPongPhase::Exchanging };
        (state, make_ping_pong_request(0))
    }

    /// Takes the result of a read (`None` where the server ended its
    /// stream) and says what to do next: send the request of the next
    /// exchange, close the request stream after the fourth response, or
    /// stop. `why` is the read's result as text.
    pub fn step(&mut self, next: Option<&StreamingOutputCallResponse>, why: String) -> (r: PingPongAction)
        requires
            old(self).wf(),
            old(self).phase != PingPongPhase::Done,
        ensures
            final(self).wf(),
            final(self).view_of() == ping_pong_step(old(self).view_of(), read_length(next), why),
            final(self).phase == PingPongPhase::Exchanging ==> (r matches PingPongAction::Send(req)
                && is_ping_pong_request(req, final(self).lengths@.len() as int)),
            final(self).phase == PingPongPhase::Closing ==> r is Close,
            final(self).phase == PingPongPhase::Done ==> r is Finish,
    {
        match self.phase {
            PingPongPhase::Exchanging => match next {
                Some(resp) => {
                    let l = response_length(resp);
                    self.lengths.push(l);
                    if self.lengths.len() == 4 {
                        self.phase = PingPongPhase::Closing;
                        PingPongAction::Close
                    } else {
                        let n = self.lengths.len();
                        PingPongAction::Send(make_ping_pong_request(n))
                    }
                },
                None => {
                    self.assertions.push(TestAssertion::Failed {
                        description: "server should keep the stream open until the client closes it",
                        expression: "Stream terminated unexpectedly early",
                        why: None,
                    });
                    self.phase = PingPongPhase::Done;
                    PingPongAction::Finish
                },
            },
            _ => {
                let a = test_assert("server should close stream after client closes it.", next.is_none(), "resp.is_none()", Some(why));
                self.assertions.push(a);
                self.phase = PingPongPhase::Done;
                PingPongAction::Finish
            },
        }
    }

    /// The checks of the exchange, once it is over: those made during it,
    /// then that four responses came with the sizes asked for.
    pub fn results(self, why_count: String, why_lengths: String) -> (r: Vec<TestAssertion>)
        ensures
            r@ == ping_pong_results(self.view_of(), why_count, why_lengths),
    {
        let expected = expected_response_lengths();
        let same = same_lengths(&expected, &self.lengths);
        let count_ok = self.lengths.len() == 4;
        let mut r = self.assertions;
        r.push(test_assert("there should be four responses", count_ok, "responses.len() == RESPONSE_LENGTHS.len()", Some(why_count)));
        r.push(test_assert("the response payload sizes should match input", same,
            "RESPONSE_LENGTHS == actual_response_lengths.as_slice()", Some(why_lengths)));
        r
    }
}

// ===== what holds between the test client and the test server =====

/// The test server answers the request of each exchange of the ping-pong
/// test with one response, whose payload has the size asked for.
pub proof fn lemma_server_answers_ping(req: StreamingOutputCallRequest, idx: int, resps: Seq<StreamingOutputCallResponse>)
    requires
        0 <= idx < 4,
        is_ping_pong_request(req, idx),
        duplex_answers(req, resps),
    ensures
        lengths_of(resps) == seq![response_lengths()[idx]],
{
    let p = resps[0].payload->0;
    assert(p.body@.len() == response_lengths()[idx] as nat);
    assert(payload_length(resps[0].payload) == response_lengths()[idx]);
    assert(lengths_of(resps) =~= seq![response_lengths()[idx]]);
}

/// A ping-pong exchange with a server that answers each request with a
/// payload of the size asked for, and ends its stream once the client has
/// closed its own, passes every check.
pub proof fn lemma_ping_pong_conforming_run(why: String, why_count: String, why_lengths: String)
    ensures
        ({
            let events = seq![
                Some(response_lengths()[0]),
                Some(response_lengths()[1]),
                Some(response_lengths()[2]),
                Some(response_lengths()[3]),
                None,
            ];
            let end = ping_pong_run((Seq::<i32>::empty(), Seq::<TestAssertion>::empty(), PingPongPhase::Exchanging), events, why);
            &&& end.2 == PingPongPhase::Done
            &&& end.0 == response_lengths()
            &&& forall|i: int| 0 <= i < ping_pong_results(end, why_count, why_lengths).len()
                ==> (#[trigger] ping_pong_results(end, why_count, why_lengths)[i]) is Passed
        }),
{
    let events: Seq<Option<i32>> = seq![
        Some(response_lengths()[0]),
        Some(response_lengths()[1]),
        Some(response_lengths()[2]),
        Some(response_lengths()[3]),
        None,
    ];
    let s0: PingPongView = (Seq::<i32>::empty(), Seq::<TestAssertion>::empty(), PingPongPhase::Exchanging);
    let s1 = ping_pong_step(s0, events[0], why);
    let s2 = ping_pong_step(s1, events[1], why);
    let s3 = ping_pong_step(s2, events[2], why);
    let s4 = ping_pong_step(s3, events[3], why);
    let s5 = ping_pong_step(s4, events[4], why);
    assert(events.drop_first().drop_first().drop_first().drop_first().drop_first() =~= Seq::<Option<i32>>::empty());
    assert(ping_pong_run(s5, Seq::<Option<i32>>::empty(), why) == s5);
    assert(events.drop_first().drop_first().drop_first().drop_first() =~= seq![events[4]]);
    assert(ping_pong_run(s4, seq![events[4]], why) == s5) by {
        assert(seq![events[4]].drop_first() =~= Seq::<Option<i32>>::empty());
    }
    assert(ping_pong_run(s3, events.drop_first().drop_first().drop_first(), why) == s5) by {
        assert(events.drop_first().drop_first().drop_first()[0] == events[3]);
    }
    assert(ping_pong_run(s2, events.drop_first().drop_first(), why) == s5) by {
        assert(events.drop_first().drop_first()[0] == events[2]);
    }
    assert(ping_pong_run(s1, events.drop_first(), why) == s5) by {
        assert(events.drop_first()[0] == events[1]);
    }
    assert(ping_pong_run(s0, events, why) == s5);
    assert(s5.0 =~= response_lengths());
    assert(s5.1 =~= seq![close_assertion(true, why)]);
    let results = ping_pong_results(s5, why_count, why_lengths);
    assert(results =~= seq![
        close_assertion(true, why),
        assertion_of("there should be four responses", true, "responses.len() == RESPONSE_LENGTHS.len()", Some(why_count)),
        assertion_of("the response payload sizes should match input", true,
            "RESPONSE_LENGTHS == actual_response_lengths.as_slice()", Some(why_lengths)),
    ]);
}

/// The client streaming test expects the server to have received, in all,
/// the bytes of the payloads the client sends.
pub proof fn lemma_aggregated_size_is_total_sent()
    ensures
        request_lengths()[0] + request_lengths()[1] + request_lengths()[2] + request_lengths()[3] == 74922,
{
}

/// The test server's answer to a request that asks for the status `2` and
/// a status test's message passes that test's checks.
pub proof fn lemma_echoed_status_passes(req: SimpleRequest, reply: Result<SimpleResponse, (Code, String)>, special: bool, why: String)
    requires
        req.response_status matches Some(s) && s.code == 2 && s.message@ == expected_status_message(special),
        req.response_status matches Some(s) ==> (reply matches Err((c, m)) && c == code_of_number(s.code as int) && m@ == s.message@),
    ensures
        ({
            let checks = status_assertions_of(
                match reply { Ok(_) => Ok(()), Err(e) => Err(e) },
                special,
                why,
            );
            forall|i: int| 0 <= i < checks.len() ==> (#[trigger] checks[i]) is Passed
        }),
{
}

/// The test server's answer to the large unary request passes the large
/// unary test.
pub proof fn lemma_large_unary_passes(req: SimpleRequest, resp: SimpleResponse, why_call: String, why_size: String)
    requires
        req.response_status is None,
        req.response_size == LARGE_RSP_SIZE,
        resp.payload matches Some(p) && is_zero_payload(p, req.response_size as nat),
    ensures
        (match resp.payload { Some(p) => p.body@.len() == LARGE_RSP_SIZE, None => 0 == LARGE_RSP_SIZE }),
{
}

// ===== the test cases =====

/// A test case of the interop client.
#[allow(non_camel_case_types)]
#[derive(Clone, Copy, Debug, PartialEq, Eq, Structural)]
pub enum Testcase {
    empty_unary,
    cacheable_unary,
    large_unary,
    client_compressed_unary,
    server_compressed_unary,
    client_streaming,
    client_compressed_streaming,
    server_streaming,
    server_compressed_streaming,
    ping_pong,
    empty_stream,
    compute_engine_creds,
    jwt_token_creds,
    oauth2_auth_token,
    per_rpc_creds,
    custom_metadata,
    status_code_and_message,
    special_status_message,
    unimplemented_method,
    unimplemented_service,
    cancel_after_begin,
    cancel_after_first_response,
    timeout_on_sleeping_server,
    concurrent_large_unary,
}

/// The name of a test case, as the command line gives it.
pub open spec fn testcase_name(t: Testcase) -> Seq<char> {
    match t {
        Testcase::empty_unary => "empty_unary"@,
        Testcase::cacheable_unary => "cacheable_unary"@,
        Testcase::large_unary => "large_unary"@,
        Testcase::client_compressed_unary => "client_compressed_unary"@,
        Testcase::server_compressed_unary => "server_compressed_unary"@,
        Testcase::client_streaming => "client_streaming"@,
        Testcase::client_compressed_streaming => "client_compressed_streaming"@,
        Testcase::server_streaming => "server_streaming"@,
        Testcase::server_compressed_streaming => "server_compressed_streaming"@,
        Testcase::ping_pong => "ping_pong"@,
        Testcase::empty_stream => "empty_stream"@,
        Testcase::compute_engine_creds => "compute_engine_creds"@,
        Testcase::jwt_token_creds => "jwt_token_creds"@,
        Testcase::oauth2_auth_token => "oauth2_auth_token"@,
        Testcase::per_rpc_creds => "per_rpc_creds"@,
        Testcase::custom_metadata => "custom_metadata"@,
        Testcase::status_code_and_message => "status_code_and_message"@,
        Testcase::special_status_message => "special_status_message"@,
        Testcase::unimplemented_method => "unimplemented_method"@,
        Testcase::unimplemented_service => "unimplemented_service"@,
        Testcase::cancel_after_begin => "cancel_after_begin"@,
        Testcase::cancel_after_first_response => "cancel_after_first_response"@,
        Testcase::timeout_on_sleeping_server => "timeout_on_sleeping_server"@,
        Testcase::concurrent_large_unary => "concurrent_large_unary"@,
    }
}

/// All test cases, in the order the command line lists them.
pub open spec fn all_testcases() -> Seq<Testcase> {
    seq![
        Testcase::empty_unary,
        Testcase::cacheable_unary,
        Testcase::large_unary,
        Testcase::client_compressed_unary,
        Testcase::server_compressed_unary,
        Testcase::client_streaming,
        Testcase::client_compressed_streaming,
        Testcase::server_streaming,
        Testcase::server_compressed_streaming,
        Testcase::ping_pong,
        Testcase::empty_stream,
        Testcase::compute_engine_creds,
        Testcase::jwt_token_creds,
        Testcase::oauth2_auth_token,
        Testcase::per_rpc_creds,
        Testcase::custom_metadata,
        Testcase::status_code_and_message,
        Testcase::special_status_message,
        Testcase::unimplemented_method,
        Testcase::unimplemented_service,
        Testcase::cancel_after_begin,
        Testcase::cancel_after_first_response,
        Testcase::timeout_on_sleeping_server,
        Testcase::concurrent_large_unary,
    ]
}

/// Every test case is listed.
pub proof fn lemma_all_testcases_listed(t: Testcase)
    ensures
        exists|i: int| 0 <= i < all_testcases().len() && all_testcases()[i] == t,
{
    match t {
        Testcase::empty_unary => assert(all_testcases()[0] == t),
        Testcase::cacheable_unary => assert(all_testcases()[1] == t),
        Testcase::large_unary => assert(all_testcases()[2] == t),
        Testcase::client_compressed_unary => assert(all_testcases()[3] == t),
        Testcase::server_compressed_unary => assert(all_testcases()[4] == t),
        Testcase::client_streaming => assert(all_testcases()[5] == t),
        Testcase::client_compressed_streaming => assert(all_testcases()[6] == t),
        Testcase::server_streaming => assert(all_testcases()[7] == t),
        Testcase::server_compressed_streaming => assert(all_testcases()[8] == t),
        Testcase::ping_pong => assert(all_testcases()[9] == t),
        Testcase::empty_stream => assert(all_testcases()[10] == t),
        Testcase::compute_engine_creds => assert(all_testcases()[11] == t),
        Testcase::jwt_token_creds => assert(all_testcases()[12] == t),
        Testcase::oauth2_auth_token => assert(all_testcases()[13] == t),
        Testcase::per_rpc_creds => assert(all_testcases()[14] == t),
        Testcase::custom_metadata => assert(all_testcases()[15] == t),
        Testcase::status_code_and_message => assert(all_testcases()[16] == t),
        Testcase::special_status_message => assert(all_testcases()[17] == t),
        Testcase::unimplemented_method => assert(all_testcases()[18] == t),
        Testcase::unimplemented_service => assert(all_testcases()[19] == t),
        Testcase::cancel_after_begin => assert(all_testcases()[20] == t),
        Testcase::cancel_after_first_response => assert(all_testcases()[21] == t),
        Testcase::timeout_on_sleeping_server => assert(all_testcases()[22] == t),
        Testcase::concurrent_large_unary => assert(all_testcases()[23] == t),
    }
}

/// Whether the client can run a test case, and if not, why.
#[derive(Clone, Copy, Debug, PartialEq, Eq, Structural)]
pub enum Support {
    /// The client runs it.
    Runs,
    /// It needs gRPC authorization, which the library does not have.
    NoAuthorization,
    /// It needs gRPC compression, which the library does not have.
    NoCompression,
    /// The client does not implement it.
    NotImplemented,
}

/// Whether the client can run a test case.
pub open spec fn support_of(t: Testcase) -> Support {
    match t {
        Testcase::empty_unary => Support::Runs,
        Testcase::cacheable_unary => Support::Runs,
        Testcase::large_unary => Support::Runs,
        Testcase::client_compressed_unary => Support::NoCompression,
        Testcase::server_compressed_unary => Support::NoCompression,
        Testcase::client_streaming => Support::Runs,
        Testcase::client_compressed_streaming => Support::NoCompression,
        Testcase::server_streaming => Support::Runs,
        Testcase::server_compressed_streaming => Support::NoCompression,
        Testcase::ping_pong => Support::Runs,
        Testcase::empty_stream => Support::Runs,
        Testcase::compute_engine_creds => Support::NoAuthorization,
        Testcase::jwt_token_creds => Support::NoAuthorization,
        Testcase::oauth2_auth_token => Support::NoAuthorization,
        Testcase::per_rpc_creds => Support::NoAuthorization,
        Testcase::custom_metadata => Support::NotImplemented,
        Testcase::status_code_and_message => Support::Runs,
        Testcase::special_status_message => Support::Runs,
        Testcase::unimplemented_method => Support::Runs,
        Testcase::unimplemented_service => Support::Runs,
        Testcase::cancel_after_begin => Support::NotImplemented,
        Testcase::cancel_after_first_response => Support::NotImplemented,
        Testcase::timeout_on_sleeping_server => Support::NotImplemented,
        Testcase::concurrent_large_unary => Support::NotImplemented,
    }
}

/// ASCII lower-casing of every character.
pub open spec fn lower_chars(s: Seq<char>) -> Seq<char> {
    Seq::new(s.len(), |i: int| ascii_lower(s[i]))
}

/// The message for a name that is no test case: the valid names.
pub open spec fn invalid_testcase_message() -> Seq<char> {
    "valid values: "@ + joined_names(all_testcases())
}

/// The names of test cases, separated by `" ,"`.
pub open spec fn joined_names(ts: Seq<Testcase>) -> Seq<char>
    decreases ts.len(),
{
    if ts.len() == 0 {
        Seq::empty()
    } else if ts.len() == 1 {
        testcase_name(ts[0])
    } else {
        joined_names(ts.drop_last()) + " ,"@ + testcase_name(ts.last())
    }
}

/// The message with which a test case that the client cannot run stops.
pub open spec fn unsupported_message_of(t: Testcase) -> Option<Seq<char>> {
    match support_of(t) {
        Support::Runs => None,
        Support::NoAuthorization => Some("test case unimplemented: tower-grpc does not currently support gRPC authorization."@),
        Support::NoCompression => Some("test case unimplemented: tower-grpc does not currently support gRPC compression."@),
        Support::NotImplemented => Some("test case unimplemented: "@ + testcase_name(t)),
    }
}

impl Testcase {
    /// The name of the test case.
    pub fn name(&self) -> (r: &'static str)
        ensures
            r@ == testcase_name(*self),
    {
        match self {
            Testcase::empty_unary => "empty_unary",
            Testcase::cacheable_unary => "cacheable_unary",
            Testcase::large_unary => "large_unary",
            Testcase::client_compressed_unary => "client_compressed_unary",
            Testcase::server_compressed_unary => "server_compressed_unary",
            Testcase::client_streaming => "client_streaming",
            Testcase::client_compressed_streaming => "client_compressed_streaming",
            Testcase::server_streaming => "server_streaming",
            Testcase::server_compressed_streaming => "server_compressed_streaming",
            Testcase::ping_pong => "ping_pong",
            Testcase::empty_stream => "empty_stream",
            Testcase::compute_engine_creds => "compute_engine_creds",
            Testcase::jwt_token_creds => "jwt_token_creds",
            Testcase::oauth2_auth_token => "oauth2_auth_token",
            Testcase::per_rpc_creds => "per_rpc_creds",
            Testcase::custom_metadata => "custom_metadata",
            Testcase::status_code_and_message => "status_code_and_message",
            Testcase::special_status_message => "special_status_message",
            Testcase::unimplemented_method => "unimplemented_method",
            Testcase::unimplemented_service => "unimplemented_service",
            Testcase::cancel_after_begin => "cancel_after_begin",
            Testcase::cancel_after_first_response => "cancel_after_first_response",
            Testcase::timeout_on_sleeping_server => "timeout_on_sleeping_server",
            Testcase::concurrent_large_unary => "concurrent_large_unary",
        }
    }

    /// All test cases, in order.
    pub fn all() -> (r: Vec<Testcase>)
        ensures
            r@ == all_testcases(),
    {
        let mut r: Vec<Testcase> = Vec::new();
        r.push(Testcase::empty_unary);
        r.push(Testcase::cacheable_unary);
        r.push(Testcase::large_unary);
        r.push(Testcase::client_compressed_unary);
        r.push(Testcase::server_compressed_unary);
        r.push(Testcase::client_streaming);
        r.push(Testcase::client_compressed_streaming);
        r.push(Testcase::server_streaming);
        r.push(Testcase::server_compressed_streaming);
        r.push(Testcase::ping_pong);
        r.push(Testcase::empty_stream);
        r.push(Testcase::compute_engine_creds);
        r.push(Testcase::jwt_token_creds);
        r.push(Testcase::oauth2_auth_token);
        r.push(Testcase::per_rpc_creds);
        r.push(Testcase::custom_metadata);
        r.push(Testcase::status_code_and_message);
        r.push(Testcase::special_status_message);
        r.push(Testcase::unimplemented_method);
        r.push(Testcase::unimplemented_service);
        r.push(Testcase::cancel_after_begin);
        r.push(Testcase::cancel_after_first_response);
        r.push(Testcase::timeout_on_sleeping_server);
        r.push(Testcase::concurrent_large_unary);
        assert(r@ =~= all_testcases());
        r
    }

    /// The names of all test cases, in order.
    pub fn variants() -> (r: Vec<&'static str>)
        ensures
            r@.len() == all_testcases().len(),
            forall|i: int| 0 <= i < r@.len() ==> (#[trigger] r@[i])@ == testcase_name(all_testcases()[i]),
    {
        let all = Testcase::all();
        let mut r: Vec<&'static str> = Vec::new();
        let mut i: usize = 0;
        while i < all.len()
            invariant
                i <= all@.len(),
                all@ == all_testcases(),
                r@.len() == i,
                forall|k: int| 0 <= k < i ==> (#[trigger] r@[k])@ == testcase_name(all_testcases()[k]),
            decreases all@.len() - i,
        {
            r.push(all[i].name());
            i = i + 1;
        }
        r
    }

    /// The test case with the given name, in any ASCII case; else an error
    /// that lists the valid names.
    pub fn from_name(s: &str) -> (r: Result<Testcase, String>)
        ensures
            r matches Ok(t) ==> testcase_name(t) == lower_chars(s@),
            r is Err <==> forall|t: Testcase| testcase_name(t) != lower_chars(s@),
            r matches Err(m) ==> m@ == invalid_testcase_message(),
    {
        let chars = chars_vec(s);
        let mut lowered: Vec<char> = Vec::new();
        let mut i: usize = 0;
        while i < chars.len()
            invariant
                i <= chars@.len(),
                chars@ == s@,
                lowered@ == lower_chars(s@).take(i as int),
            decreases chars@.len() - i,
        {
            lowered.push(to_ascii_lowercase(chars[i]));
            i = i + 1;
            assert(lowered@ =~= lower_chars(s@).take(i as int));
        }
        assert(lowered@ =~= lower_chars(s@));
        let lower = string_of(&lowered);
        let all = Testcase::all();
        let mut k: usize = 0;
        while k < all.len()
            invariant
                k <= all@.len(),
                all@ == all_testcases(),
                lower@ == lower_chars(s@),
                forall|j: int| 0 <= j < k ==> testcase_name(#[trigger] all_testcases()[j]) != lower_chars(s@),
            decreases all@.len() - k,
        {
            let t = all[k];
            if str_eq(t.name(), lower.as_str()) {
                return Ok(t);
            }
            k = k + 1;
        }
        assert forall|t: Testcase| testcase_name(t) != lower_chars(s@) by {
            lemma_all_testcases_listed(t);
        }
        Err(invalid_testcase_text())
    }

    /// Whether the client can run the test case.
    pub fn support(&self) -> (r: Support)
        ensures
            r == support_of(*self),
    {
        match self {
            Testcase::empty_unary => Support::Runs,
            Testcase::cacheable_unary => Support::Runs,
            Testcase::large_unary => Support::Runs,
            Testcase::client_compressed_unary => Support::NoCompression,
            Testcase::server_compressed_unary => Support::NoCompression,
            Testcase::client_streaming => Support::Runs,
            Testcase::client_compressed_streaming => Support::NoCompression,
            Testcase::server_streaming => Support::Runs,
            Testcase::server_compressed_streaming => Support::NoCompression,
            Testcase::ping_pong => Support::Runs,
            Testcase::empty_stream => Support::Runs,
            Testcase::compute_engine_creds => Support::NoAuthorization,
            Testcase::jwt_token_creds => Support::NoAuthorization,
            Testcase::oauth2_auth_token => Support::NoAuthorization,
            Testcase::per_rpc_creds => Support::NoAuthorization,
            Testcase::custom_metadata => Support::NotImplemented,
            Testcase::status_code_and_message => Support::Runs,
            Testcase::special_status_message => Support::Runs,
            Testcase::unimplemented_method => Support::Runs,
            Testcase::unimplemented_service => Support::Runs,
            Testcase::cancel_after_begin => Support::NotImplemented,
            Testcase::cancel_after_first_response => Support::NotImplemented,
            Testcase::timeout_on_sleeping_server => Support::NotImplemented,
            Testcase::concurrent_large_unary => Support::NotImplemented,
        }
    }

    /// The message with which the client stops on a test case it cannot
    /// run; `None` for one it runs.
    pub fn unsupported_message(&self) -> (r: Option<String>)
        ensures
            match unsupported_message_of(*self) {
                Some(m) => r matches Some(t) && t@ == m,
                None => r is None,
            },
    {
        match self.support() {
            Support::Runs => None,
            Support::NoAuthorization => Some("test case unimplemented: tower-grpc does not currently support gRPC authorization.".to_string()),
            Support::NoCompression => Some("test case unimplemented: tower-grpc does not currently support gRPC compression.".to_string()),
            Support::NotImplemented => {
                let mut m = String::new();
                push_all(&mut m, "test case unimplemented: ");
                push_all(&mut m, self.name());
                Some(m)
            },
        }
    }
}

/// The message for a name that is no test case.
fn invalid_testcase_text() -> (r: String)
    ensures
        r@ == invalid_testcase_message(),
{
    let all = Testcase::all();
    let mut r = String::new();
    push_all(&mut r, "valid values: ");
    let mut i: usize = 0;
    while i < all.len()
        invariant
            i <= all@.len(),
            all@ == all_testcases(),
            r@ == "valid values: "@ + joined_names(all_testcases().take(i as int)),
        decreases all@.len() - i,
    {
        let ghost before = r@;
        if i > 0 {
            push_all(&mut r, " ,");
        }
        push_all(&mut r, all[i].name());
        proof {
            let t = all_testcases().take(i as int + 1);
            assert(t.drop_last() =~= all_testcases().take(i as int));
            assert(t.last() == all_testcases()[i as int]);
            if i == 0 {
                assert(joined_names(t) == testcase_name(t[0]));
                assert(joined_names(all_testcases().take(0)) == Seq::<char>::empty());
            }
            assert(r@ =~= "valid values: "@ + joined_names(t));
        }
        i = i + 1;
    }
    assert(all_testcases().take(all_testcases().len() as int) =~= all_testcases());
    r
}


/// The name of a test case is in lower case, and names no other test case:
/// parsing the name of a test case gives that test case back.
pub proof fn lemma_testcase_name_parses_back(t: Testcase, u: Testcase)
    ensures
        lower_chars(testcase_name(t)) == testcase_name(t),
        testcase_name(u) == lower_chars(testcase_name(t)) ==> u == t,
{
    reveal_strlit("empty_unary");
    reveal_strlit("cacheable_unary");
    reveal_strlit("large_unary");
    reveal_strlit("client_compressed_unary");
    reveal_strlit("server_compressed_unary");
    reveal_strlit("client_streaming");
    reveal_strlit("client_compressed_streaming");
    reveal_strlit("server_streaming");
    reveal_strlit("server_compressed_streaming");
    reveal_strlit("ping_pong");
    reveal_strlit("empty_stream");
    reveal_strlit("compute_engine_creds");
    reveal_strlit("jwt_token_creds");
    reveal_strlit("oauth2_auth_token");
    reveal_strlit("per_rpc_creds");
    reveal_strlit("custom_metadata");
    reveal_strlit("status_code_and_message");
    reveal_strlit("special_status_message");
    reveal_strlit("unimplemented_method");
    reveal_strlit("unimplemented_service");
    reveal_strlit("cancel_after_begin");
    reveal_strlit("cancel_after_first_response");
    reveal_strlit("timeout_on_sleeping_server");
    reveal_strlit("concurrent_large_unary");
    assert(lower_chars(testcase_name(t)) =~= testcase_name(t));
    assert(testcase_name(Testcase::empty_unary)[0] != testcase_name(Testcase::large_unary)[0]);
    assert(testcase_name(Testcase::cacheable_unary)[0] != testcase_name(Testcase::jwt_token_creds)[0]);
    assert(testcase_name(Testcase::cacheable_unary)[1] != testcase_name(Testcase::custom_metadata)[1]);
    assert(testcase_name(Testcase::client_compressed_unary)[0] != testcase_name(Testcase::server_compressed_unary)[0]);
    assert(testcase_name(Testcase::client_compressed_unary)[0] != testcase_name(Testcase::status_code_and_message)[0]);
    assert(testcase_name(Testcase::server_compressed_unary)[1] != testcase_name(Testcase::status_code_and_message)[1]);
    assert(testcase_name(Testcase::client_streaming)[0] != testcase_name(Testcase::server_streaming)[0]);
    assert(testcase_name(Testcase::client_compressed_streaming)[0] != testcase_name(Testcase::server_compressed_streaming)[0]);
    assert(testcase_name(Testcase::client_compressed_streaming)[1] != testcase_name(Testcase::cancel_after_first_response)[1]);
    assert(testcase_name(Testcase::server_compressed_streaming)[0] != testcase_name(Testcase::cancel_after_first_response)[0]);
    assert(testcase_name(Testcase::compute_engine_creds)[0] != testcase_name(Testcase::unimplemented_method)[0]);
    assert(testcase_name(Testcase::jwt_token_creds)[0] != testcase_name(Testcase::custom_metadata)[0]);
    assert(testcase_name(Testcase::special_status_message)[0] != testcase_name(Testcase::concurrent_large_unary)[0]);
}

} // verus!
