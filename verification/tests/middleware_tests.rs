use blog_api::context::get_request_context;
use blog_api::middleware::{
    header_value, run_chain, Request, Response, TraceEvent, Unit,
};
use blog_api::request_id::SharedData;

fn bare_request(headers: Vec<(String, String)>) -> Request {
    Request { headers, body: String::new(), context: None, shared: None }
}

fn ok_handler() -> impl Fn(Request) -> Response {
    |_req: Request| Response { status: 200, headers: Vec::new(), body: "ok".to_string() }
}

#[test]
fn onion_trace_reads_a_then_b_then_b_then_a() {
    let units = vec![Unit::Auth, Unit::RequestId("42".to_string())];
    let req = bare_request(vec![]);
    let result = run_chain(&units, req, ok_handler());
    assert!(!result.halted);
    assert_eq!(result.entered, 2);
    assert_eq!(
        result.trace,
        vec![
            TraceEvent::Request(0),
            TraceEvent::Request(1),
            TraceEvent::Handler,
            TraceEvent::Response(1),
            TraceEvent::Response(0),
        ]
    );
}

#[test]
fn auth_attaches_user_and_stamps_response() {
    let units = vec![Unit::Auth, Unit::RequestId("42".to_string())];
    let req = bare_request(vec![("authorization".to_string(), "token".to_string())]);
    let result = run_chain(&units, req, ok_handler());
    let names: Vec<(String, String)> = result.response.headers.clone();
    // the inner unit decorates first, the outer one last
    assert_eq!(names[0].0, "tower-Request-ID");
    assert_eq!(names[0].1, "42");
    assert_eq!(names[1].0, "axum-User-ID");
    assert_eq!(names[1].1, "123");
    assert_eq!(names[2].0, "axum-Username");
    assert_eq!(names[2].1, "test_user");
    assert_eq!(names[3].0, "axum-User-Role");
    assert_eq!(names[3].1, "admin");
    assert_eq!(result.response.status, 200);
    assert_eq!(result.response.body, "ok");
}

#[test]
fn auth_without_header_attaches_anonymous_context() {
    let units = vec![Unit::Auth];
    let req = bare_request(vec![]);
    // the handler reports what it saw through the response status
    let handler = |req: Request| {
        let authed = match &req.context {
            Some(ctx) => ctx.user_info.is_some(),
            None => panic!("auth must attach a context"),
        };
        Response {
            status: if authed { 299 } else { 298 },
            headers: Vec::new(),
            body: String::new(),
        }
    };
    let result = run_chain(&units, req, handler);
    assert_eq!(result.response.status, 298);
    // no user attached: the response gains no user headers
    assert!(result.response.headers.is_empty());
}

#[test]
fn require_header_short_circuits() {
    let units = vec![
        Unit::RequestId("7".to_string()),
        Unit::RequireHeader("x-api-key".to_string()),
    ];
    let req = bare_request(vec![]);
    let result = run_chain(&units, req, ok_handler());
    assert!(result.halted);
    assert_eq!(result.entered, 1);
    assert_eq!(result.response.status, 401);
    assert_eq!(result.response.body, "Unauthorized");
    // the declined unit's request phase still appears in the trace,
    // and the outer unit still decorates the response
    assert_eq!(
        result.trace,
        vec![TraceEvent::Request(0), TraceEvent::Request(1), TraceEvent::Response(0)]
    );
    assert_eq!(result.response.headers.len(), 1);
    assert_eq!(result.response.headers[0].0, "tower-Request-ID");
}

#[test]
fn require_header_forwards_when_present() {
    let units = vec![Unit::RequireHeader("x-api-key".to_string())];
    let req = bare_request(vec![("x-api-key".to_string(), "k".to_string())]);
    let result = run_chain(&units, req, ok_handler());
    assert!(!result.halted);
    assert_eq!(result.response.status, 200);
}

#[test]
fn log_authorization_unit_changes_nothing() {
    let units = vec![Unit::LogAuthorization];
    let req = bare_request(vec![("authorization".to_string(), "t".to_string())]);
    let result = run_chain(&units, req, ok_handler());
    assert_eq!(result.response.status, 200);
    assert!(result.response.headers.is_empty());
}

#[test]
fn header_value_finds_first_match() {
    let headers = vec![
        ("a".to_string(), "1".to_string()),
        ("b".to_string(), "2".to_string()),
        ("a".to_string(), "3".to_string()),
    ];
    assert_eq!(header_value(&headers, "a"), Some("1".to_string()));
    assert_eq!(header_value(&headers, "b"), Some("2".to_string()));
    assert_eq!(header_value(&headers, "c"), None);
}

#[test]
fn get_request_context_reads_extension_slot() {
    let req = bare_request(vec![]);
    assert!(get_request_context(&req).is_none());
    let units = vec![Unit::Auth];
    let handler = |req: Request| {
        let ctx = get_request_context(&req).expect("context attached");
        assert!(ctx.user_info.is_none());
        Response { status: 200, headers: Vec::new(), body: String::new() }
    };
    let result = run_chain(&units, bare_request(vec![]), handler);
    assert_eq!(result.response.status, 200);
}

#[test]
fn shared_data_new_is_a_decimal_request_id() {
    let data = SharedData::new();
    assert!(data.user_id.is_none());
    assert!(!data.request_id.is_empty());
    assert!(data.request_id.chars().all(|c| c.is_ascii_digit()));
}

#[test]
fn logging_layers_wrap_services() {
    let inner: u32 = 7;
    let layer = blog_api::logging::LoggingLayer::new();
    let _service = layer.layer(inner);
    let tower_layer = blog_api::request_id::LoggingLayer::new();
    let _tower_service = tower_layer.layer(inner);
}
