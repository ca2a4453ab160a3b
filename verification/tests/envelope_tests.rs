use blog_api::envelope::{parse_envelope, render_envelope};
use blog_api::response::ApiResponse;

fn chars_to_string(v: &[char]) -> String {
    v.iter().collect()
}

#[test]
fn render_success_envelope_exact_text() {
    let rendered = render_envelope(200, &"Success".to_string(), &None);
    assert_eq!(
        chars_to_string(&rendered),
        "{\"code\":200,\"message\":\"Success\",\"data\":null}"
    );
}

#[test]
fn render_envelope_with_data_exact_text() {
    let rendered = render_envelope(200, &"Success".to_string(), &Some("payload".to_string()));
    assert_eq!(
        chars_to_string(&rendered),
        "{\"code\":200,\"message\":\"Success\",\"data\":\"payload\"}"
    );
}

#[test]
fn render_escapes_quotes_and_backslashes() {
    let rendered = render_envelope(500, &"say \"hi\" \\ done".to_string(), &None);
    assert_eq!(
        chars_to_string(&rendered),
        "{\"code\":500,\"message\":\"say \\\"hi\\\" \\\\ done\",\"data\":null}"
    );
}

#[test]
fn envelope_round_trips_without_data() {
    let message = "say \"hi\" \\ done".to_string();
    let rendered = render_envelope(404, &message, &None);
    let parsed = parse_envelope(&rendered).expect("a rendered envelope must parse");
    assert_eq!(parsed.code, 404);
    assert_eq!(chars_to_string(&parsed.message), message);
    assert!(parsed.data.is_none());
}

#[test]
fn envelope_round_trips_with_data() {
    let message = "ok".to_string();
    let data = "a \"quoted\" \\ value".to_string();
    let rendered = render_envelope(200, &message, &Some(data.clone()));
    let parsed = parse_envelope(&rendered).expect("a rendered envelope must parse");
    assert_eq!(parsed.code, 200);
    assert_eq!(chars_to_string(&parsed.message), message);
    assert_eq!(chars_to_string(&parsed.data.unwrap()), data);
}

#[test]
fn envelope_round_trips_extreme_code() {
    let rendered = render_envelope(65535, &"".to_string(), &Some("".to_string()));
    let parsed = parse_envelope(&rendered).unwrap();
    assert_eq!(parsed.code, 65535);
    assert_eq!(parsed.message.len(), 0);
    assert_eq!(parsed.data.unwrap().len(), 0);
}

#[test]
fn parse_rejects_malformed_text() {
    let garbage: Vec<char> = "not an envelope".chars().collect();
    assert!(parse_envelope(&garbage).is_none());
    let truncated: Vec<char> = "{\"code\":200,\"message\":\"x\"".chars().collect();
    assert!(parse_envelope(&truncated).is_none());
    let huge_code: Vec<char> =
        "{\"code\":99999,\"message\":\"x\",\"data\":null}".chars().collect();
    assert!(parse_envelope(&huge_code).is_none());
}

#[test]
fn success_with_data_builds_200_envelope() {
    let env = ApiResponse::success_with_data(7u64);
    assert_eq!(env.code, 200);
    assert_eq!(env.message, "Success");
    assert_eq!(env.data, Some(7));
}

#[test]
fn success_with_message_has_no_data() {
    let env = ApiResponse::<String>::success_with_message("done".to_string());
    assert_eq!(env.code, 200);
    assert_eq!(env.message, "done");
    assert!(env.data.is_none());
}

#[test]
fn error_with_message_is_500() {
    let env = ApiResponse::<u8>::error_with_message("boom".to_string());
    assert_eq!(env.code, 500);
    assert_eq!(env.message, "boom");
    assert!(env.data.is_none());
}

#[test]
fn envelope_of_response_round_trips_success_and_error() {
    // a success envelope: data present
    let ok = ApiResponse::success_with_data("payload".to_string());
    let rendered = render_envelope(ok.code, &ok.message, &ok.data);
    let parsed = parse_envelope(&rendered).unwrap();
    assert_eq!(parsed.code, 200);
    assert_eq!(chars_to_string(&parsed.message), "Success");
    assert_eq!(chars_to_string(&parsed.data.unwrap()), "payload");

    // an error envelope: data absent
    let err = ApiResponse::<String>::error_with_message("Database error: down".to_string());
    let rendered2 = render_envelope(err.code, &err.message, &err.data);
    let parsed2 = parse_envelope(&rendered2).unwrap();
    assert_eq!(parsed2.code, 500);
    assert_eq!(chars_to_string(&parsed2.message), "Database error: down");
    assert!(parsed2.data.is_none());
}
