use webhook_relay::adapter::envelope;
use webhook_relay::adapter::run;
use webhook_relay::adapter::ErrorCode;
use webhook_relay::adapter::HandlerError;
use webhook_relay::adapter::Outcome;
use webhook_relay::adapter::ResponseOutparam;
use webhook_relay::body::Html;
use webhook_relay::body::Json;
use webhook_relay::builder::error_response;
use webhook_relay::builder::ResponseBuilder;
use webhook_relay::headers::HeaderMap;
use webhook_relay::message::Method;
use webhook_relay::message::Request;
use webhook_relay::message::RequestParts;
use webhook_relay::message::Response;
use webhook_relay::message::ResponseParts;
use webhook_relay::message::Scheme;
use webhook_relay::reader::BodyReader;
use webhook_relay::reader::ReadEvent;
use webhook_relay::reader::ReadStep;
use webhook_relay::relay::handle;
use webhook_relay::relay::plan_relay;
use webhook_relay::relay::read_message;
use webhook_relay::relay::relay_reply;
use webhook_relay::relay::BodyMessage;
use webhook_relay::relay::OutboundPost;
use webhook_relay::relay::SlackMessagePayload;

fn request(settings: Option<&str>, body: &[u8]) -> Request<Vec<u8>> {
    let mut headers = HeaderMap::new();
    if let Some(s) = settings {
        headers.insert("x-edgee-component-settings".to_string(), vec![s.to_string()]);
    }
    Request {
        parts: RequestParts {
            method: Method::Post,
            scheme: Scheme::Https,
            authority: "component.example".to_string(),
            path_with_query: "/".to_string(),
            headers,
        },
        body: body.to_vec(),
    }
}

fn answered(outcome: Outcome) -> Response<Vec<u8>> {
    match outcome {
        Outcome::Response(r) => r,
        Outcome::Failure(code) => panic!("no response: {:?}", code),
    }
}

fn content_type(r: &Response<Vec<u8>>) -> String {
    r.parts.headers.get("content-type").unwrap()[0].clone()
}

#[test]
fn test_slack_message_payload_new() {
    let payload = SlackMessagePayload::new("Hello, Slack!".to_string());
    assert_eq!(payload.text, "Hello, Slack!");
}

#[test]
fn test_slack_message_payload_serialize() {
    let payload = SlackMessagePayload::new("Test message".to_string());
    let json = payload.to_json();
    assert_eq!(json, r#"{"text":"Test message"}"#);
}

#[test]
fn payload_escapes_quotes() {
    let payload = SlackMessagePayload::new("say \"hi\"\n".to_string());
    assert_eq!(payload.to_json(), r#"{"text":"say \"hi\"\n"}"#);
}

#[test]
fn end_to_end_delivered_message() {
    let req = request(Some(r#"{"webhook_url":"http://example.com/webhook"}"#), br#"{"message":"hi"}"#);
    let mut seen: Option<(String, String, Vec<u8>)> = None;
    let sent = handle(req, ResponseOutparam::new(), |p: OutboundPost| {
        seen = Some((p.url.clone(), p.content_type.clone(), p.body.clone()));
        Ok(200)
    });
    let r = answered(sent.into_outcome());
    assert_eq!(r.parts.status, 200);
    assert_eq!(r.body, br#"{"ok":true}"#.to_vec());
    assert_eq!(content_type(&r), "application/json");
    let (url, ct, body) = seen.unwrap();
    assert_eq!(url, "http://example.com/webhook");
    assert_eq!(ct, "application/json");
    assert_eq!(body, br#"{"text":"hi"}"#.to_vec());
}

#[test]
fn end_to_end_rejected_by_webhook() {
    let req = request(Some(r#"{"webhook_url":"http://example.com/webhook"}"#), br#"{"message":"hi"}"#);
    let sent = handle(req, ResponseOutparam::new(), |_p: OutboundPost| Ok(404));
    let r = answered(sent.into_outcome());
    assert_eq!(r.parts.status, 404);
    assert_eq!(r.body, br#"{"ok":false}"#.to_vec());
}

#[test]
fn end_to_end_transport_failure() {
    let req = request(Some(r#"{"webhook_url":"http://example.com/webhook"}"#), br#"{"message":"hi"}"#);
    let sent = handle(req, ResponseOutparam::new(), |_p: OutboundPost| {
        Err("connection refused".to_string())
    });
    let r = answered(sent.into_outcome());
    assert_eq!(r.parts.status, 500);
    assert_eq!(
        r.body,
        br#"{"error":"Internal server error","message":"connection refused"}"#.to_vec()
    );
    assert_eq!(content_type(&r), "application/json");
}

#[test]
fn missing_message_is_one_client_error() {
    let req = request(Some(r#"{"webhook_url":"http://example.com/webhook"}"#), b"{}");
    let mut calls = 0;
    let sent = handle(req, ResponseOutparam::new(), |_p: OutboundPost| {
        calls += 1;
        Ok(200)
    });
    assert_eq!(calls, 0);
    let r = answered(sent.into_outcome());
    assert_eq!(r.parts.status, 400);
    assert_eq!(
        r.body,
        br#"{"error":"Internal server error","message":"Missing 'message' field in request body"}"#
            .to_vec()
    );
}

#[test]
fn non_string_message_is_missing() {
    assert!(matches!(read_message(br#"{"message":5}"#), BodyMessage::Missing));
    assert!(matches!(read_message(br#"[1,2]"#), BodyMessage::Missing));
    assert!(matches!(read_message(b"not json"), BodyMessage::NotJson));
    match read_message("{\"message\":\"a\u{e9}\"}".as_bytes()) {
        BodyMessage::Text(t) => assert_eq!(t, "a\u{e9}"),
        other => panic!("unexpected: {:?}", other),
    }
}

#[test]
fn invalid_json_body_is_client_error() {
    let req = request(Some(r#"{"webhook_url":"http://example.com/webhook"}"#), b"{oops");
    let sent = handle(req, ResponseOutparam::new(), |_p: OutboundPost| Ok(200));
    let r = answered(sent.into_outcome());
    assert_eq!(r.parts.status, 400);
    assert_eq!(
        r.body,
        br#"{"error":"Internal server error","message":"Invalid JSON in request body"}"#.to_vec()
    );
}

#[test]
fn missing_settings_is_server_error() {
    for settings in [None, Some(r#"{"other":"x"}"#), Some("nope")] {
        let req = request(settings, br#"{"message":"hi"}"#);
        let sent = handle(req, ResponseOutparam::new(), |_p: OutboundPost| Ok(200));
        let r = answered(sent.into_outcome());
        assert_eq!(r.parts.status, 500);
        assert_eq!(
            r.body,
            br#"{"error":"Internal server error","message":"Failed to parse component settings, missing Slack webhook URL"}"#
                .to_vec()
        );
    }
}

#[test]
fn plan_relay_builds_the_post() {
    let req = request(Some(r#"{"webhook_url":"https://hooks.example/T1"}"#), br#"{"message":"deploy done"}"#);
    let post = plan_relay(&req).unwrap();
    assert_eq!(post.url, "https://hooks.example/T1");
    assert_eq!(post.body, br#"{"text":"deploy done"}"#.to_vec());
}

#[test]
fn relay_reply_maps_status() {
    let ok = relay_reply(Ok(200)).unwrap();
    assert_eq!(ok.parts.status, 200);
    assert_eq!(ok.body.0, br#"{"ok":true}"#.to_vec());
    let err = relay_reply(Err("timeout".to_string())).unwrap_err();
    assert_eq!(err.status, 500);
    assert_eq!(err.message, "timeout");
}

#[test]
fn run_reports_undecodable_body_as_server_error() {
    let req = request(None, b"{bad");
    let sent = run(req, ResponseOutparam::new(), |_r: Request<Json<serde_json::Value>>| {
        Ok::<Response<Vec<u8>>, HandlerError>(Response { parts: ResponseParts::new(), body: Vec::new() })
    });
    let r = answered(sent.into_outcome());
    assert_eq!(r.parts.status, 500);
    assert_eq!(content_type(&r), "application/json");
    assert!(r.body.starts_with(br#"{"error":"Internal server error","message":"Malformed JSON in request body: "#));
}

#[test]
fn run_answers_html_failures_with_the_error_page() {
    let req = request(None, b"");
    let sent = run(req, ResponseOutparam::new(), |_r: Request<()>| {
        Err::<Response<Html<Vec<u8>>>, HandlerError>(HandlerError { status: 502, message: "x".to_string() })
    });
    let r = answered(sent.into_outcome());
    assert_eq!(r.parts.status, 502);
    assert_eq!(content_type(&r), "text/html");
    assert!(String::from_utf8(r.body).unwrap().contains("Internal server error"));
}

#[test]
fn run_keeps_handler_headers_and_adds_default_type() {
    let req = request(None, b"hello");
    let sent = run(req, ResponseOutparam::new(), |r: Request<String>| {
        let mut parts = ResponseParts::new();
        parts.status = 201;
        parts.headers.insert("x-seen".to_string(), vec![r.body.clone()]);
        Ok::<Response<Html<Vec<u8>>>, HandlerError>(Response { parts, body: Html(b"<b>ok</b>".to_vec()) })
    });
    let r = answered(sent.into_outcome());
    assert_eq!(r.parts.status, 201);
    assert_eq!(r.parts.headers.get("x-seen").unwrap()[0], "hello");
    assert_eq!(content_type(&r), "text/html; charset=utf-8");
    assert_eq!(r.body, b"<b>ok</b>".to_vec());
}

#[test]
fn outparam_error_is_the_single_answer() {
    let sent = ResponseOutparam::new().error(ErrorCode::InternalError(Some("down".to_string())));
    match sent.into_outcome() {
        Outcome::Failure(ErrorCode::InternalError(Some(m))) => assert_eq!(m, "down"),
        other => panic!("unexpected: {:?}", other),
    }
}

#[test]
fn error_response_envelope() {
    let sent = error_response("bad \"input\"", 400, ResponseOutparam::new());
    let r = answered(sent.into_outcome());
    assert_eq!(r.parts.status, 400);
    assert_eq!(content_type(&r), "application/json");
    assert_eq!(
        r.body,
        br#"{"error":"Internal server error","message":"bad \"input\""}"#.to_vec()
    );
    assert_eq!(envelope("x"), r#"{"error":"Internal server error","message":"x"}"#);
}

#[test]
fn response_builder_sends_what_was_set() {
    let mut builder = ResponseBuilder::new();
    builder
        .set_header("content-type", "text/plain")
        .set_header("Content-Type", "application/json")
        .set_status_code(418)
        .set_body("teapot");
    let r = answered(builder.build(ResponseOutparam::new()).into_outcome());
    assert_eq!(r.parts.status, 418);
    assert_eq!(r.parts.headers.get("content-type").unwrap(), &vec!["application/json".to_string()]);
    assert_eq!(r.body, b"teapot".to_vec());
    let empty = answered(ResponseBuilder::default().build(ResponseOutparam::new()).into_outcome());
    assert_eq!(empty.parts.status, 200);
    assert!(empty.body.is_empty());
}

#[test]
fn body_reader_collects_until_end() {
    let mut reader = BodyReader::new();
    assert!(matches!(reader.step(ReadEvent::Chunk(b"ab".to_vec())), ReadStep::More));
    assert!(matches!(reader.step(ReadEvent::Chunk(b"cd".to_vec())), ReadStep::More));
    assert!(matches!(reader.step(ReadEvent::Closed), ReadStep::Done));
    assert_eq!(reader.into_bytes(), b"abcd".to_vec());
}

#[test]
fn body_reader_closed_before_data_is_empty() {
    let mut reader = BodyReader::new();
    assert!(matches!(reader.step(ReadEvent::Closed), ReadStep::Done));
    assert!(reader.into_bytes().is_empty());
    let mut reader = BodyReader::new();
    assert!(matches!(reader.step(ReadEvent::Chunk(Vec::new())), ReadStep::Done));
}

#[test]
fn body_reader_failure_message() {
    let mut reader = BodyReader::new();
    match reader.step(ReadEvent::Failed("broken pipe".to_string())) {
        ReadStep::Failed(m) => assert_eq!(m, "Failed to read from request stream: broken pipe"),
        other => panic!("unexpected: {:?}", other),
    }
}

#[test]
fn non_string_message_posts_nothing() {
    let req = request(Some(r#"{"webhook_url":"http://example.com/webhook"}"#), br#"{"message":5}"#);
    let mut calls = 0;
    let sent = handle(req, ResponseOutparam::new(), |_p: OutboundPost| {
        calls += 1;
        Ok(200)
    });
    assert_eq!(calls, 0);
    let r = answered(sent.into_outcome());
    assert_eq!(r.parts.status, 400);
    assert_eq!(
        r.body,
        br#"{"error":"Internal server error","message":"Missing 'message' field in request body"}"#
            .to_vec()
    );
}

#[test]
fn run_reports_invalid_text_with_the_encoding_error() {
    let req = request(None, &[0xff, 0xfe]);
    let sent = run(req, ResponseOutparam::new(), |_r: Request<String>| {
        Ok::<Response<Vec<u8>>, HandlerError>(Response { parts: ResponseParts::new(), body: Vec::new() })
    });
    let r = answered(sent.into_outcome());
    assert_eq!(r.parts.status, 500);
    assert_eq!(
        r.body,
        br#"{"error":"Internal server error","message":"Request body is not valid UTF-8"}"#.to_vec()
    );
}

#[test]
fn run_sends_json_output_with_its_status() {
    let req = request(None, b"");
    let sent = run(req, ResponseOutparam::new(), |_r: Request<()>| {
        let mut parts = ResponseParts::new();
        parts.status = 202;
        let doc: serde_json::Value = serde_json::from_str(r#"{"queued":true}"#).unwrap();
        Ok::<Response<Json<serde_json::Value>>, HandlerError>(Response { parts, body: Json(doc) })
    });
    let r = answered(sent.into_outcome());
    assert_eq!(r.parts.status, 202);
    assert_eq!(content_type(&r), "application/json");
    assert_eq!(r.body, br#"{"queued":true}"#.to_vec());
}
