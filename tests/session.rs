use cfn_lsp::diagnostic::{Diagnostic, Position, Range, Severity};
use cfn_lsp::handler::{pull_response, MessageHandler, Outcome, State};
use cfn_lsp::json::Json;
use cfn_lsp::lint::{Lint, LintError};
use cfn_lsp::method::NotificationMethod;
use cfn_lsp::model::{publish_into_json, ErrorCode, Message, RequestId, Response};
use cfn_lsp::reader::{decode, headers, ReadError};
use serde_json::Value;

fn from_value(v: Value) -> Json {
    match v {
        Value::Null => Json::Null,
        Value::Bool(b) => Json::Bool(b),
        Value::Number(n) => {
            if let Some(u) = n.as_u64() {
                Json::Int(u as i128)
            } else if let Some(i) = n.as_i64() {
                Json::Int(i as i128)
            } else {
                Json::Float(n.to_string())
            }
        }
        Value::String(s) => Json::Str(s),
        Value::Array(items) => Json::Array(items.into_iter().map(from_value).collect()),
        Value::Object(fields) => Json::Object(fields.into_iter().map(|(k, v)| (k, from_value(v))).collect()),
    }
}

fn to_value(j: Json) -> Value {
    match j {
        Json::Null => Value::Null,
        Json::Bool(b) => Value::Bool(b),
        Json::Int(n) => {
            if n >= 0 {
                Value::from(n as u64)
            } else {
                Value::from(n as i64)
            }
        }
        Json::Float(s) => serde_json::from_str(&s).unwrap_or(Value::Null),
        Json::Str(s) => Value::String(s),
        Json::Array(items) => Value::Array(items.into_iter().map(to_value).collect()),
        Json::Object(fields) => Value::Object(fields.into_iter().map(|(k, v)| (k, to_value(v))).collect()),
    }
}

fn json(text: &str) -> Option<Json> {
    serde_json::from_str::<Value>(text).ok().map(from_value)
}

fn text(j: Json) -> String {
    serde_json::to_string(&to_value(j)).unwrap()
}

struct FixedLint(bool);

impl Lint for FixedLint {
    fn lint(&self, _uri: &str) -> Result<Vec<Diagnostic>, LintError> {
        if self.0 {
            Ok(vec![Diagnostic {
                range: Range::new(Position::new(0, 1), Position::new(2, 3)),
                severity: Severity::Warning,
                code: "W1".into(),
                code_description: None,
                source: Some("cfn-lint".into()),
                message: "careful".into(),
                tags: Vec::new(),
                related_information: Vec::new(),
                data: None,
            }])
        } else {
            Err(LintError::new("no linter"))
        }
    }
}

fn send(handler: &mut MessageHandler<FixedLint>, message: &str) -> Outcome {
    let m = decode(json(message)).unwrap();
    handler.handle(m)
}

fn reply(handler: &mut MessageHandler<FixedLint>, message: &str) -> String {
    match send(handler, message) {
        Outcome::Send(Message::Response(r)) => text(r.into_json()),
        other => panic!("{other:?}"),
    }
}

const INITIALIZE: &str = r#"{"jsonrpc":"2.0","method":"initialize","params":{},"id":0}"#;

fn initialised(lints: bool) -> MessageHandler<FixedLint> {
    let mut h = MessageHandler::new(None, FixedLint(lints));
    reply(&mut h, INITIALIZE);
    h
}

#[test]
fn shutdown_before_initialise_is_refused() {
    let mut h = MessageHandler::new(None, FixedLint(true));
    let out = reply(&mut h, r#"{"jsonrpc":"2.0","method":"shutdown","id":1}"#);
    assert_eq!(
        out,
        r#"{"jsonrpc":"2.0","error":{"code":-32002,"message":"Server not initialised","data":null},"id":1}"#
    );
    assert_eq!(h.state, State::Uninitialised);
}

#[test]
fn initialise_reports_server() {
    let mut h = MessageHandler::new(None, FixedLint(true));
    let out: Value = serde_json::from_str(&reply(&mut h, INITIALIZE)).unwrap();
    assert_eq!(out["id"], 0);
    assert_eq!(out["result"]["serverInfo"]["name"], "cfn-lsp");
    assert_eq!(out["result"]["capabilities"]["positionEncoding"], "utf-16");
    assert_eq!(out["result"]["capabilities"]["textDocumentSync"]["openClose"], true);
    assert_eq!(out["result"]["capabilities"]["diagnosticProvider"]["identifier"], "cfn-lsp");
    assert_eq!(out["result"]["capabilities"]["diagnosticProvider"]["interFileDependencies"], false);
    assert_eq!(out["result"]["capabilities"]["diagnosticProvider"]["workspaceDiagnostics"], false);
    assert!(matches!(h.state, State::Initialised(_)));
}

#[test]
fn shutdown_then_everything_is_invalid() {
    let mut h = initialised(true);
    assert_eq!(reply(&mut h, r#"{"jsonrpc":"2.0","method":"shutdown","id":2}"#), r#"{"jsonrpc":"2.0","result":null,"id":2}"#);
    assert_eq!(h.state, State::Shutdown);
    for m in [
        r#"{"jsonrpc":"2.0","method":"shutdown","id":3}"#,
        r#"{"jsonrpc":"2.0","method":"initialize","params":{},"id":4}"#,
        r#"{"jsonrpc":"2.0","method":"textDocument/diagnostic","params":{"textDocument":{"uri":"file:///t.yaml"}},"id":5}"#,
    ] {
        let out: Value = serde_json::from_str(&reply(&mut h, m)).unwrap();
        assert_eq!(out["error"]["code"], -32600);
        assert_eq!(out["error"]["message"], "server has been shutdown");
    }
}

#[test]
fn exit_ends_the_process_without_output() {
    let mut h = MessageHandler::new(None, FixedLint(true));
    assert_eq!(send(&mut h, r#"{"jsonrpc":"2.0","method":"exit"}"#), Outcome::Exit);
    let mut h = initialised(true);
    reply(&mut h, r#"{"jsonrpc":"2.0","method":"shutdown","id":2}"#);
    assert_eq!(send(&mut h, r#"{"jsonrpc":"2.0","method":"exit"}"#), Outcome::Exit);
}

#[test]
fn exit_while_initialised_does_nothing() {
    let mut h = initialised(true);
    assert_eq!(send(&mut h, r#"{"jsonrpc":"2.0","method":"exit"}"#), Outcome::Nothing);
}

#[test]
fn batch_sees_shutdown_of_earlier_element() {
    let mut h = initialised(true);
    let out = reply(
        &mut h,
        r#"[{"jsonrpc":"2.0","method":"shutdown","id":"a"},{"jsonrpc":"2.0","method":"shutdown","id":"b"}]"#,
    );
    assert_eq!(
        out,
        r#"[{"jsonrpc":"2.0","result":null,"id":"a"},{"jsonrpc":"2.0","error":{"code":-32600,"message":"server has been shutdown","data":null},"id":"b"}]"#
    );
}

#[test]
fn batch_answers_in_order() {
    let mut h = MessageHandler::new(None, FixedLint(true));
    let out: Value = serde_json::from_str(&reply(
        &mut h,
        r#"[{"jsonrpc":"2.0","method":"shutdown","id":1},{"jsonrpc":"2.0","method":"initialize","params":{},"id":"two"},{"jsonrpc":"2.0","method":"initialize","params":{},"id":null}]"#,
    ))
    .unwrap();
    let items = out.as_array().unwrap();
    assert_eq!(items.len(), 3);
    assert_eq!(items[0]["id"], 1);
    assert_eq!(items[0]["error"]["code"], -32002);
    assert_eq!(items[1]["id"], "two");
    assert!(items[1]["result"].is_object());
    assert_eq!(items[2]["id"], Value::Null);
    assert_eq!(items[2]["error"]["code"], -32003);
}

#[test]
fn uninitialised_rejection_keeps_state() {
    let mut h = MessageHandler::new(None, FixedLint(true));
    for _ in 0..2 {
        let out: Value = serde_json::from_str(&reply(
            &mut h,
            r#"{"jsonrpc":"2.0","method":"textDocument/diagnostic","params":{"textDocument":{"uri":"file:///t.yaml"}},"id":9}"#,
        ))
        .unwrap();
        assert_eq!(out["error"]["code"], -32002);
        assert_eq!(out["id"], 9);
        assert_eq!(h.state, State::Uninitialised);
    }
}

#[test]
fn initialise_twice_is_refused() {
    let mut h = initialised(true);
    let out = reply(&mut h, r#"{"jsonrpc":"2.0","method":"initialize","params":{},"id":"again"}"#);
    assert_eq!(
        out,
        r#"{"jsonrpc":"2.0","error":{"code":-32003,"message":"Server already initialised","data":null},"id":"again"}"#
    );
}

#[test]
fn pull_gives_full_report() {
    let mut h = initialised(true);
    let out = reply(
        &mut h,
        r#"{"jsonrpc":"2.0","method":"textDocument/diagnostic","params":{"textDocument":{"uri":"file:///t.yaml"}},"id":"p"}"#,
    );
    assert_eq!(
        out,
        r#"{"jsonrpc":"2.0","result":{"kind":"full","result_id":"result","items":[{"range":{"start":{"line":0,"character":1},"end":{"line":2,"character":3}},"severity":2,"code":"W1","codeDescription":null,"source":"cfn-lint","message":"careful","tags":[],"relatedInformation":[],"data":null}]},"id":"p"}"#
    );
}

#[test]
fn pull_with_failing_linter_is_internal_error() {
    let mut h = initialised(false);
    let out = reply(
        &mut h,
        r#"{"jsonrpc":"2.0","method":"textDocument/diagnostic","params":{"textDocument":{"uri":"file:///t.yaml"}},"id":"p"}"#,
    );
    assert_eq!(
        out,
        r#"{"jsonrpc":"2.0","error":{"code":-32603,"message":"Failed to generate diagnostics","data":null},"id":"p"}"#
    );
    assert!(matches!(h.state, State::Initialised(_)));
}

#[test]
fn pull_response_of_empty_findings() {
    let r = pull_response(&RequestId::Number(4), Ok(Vec::new()));
    assert_eq!(text(r.into_json()), r#"{"jsonrpc":"2.0","result":{"kind":"full","result_id":"result","items":[]},"id":4}"#);
}

#[test]
fn did_open_publishes_with_version() {
    let mut h = initialised(true);
    let out = send(
        &mut h,
        r#"{"jsonrpc":"2.0","method":"textDocument/didOpen","params":{"textDocument":{"uri":"file:///t.yaml","languageId":"yaml","version":7,"text":""}}}"#,
    );
    match out {
        Outcome::Send(Message::Notification(n)) => match n.method {
            NotificationMethod::PublishDiagnostics(p) => {
                let t = text(publish_into_json(p));
                let v: Value = serde_json::from_str(&t).unwrap();
                assert_eq!(v["method"], "textDocument/publishDiagnostics");
                assert_eq!(v["params"]["uri"], "file:///t.yaml");
                assert_eq!(v["params"]["version"], 7);
                assert_eq!(v["params"]["diagnostics"][0]["code"], "W1");
            }
            other => panic!("{other:?}"),
        },
        other => panic!("{other:?}"),
    }
}

#[test]
fn did_save_publishes_without_version() {
    let mut h = initialised(true);
    let out = send(
        &mut h,
        r#"{"jsonrpc":"2.0","method":"textDocument/didSave","params":{"textDocument":{"uri":"file:///t.yaml"}}}"#,
    );
    match out {
        Outcome::Send(Message::Notification(n)) => match n.method {
            NotificationMethod::PublishDiagnostics(p) => {
                assert_eq!(p.uri, "file:///t.yaml");
                assert_eq!(p.version, None);
            }
            other => panic!("{other:?}"),
        },
        other => panic!("{other:?}"),
    }
}

#[test]
fn did_open_with_failing_linter_publishes_nothing() {
    let mut h = initialised(false);
    let out = send(
        &mut h,
        r#"{"jsonrpc":"2.0","method":"textDocument/didSave","params":{"textDocument":{"uri":"file:///t.yaml"}}}"#,
    );
    assert_eq!(out, Outcome::Nothing);
}

#[test]
fn other_notifications_do_nothing() {
    let mut h = initialised(true);
    assert_eq!(send(&mut h, r#"{"jsonrpc":"2.0","method":"initialized","params":{}}"#), Outcome::Nothing);
    assert_eq!(
        send(&mut h, r#"{"jsonrpc":"2.0","method":"textDocument/didClose","params":{"textDocument":{"uri":"file:///t.yaml"}}}"#),
        Outcome::Nothing
    );
    let mut h = MessageHandler::new(None, FixedLint(true));
    assert_eq!(
        send(&mut h, r#"{"jsonrpc":"2.0","method":"textDocument/didSave","params":{"textDocument":{"uri":"file:///t.yaml"}}}"#),
        Outcome::Nothing
    );
}

#[test]
fn bogus_headers_give_null_id_invalid_request() {
    let e = headers("Bogus: 1\r\n\r\n").unwrap_err();
    assert_eq!(
        text(e.into_response().into_json()),
        r#"{"jsonrpc":"2.0","error":{"code":-32600,"message":"Malformed headers","data":null},"id":null}"#
    );
}

#[test]
fn body_that_is_not_json_is_parse_error() {
    let e = decode(json("{nope")).unwrap_err();
    assert_eq!(e, ReadError::InvalidRequest { id: RequestId::Null, error_code: ErrorCode::ParseError });
    assert_eq!(
        text(e.into_response().into_json()),
        r#"{"jsonrpc":"2.0","error":{"code":-32700,"message":"Invalid JSON","data":null},"id":null}"#
    );
}

#[test]
fn invalid_request_keeps_its_id() {
    let e = decode(json(r#"{"jsonrpc":"2.0","method":"nonsense","id":"k"}"#)).unwrap_err();
    assert_eq!(
        text(e.into_response().into_json()),
        r#"{"jsonrpc":"2.0","error":{"code":-32600,"message":"Invalid request","data":null},"id":"k"}"#
    );
    let e = decode(json(r#"{"id":[1]}"#)).unwrap_err();
    assert_eq!(e, ReadError::InvalidRequest { id: RequestId::Null, error_code: ErrorCode::InvalidRequest });
}

#[test]
fn other_read_errors_become_responses() {
    let r = text(ReadError::InvalidContentType("text/plain; charset=latin1".into()).into_response().into_json());
    assert_eq!(
        r,
        r#"{"jsonrpc":"2.0","error":{"code":-32600,"message":"Invalid content type 'text/plain; charset=latin1'","data":null},"id":null}"#
    );
    let r = text(ReadError::Internal("gone".into()).into_response().into_json());
    assert_eq!(r, r#"{"jsonrpc":"2.0","error":{"code":-32603,"message":"gone","data":null},"id":null}"#);
}

#[test]
fn client_responses_are_ignored() {
    let mut h = initialised(true);
    assert_eq!(h.handle(Message::Response(Response::Batch(Vec::new()))), Outcome::Nothing);
}
