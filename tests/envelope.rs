use cfn_lsp::json::Json;
use cfn_lsp::method::{NotificationMethod, RequestMethod};
use cfn_lsp::model::{
    Error, ErrorCode, ErrorResponse, Message, Notification, Request, RequestId, Response, ResponseResult,
    SuccessResponse, Version,
};
use serde_json::Value;

fn from_value(v: Value) -> Json {
    match v {
        Value::Null => Json::Null,
        Value::Bool(b) => Json::Bool(b),
        Value::Number(n) => {
            if let Some(u) = n.as_u64() {
                Json::Int(u as i128)
            } else if let Some(i) = n.as_i64() {
                Json::Int(i as i128)
            } else {
                Json::Float(n.to_string())
            }
        }
        Value::String(s) => Json::Str(s),
        Value::Array(items) => Json::Array(items.into_iter().map(from_value).collect()),
        Value::Object(fields) => Json::Object(fields.into_iter().map(|(k, v)| (k, from_value(v))).collect()),
    }
}

fn to_value(j: Json) -> Value {
    match j {
        Json::Null => Value::Null,
        Json::Bool(b) => Value::Bool(b),
        Json::Int(n) => {
            if n >= 0 {
                Value::from(n as u64)
            } else {
                Value::from(n as i64)
            }
        }
        Json::Float(s) => serde_json::from_str(&s).unwrap_or(Value::Null),
        Json::Str(s) => Value::String(s),
        Json::Array(items) => Value::Array(items.into_iter().map(to_value).collect()),
        Json::Object(fields) => Value::Object(fields.into_iter().map(|(k, v)| (k, to_value(v))).collect()),
    }
}

fn json(text: &str) -> Option<Json> {
    serde_json::from_str::<Value>(text).ok().map(from_value)
}

fn text(j: Json) -> String {
    serde_json::to_string(&to_value(j)).unwrap()
}

#[test]
fn deserialises_string_id() {
    let actual = RequestId::from_json(&json(r#""id-1""#).unwrap()).unwrap();
    assert_eq!(actual, RequestId::String("id-1".into()))
}

#[test]
fn deserialises_number_id() {
    let actual = RequestId::from_json(&json("123").unwrap()).unwrap();
    assert_eq!(actual, RequestId::Number(123))
}

#[test]
fn deserialises_null_id() {
    let actual = RequestId::from_json(&json("null").unwrap()).unwrap();
    assert_eq!(actual, RequestId::Null)
}

#[test]
fn errors_if_not_valid_message() {
    let result = Message::from_json(json("{}").unwrap());
    assert!(result.is_err())
}

#[test]
fn deserialises_request() {
    let j = r#"{"jsonrpc":"2.0","method":"shutdown","id":"123"}"#;
    let actual = Message::from_json(json(j).unwrap()).unwrap();
    assert_eq!(
        actual,
        Message::Request(Request {
            jsonrpc: Version::V2,
            method: RequestMethod::Shutdown,
            id: RequestId::String("123".into())
        })
    )
}

#[test]
fn deserialises_batch_request() {
    let j = r#"[{"jsonrpc":"2.0","method":"shutdown","id":"123"},{"jsonrpc":"2.0","method":"shutdown","id":"456"}]"#;
    let actual = Message::from_json(json(j).unwrap()).unwrap();
    assert_eq!(
        actual,
        Message::BatchRequest(vec![
            Request {
                jsonrpc: Version::V2,
                method: RequestMethod::Shutdown,
                id: RequestId::String("123".into())
            },
            Request {
                jsonrpc: Version::V2,
                method: RequestMethod::Shutdown,
                id: RequestId::String("456".into())
            }
        ])
    )
}

#[test]
fn deserialises_notification() {
    let j = r#"{"jsonrpc":"2.0","method":"exit"}"#;
    let actual = Message::from_json(json(j).unwrap()).unwrap();
    assert_eq!(
        actual,
        Message::Notification(Notification {
            jsonrpc: Version::V2,
            method: NotificationMethod::Exit,
        })
    )
}

#[test]
fn deserialises_init_request() {
    let j = r#"{"jsonrpc":"2.0","method":"initialize","params":{"capabilities":{"general":{"positionEncodings":["utf-8","utf-32","utf-16"]},"textDocument":{"codeAction":{"codeActionLiteralSupport":{"codeActionKind":{"valueSet":["","quickfix","refactor","refactor.extract","refactor.inline","refactor.rewrite","source","source.organizeImports"]}},"dataSupport":true,"disabledSupport":true,"isPreferredSupport":true,"resolveSupport":{"properties":["edit","command"]}},"completion":{"completionItem":{"deprecatedSupport":true,"insertReplaceSupport":true,"resolveSupport":{"properties":["documentation","detail","additionalTextEdits"]},"snippetSupport":true,"tagSupport":{"valueSet":[1]}},"completionItemKind":{}},"formatting":{"dynamicRegistration":false},"hover":{"contentFormat":["markdown"]},"inlayHint":{"dynamicRegistration":false},"publishDiagnostics":{"tagSupport":{"valueSet":[1,2]},"versionSupport":true},"rename":{"dynamicRegistration":false,"honorsChangeAnnotations":false,"prepareSupport":true},"signatureHelp":{"signatureInformation":{"activeParameterSupport":true,"documentationFormat":["markdown"],"parameterInformation":{"labelOffsetSupport":true}}}},"window":{"workDoneProgress":true},"workspace":{"applyEdit":true,"configuration":true,"didChangeConfiguration":{"dynamicRegistration":false},"didChangeWatchedFiles":{"dynamicRegistration":true,"relativePatternSupport":false},"executeCommand":{"dynamicRegistration":false},"fileOperations":{"didRename":true,"willRename":true},"inlayHint":{"refreshSupport":false},"symbol":{"dynamicRegistration":false},"workspaceEdit":{"documentChanges":true,"failureHandling":"abort","normalizesLineEndings":false,"resourceOperations":["create","rename","delete"]},"workspaceFolders":true}},"clientInfo":{"name":"helix","version":"25.1 (dabfb6ce)"},"processId":12276,"rootPath":"C:\\Users\\Tim\\projects\\cfn-lsp","rootUri":"file:///C:/Users/Tim/projects/cfn-lsp","workspaceFolders":[{"name":"cfn-lsp","uri":"file:///C:/Users/Tim/projects/cfn-lsp"}]},"id":0}"#;
    let result = Message::from_json(json(j).unwrap());
    assert!(result.is_ok())
}

#[test]
fn serialises_success_response() {
    let success = SuccessResponse::new(&RequestId::String("123".into()), ResponseResult::Null);
    let response = Response::Success(success);

    let actual = text(response.into_json());
    assert_eq!(actual, r#"{"jsonrpc":"2.0","result":null,"id":"123"}"#)
}

#[test]
fn serialises_error_response_without_data() {
    let error = ErrorResponse::new(
        &RequestId::String("123".into()),
        Error::new(ErrorCode::Internal, "Error happened", None),
    );
    let response = Response::Error(error);

    let actual = text(response.into_json());
    assert_eq!(
        actual,
        r#"{"jsonrpc":"2.0","error":{"code":-32603,"message":"Error happened","data":null},"id":"123"}"#
    )
}

#[test]
fn serialises_error_response_with_data() {
    let error = ErrorResponse::new(
        &RequestId::String("123".into()),
        Error::new(ErrorCode::Internal, "Error happened", Some(Json::Str("some data".into()))),
    );
    let response = Response::Error(error);

    let actual = text(response.into_json());
    assert_eq!(
        actual,
        r#"{"jsonrpc":"2.0","error":{"code":-32603,"message":"Error happened","data":"some data"},"id":"123"}"#
    )
}

#[test]
fn errors_if_invalid_method() {
    let result = json("invalid").and_then(|j| RequestMethod::from_json(&j));
    assert!(result.is_none())
}

#[test]
fn deserialises_shutdown() {
    let actual = RequestMethod::from_json(&json(r#"{"method":"shutdown"}"#).unwrap()).unwrap();
    assert_eq!(actual, RequestMethod::Shutdown)
}

#[test]
fn unknown_method_is_no_request() {
    let j = json(r#"{"jsonrpc":"2.0","method":"textDocument/hover","id":7}"#).unwrap();
    assert!(Message::from_json(j).is_err())
}

#[test]
fn wrong_version_is_no_message() {
    let j = json(r#"{"jsonrpc":"1.0","method":"shutdown","id":1}"#).unwrap();
    assert!(Message::from_json(j).is_err())
}

#[test]
fn empty_array_is_an_empty_response_batch() {
    assert_eq!(Message::from_json(json("[]").unwrap()).unwrap(), Message::Response(Response::Batch(Vec::new())))
}

#[test]
fn reads_client_responses() {
    let j = json(r#"{"jsonrpc":"2.0","result":null,"id":1}"#).unwrap();
    assert_eq!(
        Message::from_json(j).unwrap(),
        Message::Response(Response::Success(SuccessResponse::new(&RequestId::Number(1), ResponseResult::Null)))
    );
    let j = json(r#"{"jsonrpc":"2.0","error":{"code":-32601,"message":"nope","data":[1]},"id":"q"}"#).unwrap();
    assert_eq!(
        Message::from_json(j).unwrap(),
        Message::Response(Response::Error(ErrorResponse::new(
            &RequestId::String("q".into()),
            Error::new(ErrorCode::MethodNotFound, "nope", Some(Json::Array(vec![Json::Int(1)])))
        )))
    );
    let j = json(r#"[{"jsonrpc":"2.0","result":null,"id":1},{"jsonrpc":"2.0","error":{"code":-32002,"message":"m"},"id":null}]"#)
        .unwrap();
    assert_eq!(
        Message::from_json(j).unwrap(),
        Message::Response(Response::Batch(vec![
            Response::Success(SuccessResponse::new(&RequestId::Number(1), ResponseResult::Null)),
            Response::Error(ErrorResponse::new(&RequestId::Null, Error::new(ErrorCode::ServerNotInitialised, "m", None))),
        ]))
    );
}

#[test]
fn response_with_unknown_code_is_no_message() {
    let j = json(r#"{"jsonrpc":"2.0","error":{"code":1,"message":"m"},"id":1}"#).unwrap();
    assert!(Message::from_json(j).is_err())
}

#[test]
fn id_out_of_range_is_no_request() {
    let j = json(r#"{"jsonrpc":"2.0","method":"shutdown","id":4294967296}"#).unwrap();
    assert!(Message::from_json(j).is_err());
    let j = json(r#"{"jsonrpc":"2.0","method":"shutdown","id":4294967295}"#).unwrap();
    assert!(matches!(
        Message::from_json(j),
        Ok(Message::Request(Request { id: RequestId::Number(4294967295), .. }))
    ));
}

#[test]
fn request_with_notification_method_reads_as_notification() {
    let j = json(r#"{"jsonrpc":"2.0","method":"exit","id":3}"#).unwrap();
    assert_eq!(
        Message::from_json(j).unwrap(),
        Message::Notification(Notification::new(NotificationMethod::Exit))
    )
}

#[test]
fn did_close_keeps_its_parameters() {
    let j = json(r#"{"jsonrpc":"2.0","method":"textDocument/didClose","params":{"textDocument":{"uri":"file:///a.yaml"}}}"#)
        .unwrap();
    let params = json(r#"{"textDocument":{"uri":"file:///a.yaml"}}"#).unwrap();
    assert_eq!(
        Message::from_json(j).unwrap(),
        Message::Notification(Notification::new(NotificationMethod::DidClose(params)))
    )
}

#[test]
fn reads_did_open() {
    let j = json(r#"{"jsonrpc":"2.0","method":"textDocument/didOpen","params":{"textDocument":{"uri":"file:///t.yaml","languageId":"yaml","version":3,"text":"a: 1"}}}"#)
        .unwrap();
    match Message::from_json(j).unwrap() {
        Message::Notification(Notification { method: NotificationMethod::DidOpen(p), .. }) => {
            assert_eq!(p.text_document().uri(), "file:///t.yaml");
            assert_eq!(p.text_document().version(), 3);
        }
        other => panic!("{other:?}"),
    }
}

#[test]
fn reads_initialise_parameters() {
    let j = json(r#"{"jsonrpc":"2.0","method":"initialize","params":{"processId":-5,"clientInfo":{"name":"helix","version":"25.1"}},"id":0}"#)
        .unwrap();
    match Message::from_json(j).unwrap() {
        Message::Request(Request { method: RequestMethod::Initialise(p), id, .. }) => {
            assert_eq!(id, RequestId::Number(0));
            assert_eq!(p.process_id(), Some(-5));
            assert_eq!(p.client_info().unwrap().text(), "helix:25.1");
        }
        other => panic!("{other:?}"),
    }
}

#[test]
fn reads_pull_parameters() {
    let j = json(r#"{"jsonrpc":"2.0","method":"textDocument/diagnostic","params":{"textDocument":{"uri":"file:///t.yaml"},"previousResultId":"r1"},"id":"x"}"#)
        .unwrap();
    match Message::from_json(j).unwrap() {
        Message::Request(Request { method: RequestMethod::PullDiagnostics(p), .. }) => {
            assert_eq!(p.uri(), "file:///t.yaml");
            assert_eq!(p.previous_result_id, Some("r1".to_string()));
            assert_eq!(p.identifier, None);
        }
        other => panic!("{other:?}"),
    }
}

#[test]
fn error_codes_have_their_numbers() {
    assert_eq!(ErrorCode::ParseError.code(), -32700);
    assert_eq!(ErrorCode::InvalidRequest.code(), -32600);
    assert_eq!(ErrorCode::MethodNotFound.code(), -32601);
    assert_eq!(ErrorCode::InvalidParams.code(), -32602);
    assert_eq!(ErrorCode::Internal.code(), -32603);
    assert_eq!(ErrorCode::ServerNotInitialised.code(), -32002);
    assert_eq!(ErrorCode::ServerAlreadyInitialised.code(), -32003);
}

#[test]
fn serialises_batch_in_order() {
    let response = Response::Batch(vec![
        Response::Success(SuccessResponse::new(&RequestId::String("a".into()), ResponseResult::Null)),
        Response::Error(ErrorResponse::new(
            &RequestId::Number(2),
            Error::new(ErrorCode::InvalidRequest, "no", None),
        )),
    ]);
    assert_eq!(
        text(response.into_json()),
        r#"[{"jsonrpc":"2.0","result":null,"id":"a"},{"jsonrpc":"2.0","error":{"code":-32600,"message":"no","data":null},"id":2}]"#
    )
}
