use vstd::prelude::*;

use crate::did_change;
use crate::did_open;
use crate::did_save;
use crate::initialise;
use crate::initialised;
use crate::json::{
    Json, JsonView, array, get_text, take_member, int_value, is_absent_or_null, member,
    members_view, object, object_view, required_text, text, text_is, text_key,
};
use crate::method::{NotificationMethod, RequestMethod, notification_method_of, request_method_of};
use crate::publish;
use crate::pull;

verus! {

broadcast use vstd::std_specs::vec::group_vec_axioms;

/// The media type and character set that a `Content-Type` header names.
#[derive(Debug, PartialEq, Eq)]
pub struct ContentType {
    pub content_type: String,
    pub charset: String,
}

/// The headers of a frame.
#[derive(Debug, PartialEq, Eq)]
pub struct Headers {
    pub content_length: usize,
    pub content_type: ContentType,
}

/// The protocol version, always `"2.0"`.
#[derive(Debug, Clone, Copy, PartialEq, Eq)]
pub enum Version {
    V2,
}

/// The id that ties a response to its request.
#[derive(Debug, Clone, PartialEq, Eq)]
pub enum RequestId {
    String(String),
    Number(u32),
    Null,
}

/// A message from the client, or a response.
#[derive(Debug, PartialEq, Eq)]
pub enum Message {
    Request(Request),
    BatchRequest(Vec<Request>),
    Notification(Notification),
    Response(Response),
}

/// A call that expects a response.
#[derive(Debug, PartialEq, Eq)]
pub struct Request {
    pub jsonrpc: Version,
    pub method: RequestMethod,
    pub id: RequestId,
}

/// A call that expects no response.
#[derive(Debug, PartialEq, Eq)]
pub struct Notification {
    pub jsonrpc: Version,
    pub method: NotificationMethod,
}

/// What a successful response carries.
#[derive(Debug, PartialEq, Eq)]
pub enum ResponseResult {
    Initialise(initialise::Result),
    PullDiagnostics(pull::Result),
    Null,
}

#[derive(Debug, PartialEq, Eq)]
pub struct SuccessResponse {
    pub jsonrpc: Version,
    pub result: ResponseResult,
    pub id: RequestId,
}

#[derive(Debug, PartialEq, Eq)]
pub struct ErrorResponse {
    pub jsonrpc: Version,
    pub error: Error,
    pub id: RequestId,
}

/// The answer to a request, or to each request of a batch in order.
#[derive(Debug, PartialEq, Eq)]
pub enum Response {
    Success(SuccessResponse),
    Error(ErrorResponse),
    Batch(Vec<Response>),
}

/// What went wrong with a request.
#[derive(Debug, PartialEq, Eq)]
pub struct Error {
    pub code: ErrorCode,
    pub message: String,
    pub data: Option<Json>,
}

#[derive(Debug, Clone, Copy, PartialEq, Eq)]
pub enum ErrorCode {
    ParseError,
    InvalidRequest,
    MethodNotFound,
    InvalidParams,
    Internal,
    ServerNotInitialised,
    ServerAlreadyInitialised,
}

/// The number of each error code on the wire.
pub open spec fn code_number(c: ErrorCode) -> int {
    match c {
        ErrorCode::ParseError => -32700,
        ErrorCode::InvalidRequest => -32600,
        ErrorCode::MethodNotFound => -32601,
        ErrorCode::InvalidParams => -32602,
        ErrorCode::Internal => -32603,
        ErrorCode::ServerNotInitialised => -32002,
        ErrorCode::ServerAlreadyInitialised => -32003,
    }
}

/// The sentence that describes each error code.
pub open spec fn code_description(c: ErrorCode) -> Seq<char> {
    match c {
        ErrorCode::ParseError => "Failed to parse request"@,
        ErrorCode::InvalidRequest => "Not a valid request"@,
        ErrorCode::MethodNotFound => "Method not found"@,
        ErrorCode::InvalidParams => "Invalid method parameters"@,
        ErrorCode::Internal => "Internal failure"@,
        ErrorCode::ServerNotInitialised => "Server not initialised"@,
        ErrorCode::ServerAlreadyInitialised => "Server already initialised"@,
    }
}

impl ErrorCode {
    /// The number of this code on the wire.
    pub fn code(&self) -> (r: i32)
        ensures
            r == code_number(*self),
    {
        match self {
            ErrorCode::ParseError => -32700,
            ErrorCode::InvalidRequest => -32600,
            ErrorCode::MethodNotFound => -32601,
            ErrorCode::InvalidParams => -32602,
            ErrorCode::Internal => -32603,
            ErrorCode::ServerNotInitialised => -32002,
            ErrorCode::ServerAlreadyInitialised => -32003,
        }
    }

    /// The sentence that describes this code.
    pub fn description(&self) -> (r: &'static str)
        ensures
            r@ == code_description(*self),
    {
        match self {
            ErrorCode::ParseError => "Failed to parse request",
            ErrorCode::InvalidRequest => "Not a valid request",
            ErrorCode::MethodNotFound => "Method not found",
            ErrorCode::InvalidParams => "Invalid method parameters",
            ErrorCode::Internal => "Internal failure",
            ErrorCode::ServerNotInitialised => "Server not initialised",
            ErrorCode::ServerAlreadyInitialised => "Server already initialised",
        }
    }
}

impl ContentType {
    pub fn new(content_type: &str, charset: &str) -> (r: ContentType)
        ensures
            r.content_type@ == content_type@,
            r.charset@ == charset@,
    {
        ContentType { content_type: content_type.to_owned(), charset: charset.to_owned() }
    }

    /// The header value: `type; charset=charset`.
    pub fn text(&self) -> (r: String)
        ensures
            r@ == self.content_type@ + "; charset="@ + self.charset@,
    {
        let mut r = self.content_type.clone();
        r.append("; charset=");
        r.append(self.charset.as_str());
        r
    }
}

/// The content type that frames carry unless they say otherwise.
pub open spec fn is_default_content_type(c: ContentType) -> bool {
    c.content_type@ == "application/vscode-jsonrpc"@ && c.charset@ == "utf-8"@
}

impl Default for ContentType {
    fn default() -> (r: ContentType)
        ensures
            is_default_content_type(r),
    {
        ContentType::new("application/vscode-jsonrpc", "utf-8")
    }
}

impl Headers {
    pub fn new(content_length: usize, content_type: ContentType) -> (r: Headers)
        ensures
            r == (Headers { content_length, content_type }),
    {
        Headers { content_length, content_type }
    }

    pub fn content_length(&self) -> (r: &usize)
        ensures
            *r == self.content_length,
    {
        &self.content_length
    }
}

/// The id that a JSON value stands for: a string, an integer that fits in `u32`, or `null`.
pub open spec fn id_of(j: Json) -> Option<RequestId> {
    match j {
        Json::Str(s) => Some(RequestId::String(s)),
        Json::Int(n) => if 0 <= n <= u32::MAX {
            Some(RequestId::Number(n as u32))
        } else {
            None
        },
        Json::Null => Some(RequestId::Null),
        _ => None,
    }
}

/// The wire form of an id.
pub open spec fn id_view(id: RequestId) -> JsonView {
    match id {
        RequestId::String(s) => JsonView::Str(s@),
        RequestId::Number(n) => JsonView::Int(n as int),
        RequestId::Null => JsonView::Null,
    }
}

impl RequestId {
    /// A copy of this id.
    pub fn copy(&self) -> (r: RequestId)
        ensures
            r == *self,
    {
        match self {
            RequestId::String(s) => RequestId::String(s.clone()),
            RequestId::Number(n) => RequestId::Number(*n),
            RequestId::Null => RequestId::Null,
        }
    }

    pub fn from_json(j: &Json) -> (r: Option<RequestId>)
        ensures
            r == id_of(*j),
    {
        match j {
            Json::Str(s) => Some(RequestId::String(s.clone())),
            Json::Int(n) => if 0 <= *n && *n <= u32::MAX as i128 {
                Some(RequestId::Number(*n as u32))
            } else {
                None
            },
            Json::Null => Some(RequestId::Null),
            _ => None,
        }
    }

    /// The id as text: the string itself, the number in decimal, or `null`.
    pub fn text(&self) -> (r: String)
        ensures
            r@ == match *self {
                RequestId::String(s) => s@,
                RequestId::Number(n) => crate::writer::decimal(n as nat),
                RequestId::Null => "null"@,
            },
    {
        match self {
            RequestId::String(s) => s.clone(),
            RequestId::Number(n) => crate::writer::decimal_text(*n as usize),
            RequestId::Null => "null".to_owned(),
        }
    }

    pub fn to_json(&self) -> (r: Json)
        ensures
            r@ == id_view(*self),
    {
        match self {
            RequestId::String(s) => Json::Str(s.clone()),
            RequestId::Number(n) => Json::Int(*n as i128),
            RequestId::Null => Json::Null,
        }
    }
}

/// Whether the member `jsonrpc` of `j` is the string `"2.0"`.
pub open spec fn version_ok(j: Json) -> bool {
    match required_text(member(j, "jsonrpc"@)) {
        Some(v) => v@ == "2.0"@,
        None => false,
    }
}

/// Whether `j` carries the protocol version.
pub fn has_version(j: &Json) -> (r: bool)
    ensures
        r == version_ok(*j),
{
    match j.get("jsonrpc") {
        Some(Json::Str(v)) => text_is(v, "2.0"),
        _ => false,
    }
}

/// The request that `j` describes: an object with `jsonrpc` `"2.0"`, a request method and its
/// `params`, and an `id`. Other members are ignored.
pub open spec fn request_of(j: Json) -> Option<Request> {
    if version_ok(j) {
        match (required_text(member(j, "method"@)), member(j, "id"@)) {
            (Some(name), Some(i)) => match (request_method_of(name@, member(j, "params"@)), id_of(i)) {
                (Some(method), Some(id)) => Some(Request { jsonrpc: Version::V2, method, id }),
                _ => None,
            },
            _ => None,
        }
    } else {
        None
    }
}

/// The notification that `j` describes: an object with `jsonrpc` `"2.0"` and a notification
/// method with its `params`. Other members, an `id` among them, are ignored.
pub open spec fn notification_of(j: Json) -> Option<Notification> {
    if version_ok(j) {
        match required_text(member(j, "method"@)) {
            Some(name) => match notification_method_of(name@, member(j, "params"@)) {
                Some(method) => Some(Notification { jsonrpc: Version::V2, method }),
                None => None,
            },
            None => None,
        }
    } else {
        None
    }
}

/// Whether `j` is a non-empty array of requests.
pub open spec fn is_batch(j: Json) -> bool {
    match j {
        Json::Array(items) => items@.len() > 0 && forall|i: int|
            0 <= i < items@.len() ==> (#[trigger] request_of(items@[i])) is Some,
        _ => false,
    }
}

/// Whether `m` is the message that `j` describes. A request is read first, then a batch of
/// requests, then a notification: `j` describes at most one message.
pub open spec fn decodes_to(j: Json, m: Message) -> bool {
    match m {
        Message::Request(q) => request_of(j) == Some(q),
        Message::BatchRequest(v) => {
            &&& request_of(j) is None
            &&& is_batch(j)
            &&& j matches Json::Array(items) && v@.len() == items@.len() && forall|i: int|
                0 <= i < items@.len() ==> request_of(items@[i]) == Some(#[trigger] v@[i])
        },
        Message::Notification(n) => request_of(j) is None && !is_batch(j) && notification_of(j) == Some(n),
        Message::Response(r) => {
            &&& request_of(j) is None
            &&& !is_batch(j)
            &&& notification_of(j) is None
            &&& decodes_response(j, r)
        },
    }
}

/// Whether `j` describes a message.
pub open spec fn is_message(j: Json) -> bool {
    request_of(j) is Some || is_batch(j) || notification_of(j) is Some || is_response(j)
}

/// The error code whose number is `n`.
pub open spec fn code_of(n: int) -> Option<ErrorCode> {
    if n == -32700 {
        Some(ErrorCode::ParseError)
    } else if n == -32600 {
        Some(ErrorCode::InvalidRequest)
    } else if n == -32601 {
        Some(ErrorCode::MethodNotFound)
    } else if n == -32602 {
        Some(ErrorCode::InvalidParams)
    } else if n == -32603 {
        Some(ErrorCode::Internal)
    } else if n == -32002 {
        Some(ErrorCode::ServerNotInitialised)
    } else if n == -32003 {
        Some(ErrorCode::ServerAlreadyInitialised)
    } else {
        None
    }
}

/// The successful response that `j` describes: `jsonrpc` `"2.0"`, a `null` result and an id.
/// (The results that this server gives are never read back.)
pub open spec fn success_of(j: Json) -> Option<SuccessResponse> {
    if version_ok(j) && member(j, "result"@) == Some(Json::Null) {
        match member(j, "id"@) {
            Some(i) => match id_of(i) {
                Some(id) => Some(SuccessResponse { jsonrpc: Version::V2, result: ResponseResult::Null, id }),
                None => None,
            },
            None => None,
        }
    } else {
        None
    }
}

/// The code and message of the error that `x` describes: an integer `code` that is one of the
/// error codes and a string `message`.
pub open spec fn error_shape(x: Json) -> Option<(ErrorCode, String)> {
    match (member(x, "code"@), required_text(member(x, "message"@))) {
        (Some(Json::Int(n)), Some(message)) => match code_of(n as int) {
            Some(code) => Some((code, message)),
            None => None,
        },
        _ => None,
    }
}

/// The data of an error: its member `data`, unless that is missing or `null`.
pub open spec fn data_of(x: Json) -> Option<Json> {
    match member(x, "data"@) {
        None => None,
        Some(Json::Null) => None,
        Some(v) => Some(v),
    }
}

/// Whether `j` describes an error response: `jsonrpc` `"2.0"`, an `error` and an id.
pub open spec fn is_error_response(j: Json) -> bool {
    &&& version_ok(j)
    &&& member(j, "error"@) matches Some(x) && error_shape(x) is Some
    &&& member(j, "id"@) matches Some(i) && id_of(i) is Some
}

/// Whether `j` describes a response: a successful one, an error one, or an array of responses.
pub open spec fn is_response(j: Json) -> bool
    decreases j,
{
    if success_of(j) is Some || is_error_response(j) {
        true
    } else {
        match j {
            Json::Array(items) => forall|i: int| 0 <= i < items@.len() ==> is_response(#[trigger] items@[i]),
            _ => false,
        }
    }
}

/// Whether `r` is the response that `j` describes; a successful response is read first, then an
/// error response, then a batch.
pub open spec fn decodes_response(j: Json, r: Response) -> bool
    decreases r,
{
    match r {
        Response::Success(s) => success_of(j) == Some(s),
        Response::Error(e) => {
            &&& success_of(j) is None
            &&& is_error_response(j)
            &&& e.jsonrpc == Version::V2
            &&& member(j, "error"@) matches Some(x) && error_shape(x) == Some((e.error.code, e.error.message))
                && e.error.data == data_of(x)
            &&& member(j, "id"@) matches Some(i) && id_of(i) == Some(e.id)
        },
        Response::Batch(v) => {
            &&& success_of(j) is None
            &&& !is_error_response(j)
            &&& j matches Json::Array(items) && v@.len() == items@.len() && forall|i: int|
                0 <= i < items@.len() ==> decodes_response(items@[i], #[trigger] v@[i])
        },
    }
}

impl Request {
    pub fn new(id: RequestId, method: RequestMethod) -> (r: Request)
        ensures
            r == (Request { jsonrpc: Version::V2, method, id }),
    {
        Request { jsonrpc: Version::V2, method, id }
    }

    pub fn method(&self) -> (r: &RequestMethod)
        ensures
            *r == self.method,
    {
        &self.method
    }

    pub fn id(&self) -> (r: &RequestId)
        ensures
            *r == self.id,
    {
        &self.id
    }

    /// The request that `j` describes, if any.
    pub fn from_json(j: &Json) -> (r: Option<Request>)
        ensures
            r == request_of(*j),
    {
        if !has_version(j) {
            return None;
        }
        let id = match j.get("id") {
            Some(i) => match RequestId::from_json(i) {
                Some(id) => id,
                None => return None,
            },
            None => return None,
        };
        let method = match RequestMethod::from_json(j) {
            Some(method) => method,
            None => return None,
        };
        Some(Request { jsonrpc: Version::V2, method, id })
    }
}

impl RequestMethod {
    /// The request method that the members `method` and `params` of `j` give.
    pub fn from_json(j: &Json) -> (r: Option<RequestMethod>)
        ensures
            r == match required_text(member(*j, "method"@)) {
                Some(name) => request_method_of(name@, member(*j, "params"@)),
                None => None,
            },
    {
        let name = match get_text(j, "method") {
            Some(name) => name,
            None => return None,
        };
        let params = j.get("params");
        if text_is(&name, "initialize") {
            match params {
                Some(p) => match initialise::Params::from_json(p) {
                    Some(x) => Some(RequestMethod::Initialise(x)),
                    None => None,
                },
                None => None,
            }
        } else if text_is(&name, "shutdown") {
            if is_absent_or_null(j, "params") {
                Some(RequestMethod::Shutdown)
            } else {
                None
            }
        } else if text_is(&name, "textDocument/diagnostic") {
            match params {
                Some(p) => match pull::Params::from_json(p) {
                    Some(x) => Some(RequestMethod::PullDiagnostics(x)),
                    None => None,
                },
                None => None,
            }
        } else {
            None
        }
    }
}

impl Notification {
    pub fn new(method: NotificationMethod) -> (r: Notification)
        ensures
            r == (Notification { jsonrpc: Version::V2, method }),
    {
        Notification { jsonrpc: Version::V2, method }
    }

    pub fn method(&self) -> (r: &NotificationMethod)
        ensures
            *r == self.method,
    {
        &self.method
    }

    /// The notification that `j` describes; `j` itself when it describes none.
    pub fn from_json(j: Json) -> (r: Result<Notification, Json>)
        ensures
            r matches Ok(n) ==> notification_of(j) == Some(n),
            r matches Err(back) ==> notification_of(j) is None && back == j,
    {
        if !has_version(&j) {
            return Err(j);
        }
        let name = match get_text(&j, "method") {
            Some(name) => name,
            None => return Err(j),
        };
        let method = if text_is(&name, "exit") {
            if is_absent_or_null(&j, "params") {
                NotificationMethod::Exit
            } else {
                return Err(j);
            }
        } else if text_is(&name, "initialized") {
            match j.get("params") {
                None => NotificationMethod::Initialised(initialised::Params),
                Some(p) => match initialised::Params::from_json(p) {
                    Some(x) => NotificationMethod::Initialised(x),
                    None => return Err(j),
                },
            }
        } else if text_is(&name, "textDocument/didChange") {
            match j.get("params") {
                Some(p) => match did_change::Params::from_json(p) {
                    Some(x) => NotificationMethod::DidChange(x),
                    None => return Err(j),
                },
                None => return Err(j),
            }
        } else if text_is(&name, "textDocument/didClose") {
            if j.get("params").is_none() {
                return Err(j);
            }
            match take_member(j, "params") {
                Some(p) => NotificationMethod::DidClose(p),
                None => {
                    assert(false);
                    return Err(Json::Null);
                },
            }
        } else if text_is(&name, "textDocument/didOpen") {
            match j.get("params") {
                Some(p) => match did_open::Params::from_json(p) {
                    Some(x) => NotificationMethod::DidOpen(x),
                    None => return Err(j),
                },
                None => return Err(j),
            }
        } else if text_is(&name, "textDocument/didSave") {
            match j.get("params") {
                Some(p) => match did_save::Params::from_json(p) {
                    Some(x) => NotificationMethod::DidSave(x),
                    None => return Err(j),
                },
                None => return Err(j),
            }
        } else {
            return Err(j);
        };
        Ok(Notification { jsonrpc: Version::V2, method })
    }
}

/// The requests of a batch, when `j` is a non-empty array of requests.
fn batch_from_json(j: &Json) -> (r: Option<Vec<Request>>)
    ensures
        r is Some <==> is_batch(*j),
        r matches Some(v) ==> j matches Json::Array(items) && v@.len() == items@.len() && forall|i: int|
            0 <= i < items@.len() ==> request_of(items@[i]) == Some(#[trigger] v@[i]),
{
    match j {
        Json::Array(items) => {
            if items.len() == 0 {
                return None;
            }
            let mut v: Vec<Request> = Vec::new();
            let mut i: usize = 0;
            while i < items.len()
                invariant
                    i <= items@.len(),
                    v@.len() == i,
                    *j == Json::Array(*items),
                    forall|k: int| 0 <= k < i ==> request_of(items@[k]) == Some(#[trigger] v@[k]),
                decreases items@.len() - i,
            {
                match Request::from_json(&items[i]) {
                    Some(q) => v.push(q),
                    None => {
                        assert(request_of(items@[i as int]) is None);
                        return None;
                    },
                }
                i = i + 1;
            }
            assert forall|k: int| 0 <= k < items@.len() implies (#[trigger] request_of(items@[k])) is Some by {
                assert(request_of(items@[k]) == Some(v@[k]));
            }
            Some(v)
        },
        _ => None,
    }
}

impl Message {
    /// The message that `j` describes; `j` itself when it describes none.
    pub fn from_json(j: Json) -> (r: Result<Message, Json>)
        ensures
            r matches Ok(m) ==> decodes_to(j, m),
            r matches Err(back) ==> !is_message(j) && back == j,
    {
        if let Some(q) = Request::from_json(&j) {
            return Ok(Message::Request(q));
        }
        if let Some(v) = batch_from_json(&j) {
            return Ok(Message::BatchRequest(v));
        }
        match Notification::from_json(j) {
            Ok(n) => Ok(Message::Notification(n)),
            Err(back) => if has_response(&back) {
                Ok(Message::Response(response_from_json(back)))
            } else {
                Err(back)
            },
        }
    }
}

/// The wire form of an error: `code`, `message` and `data` (`null` when there is none).
pub open spec fn error_view(e: Error) -> JsonView {
    object_view(
        seq![
            ("code"@, JsonView::Int(code_number(e.code))),
            ("message"@, JsonView::Str(e.message@)),
            ("data"@, crate::diagnostic::data_view(e.data)),
        ],
    )
}

/// The wire form of what a successful response carries.
pub open spec fn result_view(r: ResponseResult) -> JsonView {
    match r {
        ResponseResult::Initialise(x) => initialise::result_view(x),
        ResponseResult::PullDiagnostics(x) => pull::result_view(x),
        ResponseResult::Null => JsonView::Null,
    }
}

/// The wire form of a response: `jsonrpc`, then `result` or `error`, then `id`; a batch is the
/// array of its responses in order.
pub open spec fn response_view(r: Response) -> JsonView
    decreases r,
{
    match r {
        Response::Success(s) => object_view(
            seq![("jsonrpc"@, JsonView::Str("2.0"@)), ("result"@, result_view(s.result)), ("id"@, id_view(s.id))],
        ),
        Response::Error(e) => object_view(
            seq![("jsonrpc"@, JsonView::Str("2.0"@)), ("error"@, error_view(e.error)), ("id"@, id_view(e.id))],
        ),
        Response::Batch(v) => JsonView::Array(responses_view(v@)),
    }
}

/// The wire forms of a sequence of responses.
pub open spec fn responses_view(v: Seq<Response>) -> Seq<JsonView>
    decreases v,
{
    Seq::new(v.len(), |i: int| if 0 <= i < v.len() { response_view(v[i]) } else { JsonView::Null })
}

/// The wire form of a notification that the server sends: `jsonrpc`, `method` and `params`.
pub open spec fn publish_view(p: publish::Params) -> JsonView {
    object_view(
        seq![
            ("jsonrpc"@, JsonView::Str("2.0"@)),
            ("method"@, JsonView::Str("textDocument/publishDiagnostics"@)),
            ("params"@, publish::params_view(p)),
        ],
    )
}

impl Error {
    pub fn new(code: ErrorCode, message: &str, data: Option<Json>) -> (r: Error)
        ensures
            r.code == code,
            r.message@ == message@,
            r.data == data,
    {
        Error { code, message: message.to_owned(), data }
    }

    /// The wire form of this error.
    pub fn into_json(self) -> (r: Json)
        ensures
            r@ == error_view(self),
    {
        let ghost e = self;
        let data = match self.data {
            Some(d) => d,
            None => Json::Null,
        };
        let fields = vec![
            (text_key("code"), int_value(self.code.code() as i128)),
            (text_key("message"), Json::Str(self.message)),
            (text_key("data"), data),
        ];
        assert(members_view(fields@) =~= seq![
            ("code"@, JsonView::Int(code_number(e.code))),
            ("message"@, JsonView::Str(e.message@)),
            ("data"@, crate::diagnostic::data_view(e.data)),
        ]);
        object(fields)
    }
}

impl SuccessResponse {
    pub fn new(id: &RequestId, result: ResponseResult) -> (r: SuccessResponse)
        ensures
            r == (SuccessResponse { jsonrpc: Version::V2, result, id: *id }),
    {
        SuccessResponse { jsonrpc: Version::V2, result, id: id.copy() }
    }
}

impl ErrorResponse {
    pub fn new(id: &RequestId, error: Error) -> (r: ErrorResponse)
        ensures
            r == (ErrorResponse { jsonrpc: Version::V2, error, id: *id }),
    {
        ErrorResponse { jsonrpc: Version::V2, error, id: id.copy() }
    }
}

impl ResponseResult {
    /// The wire form of this result.
    pub fn into_json(self) -> (r: Json)
        ensures
            r@ == result_view(self),
    {
        match self {
            ResponseResult::Initialise(x) => x.to_json(),
            ResponseResult::PullDiagnostics(x) => x.into_json(),
            ResponseResult::Null => Json::Null,
        }
    }
}

impl Response {
    /// The wire form of this response.
    pub fn into_json(self) -> (r: Json)
        ensures
            r@ == response_view(self),
        decreases self,
    {
        let ghost whole = self;
        match self {
            Response::Success(s) => {
                let ghost s0 = s;
                let fields = vec![
                    (text_key("jsonrpc"), text("2.0")),
                    (text_key("result"), s.result.into_json()),
                    (text_key("id"), s.id.to_json()),
                ];
                assert(members_view(fields@) =~= seq![
                    ("jsonrpc"@, JsonView::Str("2.0"@)),
                    ("result"@, result_view(s0.result)),
                    ("id"@, id_view(s0.id)),
                ]);
                object(fields)
            },
            Response::Error(e) => {
                let ghost e0 = e;
                let fields = vec![
                    (text_key("jsonrpc"), text("2.0")),
                    (text_key("error"), e.error.into_json()),
                    (text_key("id"), e.id.to_json()),
                ];
                assert(members_view(fields@) =~= seq![
                    ("jsonrpc"@, JsonView::Str("2.0"@)),
                    ("error"@, error_view(e0.error)),
                    ("id"@, id_view(e0.id)),
                ]);
                object(fields)
            },
            Response::Batch(v) => {
                let ghost all = v@;
                let ghost v0 = v;
                let mut rest = v;
                let mut items: Vec<Json> = Vec::new();
                while rest.len() > 0
                    invariant
                        whole == Response::Batch(v0),
                        whole == self,
                        v0@ == all,
                        items@.len() + rest@.len() == all.len(),
                        rest@ == all.subrange(items@.len() as int, all.len() as int),
                        forall|k: int| 0 <= k < items@.len() ==> #[trigger] items@[k]@ == response_view(all[k]),
                    decreases rest@.len(),
                {
                    let ghost k = items@.len() as int;
                    let x = rest.remove(0);
                    proof {
                        assert(x == v0[k]);
                        assert(whole->Batch_0 == v0);
                        assert(decreases_to!(whole => whole->Batch_0));
                        assert(decreases_to!(v0 => v0[k]));
                        assert(decreases_to!(whole => x));
                    }
                    items.push(x.into_json());
                }
                let ghost t = items@;
                let r = array(items);
                assert(response_view(whole) == JsonView::Array(responses_view(v0@)));
                assert(responses_view(v0@) =~= Seq::new(t.len(), |i: int| t[i]@));
                r
            },
        }
    }
}

/// The wire form of the `textDocument/publishDiagnostics` notification.
pub fn publish_into_json(p: publish::Params) -> (r: Json)
    ensures
        r@ == publish_view(p),
{
    let ghost p0 = p;
    let fields = vec![
        (text_key("jsonrpc"), text("2.0")),
        (text_key("method"), text("textDocument/publishDiagnostics")),
        (text_key("params"), p.into_json()),
    ];
    assert(members_view(fields@) =~= seq![
        ("jsonrpc"@, JsonView::Str("2.0"@)),
        ("method"@, JsonView::Str("textDocument/publishDiagnostics"@)),
        ("params"@, publish::params_view(p0)),
    ]);
    object(fields)
}

impl ErrorCode {
    /// The error code whose number is `n`.
    pub fn from_number(n: i128) -> (r: Option<ErrorCode>)
        ensures
            r == code_of(n as int),
    {
        if n == -32700 {
            Some(ErrorCode::ParseError)
        } else if n == -32600 {
            Some(ErrorCode::InvalidRequest)
        } else if n == -32601 {
            Some(ErrorCode::MethodNotFound)
        } else if n == -32602 {
            Some(ErrorCode::InvalidParams)
        } else if n == -32603 {
            Some(ErrorCode::Internal)
        } else if n == -32002 {
            Some(ErrorCode::ServerNotInitialised)
        } else if n == -32003 {
            Some(ErrorCode::ServerAlreadyInitialised)
        } else {
            None
        }
    }
}

fn success_from_json(j: &Json) -> (r: Option<SuccessResponse>)
    ensures
        r == success_of(*j),
{
    if !has_version(j) {
        return None;
    }
    match j.get("result") {
        Some(Json::Null) => {},
        _ => return None,
    }
    match j.get("id") {
        Some(i) => match RequestId::from_json(i) {
            Some(id) => Some(SuccessResponse { jsonrpc: Version::V2, result: ResponseResult::Null, id }),
            None => None,
        },
        None => None,
    }
}

fn error_shape_from_json(x: &Json) -> (r: Option<(ErrorCode, String)>)
    ensures
        r == error_shape(*x),
{
    match (x.get("code"), get_text(x, "message")) {
        (Some(Json::Int(n)), Some(message)) => match ErrorCode::from_number(*n) {
            Some(code) => Some((code, message)),
            None => None,
        },
        _ => None,
    }
}

fn has_error_response(j: &Json) -> (r: bool)
    ensures
        r == is_error_response(*j),
{
    if !has_version(j) {
        return false;
    }
    let shaped = match j.get("error") {
        Some(x) => error_shape_from_json(x).is_some(),
        None => false,
    };
    let identified = match j.get("id") {
        Some(i) => RequestId::from_json(i).is_some(),
        None => false,
    };
    shaped && identified
}

/// Whether `j` describes a response.
fn has_response(j: &Json) -> (r: bool)
    ensures
        r == is_response(*j),
    decreases j,
{
    if success_from_json(j).is_some() || has_error_response(j) {
        return true;
    }
    match j {
        Json::Array(items) => {
            let mut i: usize = 0;
            while i < items.len()
                invariant
                    i <= items@.len(),
                    *j == Json::Array(*items),
                    success_of(*j) is None && !is_error_response(*j),
                    forall|k: int| 0 <= k < i ==> is_response(#[trigger] items@[k]),
                decreases items@.len() - i,
            {
                proof {
                    assert(decreases_to!(*j => j->Array_0));
                    assert(decreases_to!(j->Array_0 => j->Array_0[i as int]));
                }
                if !has_response(&items[i]) {
                    return false;
                }
                i = i + 1;
            }
            true
        },
        _ => false,
    }
}

/// The response that `j` describes.
fn response_from_json(j: Json) -> (r: Response)
    requires
        is_response(j),
    ensures
        decodes_response(j, r),
    decreases j,
{
    if let Some(s) = success_from_json(&j) {
        return Response::Success(s);
    }
    if has_error_response(&j) {
        // The id, the error and its shape are there: `has_error_response` said so.
        let id = match j.get("id") {
            Some(i) => match RequestId::from_json(i) {
                Some(id) => id,
                None => {
                    assert(false);
                    RequestId::Null
                },
            },
            None => {
                assert(false);
                RequestId::Null
            },
        };
        let x = match take_member(j, "error") {
            Some(x) => x,
            None => {
                assert(false);
                Json::Null
            },
        };
        let (code, message) = match error_shape_from_json(&x) {
            Some(shape) => shape,
            None => {
                assert(false);
                (ErrorCode::Internal, String::new())
            },
        };
        let ghost x0 = x;
        let data = match take_member(x, "data") {
            None => None,
            Some(Json::Null) => None,
            Some(v) => Some(v),
        };
        assert(data == data_of(x0));
        return Response::Error(ErrorResponse { jsonrpc: Version::V2, error: Error { code, message, data }, id });
    }
    let ghost whole = j;
    match j {
        Json::Array(items) => {
            let ghost all = items@;
            let ghost v0 = items;
            let mut rest = items;
            let mut out: Vec<Response> = Vec::new();
            while rest.len() > 0
                invariant
                    whole == Json::Array(v0),
                    whole == j,
                    v0@ == all,
                    success_of(whole) is None && !is_error_response(whole),
                    forall|k: int| 0 <= k < all.len() ==> is_response(#[trigger] all[k]),
                    out@.len() + rest@.len() == all.len(),
                    rest@ == all.subrange(out@.len() as int, all.len() as int),
                    forall|k: int| 0 <= k < out@.len() ==> decodes_response(all[k], #[trigger] out@[k]),
                decreases rest@.len(),
            {
                let ghost k = out@.len() as int;
                let x = rest.remove(0);
                proof {
                    assert(x == v0[k]);
                    assert(whole->Array_0 == v0);
                    assert(decreases_to!(whole => whole->Array_0));
                    assert(decreases_to!(v0 => v0[k]));
                    assert(decreases_to!(whole => x));
                }
                out.push(response_from_json(x));
            }
            Response::Batch(out)
        },
        _ => {
            assert(false);
            Response::Batch(Vec::new())
        },
    }
}

} // verus!
