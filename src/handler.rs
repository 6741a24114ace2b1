use vstd::prelude::*;

use crate::diagnostic::Diagnostic;
use crate::initialise;
use crate::lint::{Lint, LintError};
use crate::method::{NotificationMethod, RequestMethod};
use crate::model::{
    Error, ErrorCode, ErrorResponse, Message, Notification, Request, RequestId, Response, ResponseResult,
    SuccessResponse, Version, code_number,
};
use crate::publish;
use crate::pull;

verus! {

/// Where a session stands. It only moves forward: from `Uninitialised` to `Initialised`, and
/// from there to `Shutdown`.
#[derive(Debug, PartialEq, Eq)]
pub enum State {
    Uninitialised,
    Initialised(initialise::Params),
    Shutdown,
}

/// What the owner of a session is to do after a message.
#[derive(Debug, PartialEq, Eq)]
pub enum Outcome {
    /// Send this message to the client.
    Send(Message),
    /// Send nothing.
    Nothing,
    /// End the process.
    Exit,
}

/// One session with one client: its state, and the linter that it asks for diagnostics.
pub struct MessageHandler<L: Lint> {
    pub client_process_id: Option<String>,
    pub state: State,
    pub linter: L,
}

/// How far a state has come: 0, 1 or 2.
pub open spec fn stage(s: State) -> int {
    match s {
        State::Uninitialised => 0,
        State::Initialised(_) => 1,
        State::Shutdown => 2,
    }
}

/// The state after request `q` in state `s`.
pub open spec fn next_state(s: State, q: Request) -> State {
    match s {
        State::Uninitialised => match q.method {
            RequestMethod::Initialise(p) => State::Initialised(p),
            _ => State::Uninitialised,
        },
        State::Initialised(p) => match q.method {
            RequestMethod::Shutdown => State::Shutdown,
            _ => State::Initialised(p),
        },
        State::Shutdown => State::Shutdown,
    }
}

/// The state after the requests `qs`, one after the other, from state `s`.
pub open spec fn state_after(s: State, qs: Seq<Request>) -> State
    decreases qs.len(),
{
    if qs.len() == 0 {
        s
    } else {
        next_state(state_after(s, qs.drop_last()), qs.last())
    }
}

/// Whether `r` is the error response with this id, code and message, and no data.
pub open spec fn is_error_answer(r: Response, id: RequestId, code: ErrorCode, message: Seq<char>) -> bool {
    &&& r matches Response::Error(e)
    &&& e.jsonrpc == Version::V2
    &&& e.id == id
    &&& e.error.code == code
    &&& e.error.message@ == message
    &&& e.error.data is None
}

/// Whether `r` is the success response with this id and this result.
pub open spec fn is_success_answer(r: Response, id: RequestId, result: ResponseResult) -> bool {
    r == Response::Success(SuccessResponse { jsonrpc: Version::V2, result, id })
}

/// Whether `r` answers `initialize` with id `id`: success, with the server's capabilities and name.
pub open spec fn is_initialise_answer(r: Response, id: RequestId) -> bool {
    &&& r matches Response::Success(s)
    &&& s.jsonrpc == Version::V2
    &&& s.id == id
    &&& s.result matches ResponseResult::Initialise(x) && initialise::is_server_result(x)
}

/// The response to a pull of diagnostics with id `id`, given what the linter returned.
pub open spec fn is_pull_response(r: Response, id: RequestId, linted: Result<Vec<Diagnostic>, LintError>) -> bool {
    match linted {
        Ok(items) => {
            &&& r matches Response::Success(s)
            &&& s.jsonrpc == Version::V2
            &&& s.id == id
            &&& s.result matches ResponseResult::PullDiagnostics(pull::Result::Full { kind, result_id, items: found })
            &&& kind == pull::ReportKind::Full
            &&& result_id@ == "result"@
            &&& found == items
        },
        Err(_) => is_error_answer(r, id, ErrorCode::Internal, "Failed to generate diagnostics"@),
    }
}

/// Whether `r` answers request `q` in state `s`, as the table of the protocol says:
/// before `initialize` only `initialize` is served; after it, `initialize` again is an error,
/// `shutdown` succeeds with `null` and a pull of diagnostics gives a full report (or an internal
/// error when linting failed); after `shutdown` every request is an invalid request.
pub open spec fn is_answer(s: State, q: Request, r: Response) -> bool {
    match s {
        State::Uninitialised => match q.method {
            RequestMethod::Initialise(_) => is_initialise_answer(r, q.id),
            _ => is_error_answer(r, q.id, ErrorCode::ServerNotInitialised, "Server not initialised"@),
        },
        State::Initialised(_) => match q.method {
            RequestMethod::Initialise(_) => is_error_answer(
                r,
                q.id,
                ErrorCode::ServerAlreadyInitialised,
                "Server already initialised"@,
            ),
            RequestMethod::Shutdown => is_success_answer(r, q.id, ResponseResult::Null),
            RequestMethod::PullDiagnostics(_) => exists|linted: Result<Vec<Diagnostic>, LintError>|
                is_pull_response(r, q.id, linted),
        },
        State::Shutdown => is_error_answer(r, q.id, ErrorCode::InvalidRequest, "server has been shutdown"@),
    }
}

/// Whether `rs` answers the batch `qs` from state `s`: one response per request, in order, each
/// given in the state that the requests before it left.
pub open spec fn is_batch_answer(s: State, qs: Seq<Request>, rs: Seq<Response>) -> bool {
    &&& rs.len() == qs.len()
    &&& forall|i: int| 0 <= i < qs.len() ==> is_answer(state_after(s, qs.take(i)), qs[i], #[trigger] rs[i])
}

/// The id that a single response carries.
pub open spec fn response_id(r: Response) -> Option<RequestId> {
    match r {
        Response::Success(s) => Some(s.id),
        Response::Error(e) => Some(e.id),
        Response::Batch(_) => None,
    }
}

/// The publication that follows a document event, given what the linter returned: the
/// diagnostics of the document, with the event's version; nothing when linting failed.
pub open spec fn is_publish_outcome(
    o: Outcome,
    uri: Seq<char>,
    version: Option<usize>,
    linted: Result<Vec<Diagnostic>, LintError>,
) -> bool {
    match linted {
        Ok(items) => {
            &&& o matches Outcome::Send(Message::Notification(n))
            &&& n.jsonrpc == Version::V2
            &&& n.method matches NotificationMethod::PublishDiagnostics(p)
            &&& p.uri@ == uri
            &&& p.version == version
            &&& p.diagnostics == items
        },
        Err(_) => o == Outcome::Nothing,
    }
}

/// Whether `o` follows notification `n` in state `s`. Before initialisation and after shutdown
/// only `exit` does anything: it ends the process. While initialised, opening or saving a
/// document publishes its diagnostics; anything else, `exit` too, does nothing.
pub open spec fn is_notification_outcome(s: State, n: Notification, o: Outcome) -> bool {
    match s {
        State::Initialised(_) => match n.method {
            NotificationMethod::DidOpen(p) => exists|linted: Result<Vec<Diagnostic>, LintError>|
                is_publish_outcome(o, p.text_document.uri@, Some(p.text_document.version), linted),
            NotificationMethod::DidSave(p) => exists|linted: Result<Vec<Diagnostic>, LintError>|
                is_publish_outcome(o, p.text_document.uri@, None, linted),
            _ => o == Outcome::Nothing,
        },
        _ => match n.method {
            NotificationMethod::Exit => o == Outcome::Exit,
            _ => o == Outcome::Nothing,
        },
    }
}

/// The error response for a request before initialisation.
fn uninitialised_request(id: &RequestId) -> (r: Response)
    ensures
        is_error_answer(r, *id, ErrorCode::ServerNotInitialised, "Server not initialised"@),
{
    let error = Error::new(ErrorCode::ServerNotInitialised, "Server not initialised", None);
    Response::Error(ErrorResponse::new(id, error))
}

/// The error response for `initialize` once initialised.
fn already_initialised(id: &RequestId) -> (r: Response)
    ensures
        is_error_answer(r, *id, ErrorCode::ServerAlreadyInitialised, "Server already initialised"@),
{
    let error = Error::new(ErrorCode::ServerAlreadyInitialised, "Server already initialised", None);
    Response::Error(ErrorResponse::new(id, error))
}

/// The error response for a request after shutdown.
fn request_post_shutdown(id: &RequestId) -> (r: Response)
    ensures
        is_error_answer(r, *id, ErrorCode::InvalidRequest, "server has been shutdown"@),
{
    let error = Error::new(ErrorCode::InvalidRequest, "server has been shutdown", None);
    Response::Error(ErrorResponse::new(id, error))
}

/// The response to a pull of diagnostics with id `id`, given what the linter returned: a full
/// report of the diagnostics, or an internal error.
pub fn pull_response(id: &RequestId, linted: Result<Vec<Diagnostic>, LintError>) -> (r: Response)
    ensures
        is_pull_response(r, *id, linted),
{
    match linted {
        Ok(diagnostics) => {
            let result = pull::Result::full("result", diagnostics);
            Response::Success(SuccessResponse::new(id, ResponseResult::PullDiagnostics(result)))
        },
        Err(_) => {
            let error = Error::new(ErrorCode::Internal, "Failed to generate diagnostics", None);
            Response::Error(ErrorResponse::new(id, error))
        },
    }
}

/// What follows a document event for `uri` at `version`, given what the linter returned.
pub fn publish_outcome(uri: &str, version: Option<usize>, linted: Result<Vec<Diagnostic>, LintError>) -> (o: Outcome)
    ensures
        is_publish_outcome(o, uri@, version, linted),
{
    match linted {
        Ok(diagnostics) => {
            let params = publish::Params::new(uri, version, diagnostics);
            Outcome::Send(Message::Notification(Notification::new(NotificationMethod::PublishDiagnostics(params))))
        },
        Err(_) => Outcome::Nothing,
    }
}

impl<L: Lint> MessageHandler<L> {
    /// A session that has not been initialised.
    pub fn new(client_process_id: Option<&String>, linter: L) -> (r: MessageHandler<L>)
        ensures
            r.state == State::Uninitialised,
            r.client_process_id == match client_process_id {
                Some(p) => Some(*p),
                None => None::<String>,
            },
    {
        let client_process_id = match client_process_id {
            Some(p) => Some(p.clone()),
            None => None,
        };
        MessageHandler { client_process_id, state: State::Uninitialised, linter }
    }

    /// Handles one message. A request gets its response and a batch gets the batch of
    /// responses; a notification may end the process or publish diagnostics; a response from
    /// the client is ignored.
    pub fn handle(&mut self, message: Message) -> (o: Outcome)
        ensures
            match message {
                Message::Request(q) => {
                    &&& o matches Outcome::Send(Message::Response(r))
                    &&& is_answer(old(self).state, q, r)
                    &&& final(self).state == next_state(old(self).state, q)
                },
                Message::BatchRequest(qs) => {
                    &&& o matches Outcome::Send(Message::Response(Response::Batch(rs)))
                    &&& is_batch_answer(old(self).state, qs@, rs@)
                    &&& final(self).state == state_after(old(self).state, qs@)
                },
                Message::Notification(n) => {
                    &&& is_notification_outcome(old(self).state, n, o)
                    &&& final(self).state == old(self).state
                },
                Message::Response(_) => o == Outcome::Nothing && final(self).state == old(self).state,
            },
    {
        match message {
            Message::Request(request) => Outcome::Send(Message::Response(self.handle_request(&request))),
            Message::BatchRequest(requests) => Outcome::Send(
                Message::Response(self.handle_request_batch(requests)),
            ),
            Message::Notification(notification) => self.handle_notification(&notification),
            Message::Response(_) => Outcome::Nothing,
        }
    }

    /// Answers each request of a batch in order, against the state that the ones before it left.
    pub fn handle_request_batch(&mut self, requests: Vec<Request>) -> (r: Response)
        ensures
            r matches Response::Batch(rs) && is_batch_answer(old(self).state, requests@, rs@),
            final(self).state == state_after(old(self).state, requests@),
    {
        let ghost start = self.state;
        let mut responses: Vec<Response> = Vec::new();
        let mut i: usize = 0;
        while i < requests.len()
            invariant
                i <= requests@.len(),
                responses@.len() == i,
                self.state == state_after(start, requests@.take(i as int)),
                forall|k: int| 0 <= k < i ==> is_answer(
                    state_after(start, requests@.take(k)),
                    requests@[k],
                    #[trigger] responses@[k],
                ),
            decreases requests@.len() - i,
        {
            let response = self.handle_request(&requests[i]);
            responses.push(response);
            proof {
                assert(requests@.take(i + 1).drop_last() =~= requests@.take(i as int));
            }
            i = i + 1;
        }
        assert(requests@.take(requests@.len() as int) =~= requests@);
        Response::Batch(responses)
    }

    /// Answers one request and moves the state on.
    pub fn handle_request(&mut self, request: &Request) -> (r: Response)
        ensures
            is_answer(old(self).state, *request, r),
            final(self).state == next_state(old(self).state, *request),
    {
        match &self.state {
            State::Uninitialised => match request.method() {
                RequestMethod::Initialise(params) => self.initialise(request.id(), params),
                _ => uninitialised_request(request.id()),
            },
            State::Shutdown => request_post_shutdown(request.id()),
            State::Initialised(_) => match request.method() {
                RequestMethod::Shutdown => self.shutdown(request.id()),
                RequestMethod::PullDiagnostics(params) => self.pull_diagnostics(request.id(), params),
                RequestMethod::Initialise(_) => already_initialised(request.id()),
            },
        }
    }

    fn handle_notification(&self, notification: &Notification) -> (o: Outcome)
        ensures
            is_notification_outcome(self.state, *notification, o),
    {
        match &self.state {
            State::Uninitialised | State::Shutdown => match notification.method() {
                NotificationMethod::Exit => Outcome::Exit,
                _ => Outcome::Nothing,
            },
            State::Initialised(_) => match notification.method() {
                NotificationMethod::DidOpen(params) => self.publish_diagnostics(
                    params.text_document().uri(),
                    Some(params.text_document().version()),
                ),
                NotificationMethod::DidSave(params) => self.publish_diagnostics(
                    params.text_document().uri(),
                    None,
                ),
                _ => Outcome::Nothing,
            },
        }
    }

    fn initialise(&mut self, id: &RequestId, params: &initialise::Params) -> (r: Response)
        ensures
            is_initialise_answer(r, *id),
            final(self).state == State::Initialised(*params),
    {
        self.state = State::Initialised(params.copy());
        let result = initialise::Result::default();
        Response::Success(SuccessResponse::new(id, ResponseResult::Initialise(result)))
    }

    fn shutdown(&mut self, id: &RequestId) -> (r: Response)
        ensures
            is_success_answer(r, *id, ResponseResult::Null),
            final(self).state == State::Shutdown,
    {
        self.state = State::Shutdown;
        Response::Success(SuccessResponse::new(id, ResponseResult::Null))
    }

    fn pull_diagnostics(&self, id: &RequestId, params: &pull::Params) -> (r: Response)
        ensures
            exists|linted: Result<Vec<Diagnostic>, LintError>| is_pull_response(r, *id, linted),
    {
        let linted = self.linter.lint(params.uri());
        pull_response(id, linted)
    }

    fn publish_diagnostics(&self, uri: &str, version: Option<usize>) -> (o: Outcome)
        ensures
            exists|linted: Result<Vec<Diagnostic>, LintError>| is_publish_outcome(o, uri@, version, linted),
    {
        let linted = self.linter.lint(uri);
        publish_outcome(uri, version, linted)
    }
}

/// Every answer to a single request carries the id of that request.
pub proof fn lemma_id_echo(s: State, q: Request, r: Response)
    requires
        is_answer(s, q, r),
    ensures
        response_id(r) == Some(q.id),
{
    match s {
        State::Initialised(_) => match q.method {
            RequestMethod::PullDiagnostics(_) => {
                let linted = choose|linted: Result<Vec<Diagnostic>, LintError>| is_pull_response(r, q.id, linted);
                assert(is_pull_response(r, q.id, linted));
            },
            _ => {},
        },
        _ => {},
    }
}

/// The answer to a batch has one response per request, and the response at each index answers
/// the request at that index.
pub proof fn lemma_batch_order(s: State, qs: Seq<Request>, rs: Seq<Response>)
    requires
        is_batch_answer(s, qs, rs),
    ensures
        rs.len() == qs.len(),
        forall|i: int| 0 <= i < qs.len() ==> response_id(#[trigger] rs[i]) == Some(qs[i].id),
{
    assert forall|i: int| 0 <= i < qs.len() implies response_id(#[trigger] rs[i]) == Some(qs[i].id) by {
        lemma_id_echo(state_after(s, qs.take(i)), qs[i], rs[i]);
    }
}

/// Before initialisation, any request but `initialize` is refused with "server not initialised"
/// (code -32002) and leaves the state as it was.
pub proof fn lemma_uninitialised_rejection(q: Request, r: Response)
    requires
        !(q.method is Initialise),
        is_answer(State::Uninitialised, q, r),
    ensures
        is_error_answer(r, q.id, ErrorCode::ServerNotInitialised, "Server not initialised"@),
        code_number(ErrorCode::ServerNotInitialised) == -32002,
        next_state(State::Uninitialised, q) == State::Uninitialised,
{
}

/// A request moves the state forward by at most one stage, and never back.
pub proof fn lemma_state_moves_forward(s: State, q: Request)
    ensures
        stage(s) <= stage(next_state(s, q)) <= stage(s) + 1,
        stage(next_state(s, q)) == stage(s) ==> match s {
            State::Initialised(p) => next_state(s, q) == State::Initialised(p),
            _ => next_state(s, q) == s,
        },
{
}

/// A sequence of requests never moves the state back.
pub proof fn lemma_states_move_forward(s: State, qs: Seq<Request>)
    ensures
        stage(s) <= stage(state_after(s, qs)),
    decreases qs.len(),
{
    if qs.len() > 0 {
        lemma_states_move_forward(s, qs.drop_last());
        lemma_state_moves_forward(state_after(s, qs.drop_last()), qs.last());
    }
}

} // verus!
