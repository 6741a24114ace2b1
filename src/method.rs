use vstd::prelude::*;

use crate::did_change;
use crate::did_open;
use crate::did_save;
use crate::initialise;
use crate::initialised;
use crate::json::{Json, absent_or_null};
use crate::publish;
use crate::pull;

verus! {

/// The methods of requests, each with its parameters.
#[derive(Debug, PartialEq, Eq)]
pub enum RequestMethod {
    Initialise(initialise::Params),
    Shutdown,
    PullDiagnostics(pull::Params),
}

/// The methods of notifications, each with its parameters.
#[derive(Debug, PartialEq, Eq)]
pub enum NotificationMethod {
    Exit,
    Initialised(initialised::Params),
    DidChange(did_change::Params),
    DidClose(Json),
    DidOpen(did_open::Params),
    DidSave(did_save::Params),
    PublishDiagnostics(publish::Params),
}

/// The request method named `name` with the member `params`: `initialize` and
/// `textDocument/diagnostic` need parameters of their shape, `shutdown` takes none (or `null`).
/// Any other name is no request method.
pub open spec fn request_method_of(name: Seq<char>, params: Option<Json>) -> Option<RequestMethod> {
    if name == "initialize"@ {
        match params {
            Some(p) => match initialise::params_of(p) {
                Some(x) => Some(RequestMethod::Initialise(x)),
                None => None,
            },
            None => None,
        }
    } else if name == "shutdown"@ {
        if absent_or_null(params) {
            Some(RequestMethod::Shutdown)
        } else {
            None
        }
    } else if name == "textDocument/diagnostic"@ {
        match params {
            Some(p) => match pull::params_of(p) {
                Some(x) => Some(RequestMethod::PullDiagnostics(x)),
                None => None,
            },
            None => None,
        }
    } else {
        None
    }
}

/// The notification method named `name` with the member `params`. `exit` takes no parameters
/// (or `null`); `initialized` takes none, `null`, `{}` or `[]`; `textDocument/didClose` takes any
/// value; the document events need parameters of their shape. `textDocument/publishDiagnostics`
/// goes from server to client only, and is not read.
pub open spec fn notification_method_of(name: Seq<char>, params: Option<Json>) -> Option<NotificationMethod> {
    if name == "exit"@ {
        if absent_or_null(params) {
            Some(NotificationMethod::Exit)
        } else {
            None
        }
    } else if name == "initialized"@ {
        match params {
            None => Some(NotificationMethod::Initialised(initialised::Params)),
            Some(p) => if initialised::is_empty_params(p) {
                Some(NotificationMethod::Initialised(initialised::Params))
            } else {
                None
            },
        }
    } else if name == "textDocument/didChange"@ {
        match params {
            Some(p) => match did_change::params_of(p) {
                Some(x) => Some(NotificationMethod::DidChange(x)),
                None => None,
            },
            None => None,
        }
    } else if name == "textDocument/didClose"@ {
        match params {
            Some(p) => Some(NotificationMethod::DidClose(p)),
            None => None,
        }
    } else if name == "textDocument/didOpen"@ {
        match params {
            Some(p) => match did_open::params_of(p) {
                Some(x) => Some(NotificationMethod::DidOpen(x)),
                None => None,
            },
            None => None,
        }
    } else if name == "textDocument/didSave"@ {
        match params {
            Some(p) => match did_save::params_of(p) {
                Some(x) => Some(NotificationMethod::DidSave(x)),
                None => None,
            },
            None => None,
        }
    } else {
        None
    }
}

} // verus!
