use vstd::prelude::*;

use crate::json::{
    Json, JsonView, get_optional_text, get_text, members_view, member, object, object_view,
    optional_text, required_text, text, text_key,
};

verus! {

/// The name under which this server presents itself.
pub const SERVER_NAME: &'static str = "cfn-lsp";

/// The version that this server reports.
pub const SERVER_VERSION: &'static str = "0.1.0";

/// The parameters of `initialize` that this server reads.
#[derive(Debug, PartialEq, Eq)]
pub struct Params {
    pub process_id: Option<i32>,
    pub client_info: Option<ClientInfo>,
}

/// The client's name and, if it gave one, its version.
#[derive(Debug, PartialEq, Eq)]
pub struct ClientInfo {
    pub name: String,
    pub version: Option<String>,
}

/// The value of `processId`: missing or `null`, or an integer that fits in `i32`.
pub open spec fn process_id_of(v: Option<Json>) -> Option<Option<i32>> {
    match v {
        None => Some(None),
        Some(Json::Null) => Some(None),
        Some(Json::Int(n)) => if i32::MIN <= n <= i32::MAX {
            Some(Some(n as i32))
        } else {
            None
        },
        _ => None,
    }
}

/// The value of `clientInfo`: missing or `null`, or an object with a string `name` and an
/// optional string `version`.
pub open spec fn client_info_of(v: Option<Json>) -> Option<Option<ClientInfo>> {
    match v {
        None => Some(None),
        Some(Json::Null) => Some(None),
        Some(c) => match (required_text(member(c, "name"@)), optional_text(member(c, "version"@))) {
            (Some(name), Some(version)) => Some(Some(ClientInfo { name, version })),
            _ => None,
        },
    }
}

/// The parameters that `j` describes: an object whose `processId` and `clientInfo` are as above.
pub open spec fn params_of(j: Json) -> Option<Params> {
    match j {
        Json::Object(_) => match (process_id_of(member(j, "processId"@)), client_info_of(member(j, "clientInfo"@))) {
            (Some(process_id), Some(client_info)) => Some(Params { process_id, client_info }),
            _ => None,
        },
        _ => None,
    }
}

impl Params {
    /// A copy of these parameters.
    pub fn copy(&self) -> (r: Params)
        ensures
            r == *self,
    {
        let client_info = match &self.client_info {
            Some(c) => Some(
                ClientInfo {
                    name: c.name.clone(),
                    version: match &c.version {
                        Some(v) => Some(v.clone()),
                        None => None,
                    },
                },
            ),
            None => None,
        };
        Params { process_id: self.process_id, client_info }
    }

    pub fn process_id(&self) -> (r: Option<i32>)
        ensures
            r == self.process_id,
    {
        self.process_id
    }

    pub fn client_info(&self) -> (r: Option<&ClientInfo>)
        ensures
            r matches Some(c) ==> self.client_info == Some(*c),
            r is None ==> self.client_info is None,
    {
        match &self.client_info {
            Some(c) => Some(c),
            None => None,
        }
    }

    pub fn from_json(j: &Json) -> (r: Option<Params>)
        ensures
            r == params_of(*j),
    {
        match j {
            Json::Object(_) => {},
            _ => return None,
        }
        let process_id = match j.get("processId") {
            None => Some(None),
            Some(Json::Null) => Some(None),
            Some(Json::Int(n)) => if i32::MIN as i128 <= *n && *n <= i32::MAX as i128 {
                Some(Some(*n as i32))
            } else {
                None
            },
            _ => None,
        };
        let client_info = match j.get("clientInfo") {
            None => Some(None),
            Some(Json::Null) => Some(None),
            Some(c) => match (get_text(c, "name"), get_optional_text(c, "version")) {
                (Some(name), Some(version)) => Some(Some(ClientInfo { name, version })),
                _ => None,
            },
        };
        match (process_id, client_info) {
            (Some(process_id), Some(client_info)) => Some(Params { process_id, client_info }),
            _ => None,
        }
    }
}

impl ClientInfo {
    /// The client as `name` or `name:version`.
    pub fn text(&self) -> (r: String)
        ensures
            r@ == match self.version {
                Some(v) => self.name@ + ":"@ + v@,
                None => self.name@,
            },
    {
        let mut r = self.name.clone();
        match &self.version {
            Some(v) => {
                r.append(":");
                r.append(v.as_str());
            },
            None => {},
        }
        r
    }
}

impl Default for ClientInfo {
    /// A client that did not say who it is.
    fn default() -> (r: ClientInfo)
        ensures
            r.name@ == "unknown"@,
            r.version is None,
    {
        ClientInfo { name: "unknown".to_owned(), version: None }
    }
}

/// How positions in a document are counted.
#[derive(Debug, Clone, Copy, PartialEq, Eq)]
pub enum PositionEncoding {
    Utf8,
    Utf16,
}

/// How the client sends changes of a document.
#[derive(Debug, Clone, Copy, PartialEq, Eq)]
pub enum TextDocumentSyncKind {
    /// No change events are sent.
    Disabled,
    Full,
    Incremental,
}

/// Which document events the client sends.
#[derive(Debug, PartialEq, Eq)]
pub struct TextDocumentSync {
    pub open_close: bool,
    pub save: bool,
    pub change: TextDocumentSyncKind,
}

/// How the server offers diagnostics.
#[derive(Debug, PartialEq, Eq)]
pub struct DiagnosticOptions {
    pub identifier: String,
    pub inter_file_dependencies: bool,
    pub workspace_diagnostics: bool,
}

/// What the server can do.
#[derive(Debug, PartialEq, Eq)]
pub struct ServerCapabilities {
    pub position_encoding: PositionEncoding,
    pub text_document_sync: TextDocumentSync,
    pub diagnostic_provider: DiagnosticOptions,
}

/// The server's name and version.
#[derive(Debug, PartialEq, Eq)]
pub struct ServerInfo {
    pub name: String,
    pub version: String,
}

/// The result of `initialize`.
#[derive(Debug, PartialEq, Eq)]
pub struct Result {
    pub capabilities: ServerCapabilities,
    pub server_info: ServerInfo,
}

/// The number that stands for a kind of synchronisation on the wire.
pub open spec fn sync_kind_number(k: TextDocumentSyncKind) -> int {
    match k {
        TextDocumentSyncKind::Disabled => 0,
        TextDocumentSyncKind::Full => 1,
        TextDocumentSyncKind::Incremental => 2,
    }
}

/// The name of a position encoding on the wire.
pub open spec fn encoding_name(e: PositionEncoding) -> Seq<char> {
    match e {
        PositionEncoding::Utf8 => "utf-8"@,
        PositionEncoding::Utf16 => "utf-16"@,
    }
}

pub open spec fn capabilities_view(c: ServerCapabilities) -> JsonView {
    object_view(
        seq![
            ("positionEncoding"@, JsonView::Str(encoding_name(c.position_encoding))),
            ("textDocumentSync"@, object_view(
                seq![
                    ("openClose"@, JsonView::Bool(c.text_document_sync.open_close)),
                    ("save"@, JsonView::Bool(c.text_document_sync.save)),
                    ("change"@, JsonView::Int(sync_kind_number(c.text_document_sync.change))),
                ],
            )),
            ("diagnosticProvider"@, object_view(
                seq![
                    ("identifier"@, JsonView::Str(c.diagnostic_provider.identifier@)),
                    ("interFileDependencies"@, JsonView::Bool(c.diagnostic_provider.inter_file_dependencies)),
                    ("workspaceDiagnostics"@, JsonView::Bool(c.diagnostic_provider.workspace_diagnostics)),
                ],
            )),
        ],
    )
}

/// The wire form of the result of `initialize`.
pub open spec fn result_view(r: Result) -> JsonView {
    object_view(
        seq![
            ("capabilities"@, capabilities_view(r.capabilities)),
            ("serverInfo"@, object_view(
                seq![("name"@, JsonView::Str(r.server_info.name@)), ("version"@, JsonView::Str(r.server_info.version@))],
            )),
        ],
    )
}

/// The result that this server gives: UTF-16 positions, open, close and save events without
/// changes, and diagnostics under the server's name that depend on one file only.
pub open spec fn is_server_result(r: Result) -> bool {
    &&& r.capabilities.position_encoding == PositionEncoding::Utf16
    &&& r.capabilities.text_document_sync.open_close
    &&& r.capabilities.text_document_sync.save
    &&& r.capabilities.text_document_sync.change == TextDocumentSyncKind::Disabled
    &&& r.capabilities.diagnostic_provider.identifier@ == SERVER_NAME@
    &&& !r.capabilities.diagnostic_provider.inter_file_dependencies
    &&& !r.capabilities.diagnostic_provider.workspace_diagnostics
    &&& r.server_info.name@ == SERVER_NAME@
    &&& r.server_info.version@ == SERVER_VERSION@
}

impl TextDocumentSyncKind {
    /// The number that stands for this kind on the wire.
    pub fn value(&self) -> (r: u8)
        ensures
            r == sync_kind_number(*self),
    {
        match self {
            TextDocumentSyncKind::Disabled => 0,
            TextDocumentSyncKind::Full => 1,
            TextDocumentSyncKind::Incremental => 2,
        }
    }
}

impl PositionEncoding {
    /// The name of this encoding on the wire.
    pub fn name(&self) -> (r: &'static str)
        ensures
            r@ == encoding_name(*self),
    {
        match self {
            PositionEncoding::Utf8 => "utf-8",
            PositionEncoding::Utf16 => "utf-16",
        }
    }
}

impl Default for PositionEncoding {
    fn default() -> (r: PositionEncoding)
        ensures
            r == PositionEncoding::Utf16,
    {
        PositionEncoding::Utf16
    }
}

impl Default for TextDocumentSyncKind {
    fn default() -> (r: TextDocumentSyncKind)
        ensures
            r == TextDocumentSyncKind::Disabled,
    {
        TextDocumentSyncKind::Disabled
    }
}

impl Default for TextDocumentSync {
    /// Open, close and save events, without changes.
    fn default() -> (r: TextDocumentSync)
        ensures
            r.open_close && r.save && r.change == TextDocumentSyncKind::Disabled,
    {
        TextDocumentSync { open_close: true, save: true, change: TextDocumentSyncKind::default() }
    }
}

impl Default for DiagnosticOptions {
    /// Diagnostics under the server's name, each of one file, none for the whole workspace.
    fn default() -> (r: DiagnosticOptions)
        ensures
            r.identifier@ == SERVER_NAME@,
            !r.inter_file_dependencies,
            !r.workspace_diagnostics,
    {
        DiagnosticOptions {
            identifier: SERVER_NAME.to_owned(),
            inter_file_dependencies: false,
            workspace_diagnostics: false,
        }
    }
}

impl Default for ServerInfo {
    fn default() -> (r: ServerInfo)
        ensures
            r.name@ == SERVER_NAME@,
            r.version@ == SERVER_VERSION@,
    {
        ServerInfo { name: SERVER_NAME.to_owned(), version: SERVER_VERSION.to_owned() }
    }
}

impl Default for Result {
    fn default() -> (r: Result)
        ensures
            is_server_result(r),
    {
        Result {
            capabilities: ServerCapabilities {
                position_encoding: PositionEncoding::default(),
                text_document_sync: TextDocumentSync::default(),
                diagnostic_provider: DiagnosticOptions::default(),
            },
            server_info: ServerInfo::default(),
        }
    }
}

impl Result {
    /// The wire form of this result.
    pub fn to_json(&self) -> (r: Json)
        ensures
            r@ == result_view(*self),
    {
        let c = &self.capabilities;
        let sync_fields = vec![
            (text_key("openClose"), Json::Bool(c.text_document_sync.open_close)),
            (text_key("save"), Json::Bool(c.text_document_sync.save)),
            (text_key("change"), Json::Int(c.text_document_sync.change.value() as i128)),
        ];
        let ghost sync_members = seq![
            ("openClose"@, JsonView::Bool(c.text_document_sync.open_close)),
            ("save"@, JsonView::Bool(c.text_document_sync.save)),
            ("change"@, JsonView::Int(sync_kind_number(c.text_document_sync.change))),
        ];
        assert(members_view(sync_fields@) =~= sync_members);
        let provider_fields = vec![
            (text_key("identifier"), Json::Str(c.diagnostic_provider.identifier.clone())),
            (text_key("interFileDependencies"), Json::Bool(c.diagnostic_provider.inter_file_dependencies)),
            (text_key("workspaceDiagnostics"), Json::Bool(c.diagnostic_provider.workspace_diagnostics)),
        ];
        let ghost provider_members = seq![
            ("identifier"@, JsonView::Str(c.diagnostic_provider.identifier@)),
            ("interFileDependencies"@, JsonView::Bool(c.diagnostic_provider.inter_file_dependencies)),
            ("workspaceDiagnostics"@, JsonView::Bool(c.diagnostic_provider.workspace_diagnostics)),
        ];
        assert(members_view(provider_fields@) =~= provider_members);
        let capability_fields = vec![
            (text_key("positionEncoding"), text(c.position_encoding.name())),
            (text_key("textDocumentSync"), object(sync_fields)),
            (text_key("diagnosticProvider"), object(provider_fields)),
        ];
        assert(members_view(capability_fields@) =~= seq![
            ("positionEncoding"@, JsonView::Str(encoding_name(c.position_encoding))),
            ("textDocumentSync"@, object_view(sync_members)),
            ("diagnosticProvider"@, object_view(provider_members)),
        ]);
        let info_fields = vec![
            (text_key("name"), Json::Str(self.server_info.name.clone())),
            (text_key("version"), Json::Str(self.server_info.version.clone())),
        ];
        let ghost info_members = seq![
            ("name"@, JsonView::Str(self.server_info.name@)),
            ("version"@, JsonView::Str(self.server_info.version@)),
        ];
        assert(members_view(info_fields@) =~= info_members);
        let fields = vec![
            (text_key("capabilities"), object(capability_fields)),
            (text_key("serverInfo"), object(info_fields)),
        ];
        assert(members_view(fields@) =~= seq![
            ("capabilities"@, capabilities_view(self.capabilities)),
            ("serverInfo"@, object_view(info_members)),
        ]);
        object(fields)
    }
}

/// The data of a failed `initialize`: whether the client should retry.
#[derive(Debug, PartialEq, Eq)]
pub struct Error {
    pub retry: bool,
}

impl Default for Error {
    fn default() -> (r: Error)
        ensures
            !r.retry,
    {
        Error { retry: false }
    }
}

} // verus!
