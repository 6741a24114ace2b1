use vstd::prelude::*;

use crate::diagnostic::{Diagnostic, diagnostics_into_json, diagnostics_view};
use crate::json::{Json, JsonView, members_view, object, object_view, text_key};

verus! {

/// The parameters of `textDocument/publishDiagnostics`, which the server sends.
#[derive(Debug, PartialEq, Eq)]
pub struct Params {
    pub uri: String,
    pub version: Option<usize>,
    pub diagnostics: Vec<Diagnostic>,
}

/// The wire form of the parameters: `uri`, `version` (`null` when there is none) and
/// `diagnostics`.
pub open spec fn params_view(p: Params) -> JsonView {
    object_view(
        seq![
            ("uri"@, JsonView::Str(p.uri@)),
            ("version"@, match p.version {
                Some(v) => JsonView::Int(v as int),
                None => JsonView::Null,
            }),
            ("diagnostics"@, diagnostics_view(p.diagnostics@)),
        ],
    )
}

impl Params {
    pub fn new(uri: &str, version: Option<usize>, diagnostics: Vec<Diagnostic>) -> (r: Params)
        ensures
            r.uri@ == uri@,
            r.version == version,
            r.diagnostics == diagnostics,
    {
        Params { uri: uri.to_owned(), version, diagnostics }
    }

    /// The wire form of these parameters.
    pub fn into_json(self) -> (r: Json)
        ensures
            r@ == params_view(self),
    {
        let ghost p = self;
        let version = match self.version {
            Some(v) => Json::Int(v as i128),
            None => Json::Null,
        };
        let fields = vec![
            (text_key("uri"), Json::Str(self.uri)),
            (text_key("version"), version),
            (text_key("diagnostics"), diagnostics_into_json(self.diagnostics)),
        ];
        assert(members_view(fields@) =~= seq![
            ("uri"@, JsonView::Str(p.uri@)),
            ("version"@, match p.version {
                Some(v) => JsonView::Int(v as int),
                None => JsonView::Null,
            }),
            ("diagnostics"@, diagnostics_view(p.diagnostics@)),
        ]);
        object(fields)
    }
}

} // verus!
