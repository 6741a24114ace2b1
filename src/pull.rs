use vstd::prelude::*;

use crate::diagnostic::{Diagnostic, diagnostics_into_json, diagnostics_view};
use crate::json::{
    Json, JsonView, get_optional_text, members_view, member, object, object_view, optional_text, text_key,
};

verus! {

/// The parameters of `textDocument/diagnostic`.
#[derive(Debug, PartialEq, Eq)]
pub struct Params {
    pub text_document: TextDocumentIdentifier,
    pub identifier: Option<String>,
    pub previous_result_id: Option<String>,
}

/// The document whose diagnostics are asked for.
#[derive(Debug, PartialEq, Eq)]
pub struct TextDocumentIdentifier {
    pub uri: String,
}

/// A diagnostic report: all findings, or word that they did not change.
#[derive(Debug, PartialEq, Eq)]
pub enum Result {
    Full { kind: ReportKind, result_id: String, items: Vec<Diagnostic> },
    Unchanged { kind: ReportKind, result_id: String },
}

#[derive(Debug, Clone, Copy, PartialEq, Eq)]
pub enum ReportKind {
    Full,
    Unchanged,
}

/// The parameters that `j` describes: an object whose `textDocument` is an object with a string
/// `uri`, and whose `identifier` and `previousResultId` are missing, `null` or strings.
pub open spec fn params_of(j: Json) -> Option<Params> {
    match member(j, "textDocument"@) {
        Some(d) => match (
            crate::json::required_text(member(d, "uri"@)),
            optional_text(member(j, "identifier"@)),
            optional_text(member(j, "previousResultId"@)),
        ) {
            (Some(uri), Some(identifier), Some(previous_result_id)) => Some(
                Params { text_document: TextDocumentIdentifier { uri }, identifier, previous_result_id },
            ),
            _ => None,
        },
        None => None,
    }
}

pub open spec fn kind_name(k: ReportKind) -> Seq<char> {
    match k {
        ReportKind::Full => "full"@,
        ReportKind::Unchanged => "unchanged"@,
    }
}

/// The wire form of a report: `kind`, `result_id` and, for a full one, `items`.
pub open spec fn result_view(r: Result) -> JsonView {
    match r {
        Result::Full { kind, result_id, items } => object_view(
            seq![
                ("kind"@, JsonView::Str(kind_name(kind))),
                ("result_id"@, JsonView::Str(result_id@)),
                ("items"@, diagnostics_view(items@)),
            ],
        ),
        Result::Unchanged { kind, result_id } => object_view(
            seq![("kind"@, JsonView::Str(kind_name(kind))), ("result_id"@, JsonView::Str(result_id@))],
        ),
    }
}

impl Params {
    /// The URI of the document.
    pub fn uri(&self) -> (r: &str)
        ensures
            r@ == self.text_document.uri@,
    {
        self.text_document.uri.as_str()
    }

    pub fn from_json(j: &Json) -> (r: Option<Params>)
        ensures
            r == params_of(*j),
    {
        match j.get("textDocument") {
            Some(d) => match (
                crate::json::get_text(d, "uri"),
                get_optional_text(j, "identifier"),
                get_optional_text(j, "previousResultId"),
            ) {
                (Some(uri), Some(identifier), Some(previous_result_id)) => Some(
                    Params { text_document: TextDocumentIdentifier { uri }, identifier, previous_result_id },
                ),
                _ => None,
            },
            None => None,
        }
    }
}

impl ReportKind {
    pub fn name(&self) -> (r: &'static str)
        ensures
            r@ == kind_name(*self),
    {
        match self {
            ReportKind::Full => "full",
            ReportKind::Unchanged => "unchanged",
        }
    }
}

impl Result {
    /// A full report with the given findings.
    pub fn full(result_id: &str, items: Vec<Diagnostic>) -> (r: Result)
        ensures
            r matches Result::Full { kind, result_id: id, items: found } && kind == ReportKind::Full
                && id@ == result_id@ && found == items,
    {
        Result::Full { kind: ReportKind::Full, result_id: result_id.to_owned(), items }
    }

    /// A report that the findings did not change.
    pub fn unchanged(result_id: &str) -> (r: Result)
        ensures
            r matches Result::Unchanged { kind, result_id: id } && kind == ReportKind::Unchanged
                && id@ == result_id@,
    {
        Result::Unchanged { kind: ReportKind::Unchanged, result_id: result_id.to_owned() }
    }

    /// The wire form of this report.
    pub fn into_json(self) -> (r: Json)
        ensures
            r@ == result_view(self),
    {
        match self {
            Result::Full { kind, result_id, items } => {
                let ghost id = result_id@;
                let ghost found = items@;
                let fields = vec![
                    (text_key("kind"), Json::Str(kind.name().to_owned())),
                    (text_key("result_id"), Json::Str(result_id)),
                    (text_key("items"), diagnostics_into_json(items)),
                ];
                assert(members_view(fields@) =~= seq![
                    ("kind"@, JsonView::Str(kind_name(kind))),
                    ("result_id"@, JsonView::Str(id)),
                    ("items"@, diagnostics_view(found)),
                ]);
                object(fields)
            },
            Result::Unchanged { kind, result_id } => {
                let ghost id = result_id@;
                let fields = vec![
                    (text_key("kind"), Json::Str(kind.name().to_owned())),
                    (text_key("result_id"), Json::Str(result_id)),
                ];
                assert(members_view(fields@) =~= seq![
                    ("kind"@, JsonView::Str(kind_name(kind))),
                    ("result_id"@, JsonView::Str(id)),
                ]);
                object(fields)
            },
        }
    }
}

} // verus!
