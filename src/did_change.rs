use vstd::prelude::*;

use crate::json::{Json, get_text, get_usize, member, required_text, required_usize};

verus! {

/// The parameters of `textDocument/didChange`; the changes themselves are not read.
#[derive(Debug, PartialEq, Eq)]
pub struct Params {
    pub text_document: VersionedTextDocumentIdentifier,
}

/// A document named by its URI, at a version.
#[derive(Debug, PartialEq, Eq)]
pub struct VersionedTextDocumentIdentifier {
    pub version: usize,
    pub uri: String,
}

/// The parameters that `j` describes: an object whose member `textDocument` is an object with
/// an integer `version` that fits in `usize` and a string `uri`.
pub open spec fn params_of(j: Json) -> Option<Params> {
    match member(j, "textDocument"@) {
        Some(d) => match (required_usize(member(d, "version"@)), required_text(member(d, "uri"@))) {
            (Some(version), Some(uri)) => Some(
                Params { text_document: VersionedTextDocumentIdentifier { version, uri } },
            ),
            _ => None,
        },
        None => None,
    }
}

impl Params {
    pub fn text_document(&self) -> (r: &VersionedTextDocumentIdentifier)
        ensures
            *r == self.text_document,
    {
        &self.text_document
    }

    pub fn from_json(j: &Json) -> (r: Option<Params>)
        ensures
            r == params_of(*j),
    {
        match j.get("textDocument") {
            Some(d) => match (get_usize(d, "version"), get_text(d, "uri")) {
                (Some(version), Some(uri)) => Some(
                    Params { text_document: VersionedTextDocumentIdentifier { version, uri } },
                ),
                _ => None,
            },
            None => None,
        }
    }
}

impl VersionedTextDocumentIdentifier {
    pub fn version(&self) -> (r: usize)
        ensures
            r == self.version,
    {
        self.version
    }

    pub fn uri(&self) -> (r: &str)
        ensures
            r@ == self.uri@,
    {
        self.uri.as_str()
    }
}

} // verus!
