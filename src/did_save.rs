use vstd::prelude::*;

use crate::json::{Json, get_text, member, required_text};

verus! {

/// The parameters of `textDocument/didSave`.
#[derive(Debug, PartialEq, Eq)]
pub struct Params {
    pub text_document: TextDocumentIdentifier,
}

/// A document named by its URI.
#[derive(Debug, PartialEq, Eq)]
pub struct TextDocumentIdentifier {
    pub uri: String,
}

/// The document that `j` names: an object with a string member `uri`.
pub open spec fn identifier_of(j: Json) -> Option<TextDocumentIdentifier> {
    match required_text(member(j, "uri"@)) {
        Some(uri) => Some(TextDocumentIdentifier { uri }),
        None => None,
    }
}

/// The parameters that `j` describes: an object whose member `textDocument` names a document.
pub open spec fn params_of(j: Json) -> Option<Params> {
    match member(j, "textDocument"@) {
        Some(d) => match identifier_of(d) {
            Some(text_document) => Some(Params { text_document }),
            None => None,
        },
        None => None,
    }
}

impl TextDocumentIdentifier {
    pub fn uri(&self) -> (r: &str)
        ensures
            r@ == self.uri@,
    {
        self.uri.as_str()
    }

    pub fn from_json(j: &Json) -> (r: Option<TextDocumentIdentifier>)
        ensures
            r == identifier_of(*j),
    {
        match get_text(j, "uri") {
            Some(uri) => Some(TextDocumentIdentifier { uri }),
            None => None,
        }
    }
}

impl Params {
    pub fn text_document(&self) -> (r: &TextDocumentIdentifier)
        ensures
            *r == self.text_document,
    {
        &self.text_document
    }

    pub fn from_json(j: &Json) -> (r: Option<Params>)
        ensures
            r == params_of(*j),
    {
        match j.get("textDocument") {
            Some(d) => match TextDocumentIdentifier::from_json(d) {
                Some(text_document) => Some(Params { text_document }),
                None => None,
            },
            None => None,
        }
    }
}

} // verus!
