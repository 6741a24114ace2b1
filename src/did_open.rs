use vstd::prelude::*;

use crate::json::{Json, get_text, get_usize, member, required_text, required_usize};

verus! {

/// The parameters of `textDocument/didOpen`.
#[derive(Debug, PartialEq, Eq)]
pub struct Params {
    pub text_document: TextDocumentItem,
}

/// A document that the client opened, with its text.
#[derive(Debug, PartialEq, Eq)]
pub struct TextDocumentItem {
    pub uri: String,
    pub language_id: String,
    pub version: usize,
    pub text: String,
}

/// The document item that `j` describes: an object with the string members `uri`,
/// `languageId` and `text`, and an integer `version` that fits in `usize`.
pub open spec fn item_of(j: Json) -> Option<TextDocumentItem> {
    match (
        required_text(member(j, "uri"@)),
        required_text(member(j, "languageId"@)),
        required_usize(member(j, "version"@)),
        required_text(member(j, "text"@)),
    ) {
        (Some(uri), Some(language_id), Some(version), Some(text)) => Some(
            TextDocumentItem { uri, language_id, version, text },
        ),
        _ => None,
    }
}

/// The parameters that `j` describes: an object whose member `textDocument` describes an item.
pub open spec fn params_of(j: Json) -> Option<Params> {
    match member(j, "textDocument"@) {
        Some(d) => match item_of(d) {
            Some(text_document) => Some(Params { text_document }),
            None => None,
        },
        None => None,
    }
}

impl Params {
    pub fn text_document(&self) -> (r: &TextDocumentItem)
        ensures
            *r == self.text_document,
    {
        &self.text_document
    }

    pub fn from_json(j: &Json) -> (r: Option<Params>)
        ensures
            r == params_of(*j),
    {
        match j.get("textDocument") {
            Some(d) => {
                let uri = get_text(d, "uri");
                let language_id = get_text(d, "languageId");
                let version = get_usize(d, "version");
                let text = get_text(d, "text");
                match (uri, language_id, version, text) {
                    (Some(uri), Some(language_id), Some(version), Some(text)) => Some(
                        Params { text_document: TextDocumentItem { uri, language_id, version, text } },
                    ),
                    _ => None,
                }
            },
            None => None,
        }
    }
}

impl TextDocumentItem {
    pub fn uri(&self) -> (r: &str)
        ensures
            r@ == self.uri@,
    {
        self.uri.as_str()
    }

    pub fn version(&self) -> (r: usize)
        ensures
            r == self.version,
    {
        self.version
    }
}

} // verus!
