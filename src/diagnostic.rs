use vstd::prelude::*;

use crate::json::{
    Json, JsonView, array, array_view, int_value, members_view, object, object_view, optional_text_json,
    optional_text_view, text_key,
};

verus! {

/// A finding about a document.
#[derive(Debug, PartialEq, Eq)]
pub struct Diagnostic {
    pub range: Range,
    pub severity: Severity,
    pub code: String,
    pub code_description: Option<CodeDescription>,
    pub source: Option<String>,
    pub message: String,
    pub tags: Vec<Tag>,
    pub related_information: Vec<RelatedInformation>,
    pub data: Option<Json>,
}

/// A position in a document: zero-based line and zero-based character.
#[derive(Debug, Clone, Copy, PartialEq, Eq)]
pub struct Position {
    pub line: usize,
    pub character: usize,
}

/// A span of a document, from `start` to `end`.
#[derive(Debug, Clone, Copy, PartialEq, Eq)]
pub struct Range {
    pub start: Position,
    pub end: Position,
}

#[derive(Debug, Clone, Copy, PartialEq, Eq)]
pub enum Severity {
    Error,
    Warning,
    Information,
    Hint,
}

/// A link to the documentation of a diagnostic's code.
#[derive(Debug, PartialEq, Eq)]
pub struct CodeDescription {
    pub href: String,
}

#[derive(Debug, Clone, Copy, PartialEq, Eq)]
pub enum Tag {
    Unnecessary,
    Deprecated,
}

/// A further place that a diagnostic refers to.
#[derive(Debug, PartialEq, Eq)]
pub struct RelatedInformation {
    pub location: Location,
    pub message: String,
}

/// A span of a named document.
#[derive(Debug, PartialEq, Eq)]
pub struct Location {
    pub uri: String,
    pub range: Range,
}

pub open spec fn position_view(p: Position) -> JsonView {
    object_view(
        seq![("line"@, JsonView::Int(p.line as int)), ("character"@, JsonView::Int(p.character as int))],
    )
}

pub open spec fn range_view(r: Range) -> JsonView {
    object_view(seq![("start"@, position_view(r.start)), ("end"@, position_view(r.end))])
}

/// The number that stands for a severity on the wire.
pub open spec fn severity_number(s: Severity) -> int {
    match s {
        Severity::Error => 1,
        Severity::Warning => 2,
        Severity::Information => 3,
        Severity::Hint => 4,
    }
}

/// The number that stands for a tag on the wire.
pub open spec fn tag_number(t: Tag) -> int {
    match t {
        Tag::Unnecessary => 1,
        Tag::Deprecated => 2,
    }
}

pub open spec fn code_description_view(c: Option<CodeDescription>) -> JsonView {
    match c {
        Some(c) => object_view(seq![("href"@, JsonView::Str(c.href@))]),
        None => JsonView::Null,
    }
}

pub open spec fn location_view(l: Location) -> JsonView {
    object_view(seq![("uri"@, JsonView::Str(l.uri@)), ("range"@, range_view(l.range))])
}

pub open spec fn related_view(r: RelatedInformation) -> JsonView {
    object_view(seq![("location"@, location_view(r.location)), ("message"@, JsonView::Str(r.message@))])
}

pub open spec fn data_view(d: Option<Json>) -> JsonView {
    match d {
        Some(d) => d@,
        None => JsonView::Null,
    }
}

/// The wire form of a diagnostic: an object with the members `range`, `severity`, `code`,
/// `codeDescription`, `source`, `message`, `tags`, `relatedInformation` and `data`, in that order.
pub open spec fn diagnostic_view(d: Diagnostic) -> JsonView {
    object_view(
        seq![
            ("range"@, range_view(d.range)),
            ("severity"@, JsonView::Int(severity_number(d.severity))),
            ("code"@, JsonView::Str(d.code@)),
            ("codeDescription"@, code_description_view(d.code_description)),
            ("source"@, optional_text_view(d.source)),
            ("message"@, JsonView::Str(d.message@)),
            ("tags"@, array_view(Seq::new(d.tags@.len(), |i: int| JsonView::Int(tag_number(d.tags@[i]))))),
            ("relatedInformation"@, array_view(
                Seq::new(d.related_information@.len(), |i: int| related_view(d.related_information@[i])),
            )),
            ("data"@, data_view(d.data)),
        ],
    )
}

pub open spec fn diagnostics_view(ds: Seq<Diagnostic>) -> JsonView {
    array_view(Seq::new(ds.len(), |i: int| diagnostic_view(ds[i])))
}

impl Position {
    pub fn new(line: usize, character: usize) -> (r: Position)
        ensures
            r == (Position { line, character }),
    {
        Position { line, character }
    }

    pub fn to_json(&self) -> (r: Json)
        ensures
            r@ == position_view(*self),
    {
        let fields = vec![
            (text_key("line"), int_value(self.line as i128)),
            (text_key("character"), int_value(self.character as i128)),
        ];
        assert(members_view(fields@) =~= seq![
            ("line"@, JsonView::Int(self.line as int)),
            ("character"@, JsonView::Int(self.character as int)),
        ]);
        object(fields)
    }
}

impl Range {
    pub fn new(start: Position, end: Position) -> (r: Range)
        ensures
            r == (Range { start, end }),
    {
        Range { start, end }
    }

    pub fn to_json(&self) -> (r: Json)
        ensures
            r@ == range_view(*self),
    {
        let fields = vec![(text_key("start"), self.start.to_json()), (text_key("end"), self.end.to_json())];
        assert(members_view(fields@) =~= seq![("start"@, position_view(self.start)), ("end"@, position_view(self.end))]);
        object(fields)
    }
}

impl Severity {
    /// The number that stands for this severity on the wire.
    pub fn value(&self) -> (r: u8)
        ensures
            r == severity_number(*self),
    {
        match self {
            Severity::Error => 1,
            Severity::Warning => 2,
            Severity::Information => 3,
            Severity::Hint => 4,
        }
    }
}

impl Tag {
    /// The number that stands for this tag on the wire.
    pub fn value(&self) -> (r: u8)
        ensures
            r == tag_number(*self),
    {
        match self {
            Tag::Unnecessary => 1,
            Tag::Deprecated => 2,
        }
    }
}

impl CodeDescription {
    pub fn new(href: &str) -> (r: CodeDescription)
        ensures
            r.href@ == href@,
    {
        CodeDescription { href: href.to_owned() }
    }
}

impl Location {
    pub fn new(uri: &str, range: Range) -> (r: Location)
        ensures
            r.uri@ == uri@,
            r.range == range,
    {
        Location { uri: uri.to_owned(), range }
    }

    pub fn to_json(&self) -> (r: Json)
        ensures
            r@ == location_view(*self),
    {
        let fields = vec![(text_key("uri"), Json::Str(self.uri.clone())), (text_key("range"), self.range.to_json())];
        assert(members_view(fields@) =~= seq![("uri"@, JsonView::Str(self.uri@)), ("range"@, range_view(self.range))]);
        object(fields)
    }
}

impl RelatedInformation {
    pub fn new(location: Location, message: &str) -> (r: RelatedInformation)
        ensures
            r.location == location,
            r.message@ == message@,
    {
        RelatedInformation { location, message: message.to_owned() }
    }

    pub fn to_json(&self) -> (r: Json)
        ensures
            r@ == related_view(*self),
    {
        let fields = vec![
            (text_key("location"), self.location.to_json()),
            (text_key("message"), Json::Str(self.message.clone())),
        ];
        assert(members_view(fields@) =~= seq![
            ("location"@, location_view(self.location)),
            ("message"@, JsonView::Str(self.message@)),
        ]);
        object(fields)
    }
}

impl Diagnostic {
    /// The wire form of this diagnostic.
    pub fn into_json(self) -> (r: Json)
        ensures
            r@ == diagnostic_view(self),
    {
        let mut tags: Vec<Json> = Vec::new();
        let mut i: usize = 0;
        while i < self.tags.len()
            invariant
                i <= self.tags@.len(),
                tags@.len() == i,
                forall|k: int| 0 <= k < i ==> #[trigger] tags@[k]@ == JsonView::Int(tag_number(self.tags@[k])),
            decreases self.tags@.len() - i,
        {
            tags.push(int_value(self.tags[i].value() as i128));
            i = i + 1;
        }
        let mut related: Vec<Json> = Vec::new();
        let mut i: usize = 0;
        while i < self.related_information.len()
            invariant
                i <= self.related_information@.len(),
                related@.len() == i,
                forall|k: int| 0 <= k < i ==> #[trigger] related@[k]@ == related_view(self.related_information@[k]),
            decreases self.related_information@.len() - i,
        {
            related.push(self.related_information[i].to_json());
            i = i + 1;
        }
        let code_description = match &self.code_description {
            Some(c) => {
                let fields = vec![(text_key("href"), Json::Str(c.href.clone()))];
                assert(members_view(fields@) =~= seq![("href"@, JsonView::Str(c.href@))]);
                object(fields)
            },
            None => Json::Null,
        };
        let range = self.range.to_json();
        let severity = int_value(self.severity.value() as i128);
        let code = Json::Str(self.code.clone());
        let source = optional_text_json(&self.source);
        let message = Json::Str(self.message.clone());
        let ghost d = self;
        let data = match self.data {
            Some(d) => d,
            None => Json::Null,
        };
        let ghost t = tags@;
        let ghost q = related@;
        let tags = array(tags);
        let related = array(related);
        assert(Seq::new(t.len(), |i: int| t[i]@) =~= Seq::new(self.tags@.len(), |i: int| JsonView::Int(tag_number(self.tags@[i]))));
        assert(Seq::new(q.len(), |i: int| q[i]@) =~= Seq::new(self.related_information@.len(), |i: int| related_view(self.related_information@[i])));
        let fields = vec![
            (text_key("range"), range),
            (text_key("severity"), severity),
            (text_key("code"), code),
            (text_key("codeDescription"), code_description),
            (text_key("source"), source),
            (text_key("message"), message),
            (text_key("tags"), tags),
            (text_key("relatedInformation"), related),
            (text_key("data"), data),
        ];
        assert(members_view(fields@) =~~= seq![
            ("range"@, range_view(d.range)),
            ("severity"@, JsonView::Int(severity_number(d.severity))),
            ("code"@, JsonView::Str(d.code@)),
            ("codeDescription"@, code_description_view(d.code_description)),
            ("source"@, optional_text_view(d.source)),
            ("message"@, JsonView::Str(d.message@)),
            ("tags"@, array_view(Seq::new(d.tags@.len(), |i: int| JsonView::Int(tag_number(d.tags@[i]))))),
            ("relatedInformation"@, array_view(
                Seq::new(d.related_information@.len(), |i: int| related_view(d.related_information@[i])),
            )),
            ("data"@, data_view(d.data)),
        ]);
        object(fields)
    }
}

/// The wire form of a list of diagnostics: an array of their wire forms, in order.
pub fn diagnostics_into_json(ds: Vec<Diagnostic>) -> (r: Json)
    ensures
        r@ == diagnostics_view(ds@),
{
    let ghost all = ds@;
    let mut rest = ds;
    let mut items: Vec<Json> = Vec::new();
    while rest.len() > 0
        invariant
            items@.len() + rest@.len() == all.len(),
            rest@ == all.subrange(items@.len() as int, all.len() as int),
            forall|k: int| 0 <= k < items@.len() ==> #[trigger] items@[k]@ == diagnostic_view(all[k]),
        decreases rest@.len(),
    {
        let d = rest.remove(0);
        items.push(d.into_json());
    }
    let ghost t = items@;
    let r = array(items);
    assert(Seq::new(t.len(), |i: int| t[i]@) =~= Seq::new(all.len(), |i: int| diagnostic_view(all[i])));
    r
}

} // verus!
