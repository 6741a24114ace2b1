use vstd::prelude::*;

use crate::diagnostic::{CodeDescription, Diagnostic, Position, Range, Severity};
use crate::json::{Json, get_text, member, required_text, text_is};
use crate::reader::lit_at;

verus! {

/// Why a document could not be linted.
#[derive(Debug, PartialEq, Eq)]
pub struct LintError {
    pub message: String,
}

impl LintError {
    pub fn new(message: &str) -> (r: LintError)
        ensures
            r.message@ == message@,
    {
        LintError { message: message.to_owned() }
    }

    /// The reason, for a log.
    pub fn text(&self) -> (r: String)
        ensures
            r@ == self.message@,
    {
        self.message.clone()
    }
}

/// Something that finds the diagnostics of a document.
pub trait Lint {
    /// The diagnostics of the document at `uri` (a `file://` URI), in order, or why there are none.
    fn lint(&self, uri: &str) -> (r: Result<Vec<Diagnostic>, LintError>);
}

/// The linter program that [`CfnLinter`] runs.
pub const CFN_LINT: &'static str = "cfn-lint";

/// The linter of CloudFormation templates, run as a program: this type holds what is decided
/// around the run; running it is left to the caller.
#[derive(Debug, Clone, Copy, PartialEq, Eq)]
pub struct CfnLinter;

/// How serious the linter rates a finding.
#[derive(Debug, Clone, Copy, PartialEq, Eq)]
pub enum DiagnosticLevel {
    Error,
    Warning,
    Information,
}

/// A one-based line and column, as the linter counts them.
#[derive(Debug, Clone, Copy, PartialEq, Eq)]
pub struct LintPosition {
    pub line_number: usize,
    pub column_number: usize,
}

/// The rule that a finding breaks.
#[derive(Debug, PartialEq, Eq)]
pub struct Rule {
    pub id: String,
    pub source: String,
}

/// One finding as the linter reports it.
#[derive(Debug, PartialEq, Eq)]
pub struct LintDiagnostic {
    pub id: String,
    pub level: DiagnosticLevel,
    pub start: LintPosition,
    pub end: LintPosition,
    pub message: String,
    pub rule: Rule,
}

/// The text `s` from index `i` on, with every `file://` taken out, left to right.
pub open spec fn without_scheme(s: Seq<char>, i: int) -> Seq<char>
    decreases s.len() - i,
{
    if i < 0 || i >= s.len() {
        Seq::empty()
    } else if lit_at(s, i, "file://"@) && "file://"@.len() > 0 {
        without_scheme(s, i + "file://"@.len())
    } else {
        seq![s[i]] + without_scheme(s, i + 1)
    }
}

/// The index of the last `:` before index `i`, or -1.
pub open spec fn last_colon(t: Seq<char>, i: int) -> int
    decreases i,
{
    if i <= 0 {
        -1
    } else if t[i - 1] == ':' {
        i - 1
    } else {
        last_colon(t, i - 1)
    }
}

/// The local path of a document URI: the URI without `file://`, and of that the part after the
/// last `:` (which drops a drive letter).
pub open spec fn file_path(uri: Seq<char>) -> Seq<char> {
    let t = without_scheme(uri, 0);
    t.subrange(last_colon(t, t.len() as int) + 1, t.len() as int)
}

/// The local path of a document URI.
pub fn extract_file_path(uri: &str) -> (r: String)
    ensures
        r@ == file_path(uri@),
{
    proof {
        reveal_strlit("file://");
    }
    let len = uri.unicode_len();
    let mut t = String::new();
    let mut i: usize = 0;
    while i < len
        invariant
            len == uri@.len(),
            i <= len,
            t@ + without_scheme(uri@, i as int) == without_scheme(uri@, 0),
        decreases len - i,
    {
        proof {
            reveal_strlit("file://");
        }
        if crate::reader::has_lit(uri, len, i, "file://") {
            i = i + 7;
        } else {
            let ghost before = t@;
            t.append(uri.substring_char(i, i + 1));
            assert(before + without_scheme(uri@, i as int) =~= t@ + without_scheme(uri@, i + 1));
            i = i + 1;
        }
    }
    let n = t.unicode_len();
    let mut k = n;
    while k > 0 && t.get_char(k - 1) != ':'
        invariant
            n == t@.len(),
            k <= n,
            last_colon(t@, n as int) == last_colon(t@, k as int),
        decreases k,
    {
        k = k - 1;
    }
    t.as_str().substring_char(k, n).to_owned()
}

/// The level that `j` names.
pub open spec fn level_of(j: Option<Json>) -> Option<DiagnosticLevel> {
    match required_text(j) {
        Some(s) => if s@ == "Error"@ {
            Some(DiagnosticLevel::Error)
        } else if s@ == "Warning"@ {
            Some(DiagnosticLevel::Warning)
        } else if s@ == "Information"@ {
            Some(DiagnosticLevel::Information)
        } else {
            None
        },
        None => None,
    }
}

/// A one-based count: an integer from 1 that fits in `usize`.
pub open spec fn count_of(j: Option<Json>) -> Option<usize> {
    match j {
        Some(Json::Int(n)) => if 1 <= n <= usize::MAX {
            Some(n as usize)
        } else {
            None
        },
        _ => None,
    }
}

/// The position that `j` gives: one-based `LineNumber` and `ColumnNumber`.
pub open spec fn lint_position_of(j: Option<Json>) -> Option<LintPosition> {
    match j {
        Some(p) => match (count_of(member(p, "LineNumber"@)), count_of(member(p, "ColumnNumber"@))) {
            (Some(line_number), Some(column_number)) => Some(LintPosition { line_number, column_number }),
            _ => None,
        },
        None => None,
    }
}

/// The finding that `j` reports: an object with a string `Id`, a `Level`, a `Location` with
/// `Start` and `End`, a string `Message` and a `Rule` with string `Id` and `Source`.
pub open spec fn lint_diagnostic_of(j: Json) -> Option<LintDiagnostic> {
    let location = member(j, "Location"@);
    let rule = member(j, "Rule"@);
    match (
        required_text(member(j, "Id"@)),
        level_of(member(j, "Level"@)),
        location,
        required_text(member(j, "Message"@)),
        rule,
    ) {
        (Some(id), Some(level), Some(l), Some(message), Some(ru)) => match (
            lint_position_of(member(l, "Start"@)),
            lint_position_of(member(l, "End"@)),
            required_text(member(ru, "Id"@)),
            required_text(member(ru, "Source"@)),
        ) {
            (Some(start), Some(end), Some(rule_id), Some(source)) => Some(
                LintDiagnostic { id, level, start, end, message, rule: Rule { id: rule_id, source } },
            ),
            _ => None,
        },
        _ => None,
    }
}

fn get_level(j: &Json, key: &str) -> (r: Option<DiagnosticLevel>)
    ensures
        r == level_of(member(*j, key@)),
{
    match get_text(j, key) {
        Some(s) => if text_is(&s, "Error") {
            Some(DiagnosticLevel::Error)
        } else if text_is(&s, "Warning") {
            Some(DiagnosticLevel::Warning)
        } else if text_is(&s, "Information") {
            Some(DiagnosticLevel::Information)
        } else {
            None
        },
        None => None,
    }
}

fn get_count(j: &Json, key: &str) -> (r: Option<usize>)
    ensures
        r == count_of(member(*j, key@)),
{
    match j.get(key) {
        Some(Json::Int(n)) => if 1 <= *n && *n <= usize::MAX as i128 {
            Some(*n as usize)
        } else {
            None
        },
        _ => None,
    }
}

fn get_lint_position(j: &Json, key: &str) -> (r: Option<LintPosition>)
    ensures
        r == lint_position_of(member(*j, key@)),
{
    match j.get(key) {
        Some(p) => match (get_count(p, "LineNumber"), get_count(p, "ColumnNumber")) {
            (Some(line_number), Some(column_number)) => Some(LintPosition { line_number, column_number }),
            _ => None,
        },
        None => None,
    }
}

/// The severity that stands for a level.
pub open spec fn severity_of(l: DiagnosticLevel) -> Severity {
    match l {
        DiagnosticLevel::Error => Severity::Error,
        DiagnosticLevel::Warning => Severity::Warning,
        DiagnosticLevel::Information => Severity::Information,
    }
}

/// The zero-based position for a one-based one.
pub open spec fn zero_based(p: LintPosition) -> Position {
    Position { line: (p.line_number - 1) as usize, character: (p.column_number - 1) as usize }
}

/// Whether `d` is the diagnostic for finding `f`: its span counted from zero, the severity of its
/// level, the rule's id as code and the rule's source as link, `cfn-lint` as source, its message,
/// and no tags, related places or data.
pub open spec fn is_diagnostic_for(f: LintDiagnostic, d: Diagnostic) -> bool {
    &&& d.range == Range { start: zero_based(f.start), end: zero_based(f.end) }
    &&& d.severity == severity_of(f.level)
    &&& d.code == f.rule.id
    &&& d.code_description matches Some(c) && c.href == f.rule.source
    &&& d.source matches Some(s) && s@ == CFN_LINT@
    &&& d.message == f.message
    &&& d.tags@.len() == 0
    &&& d.related_information@.len() == 0
    &&& d.data is None
}

impl LintDiagnostic {
    pub fn from_json(j: &Json) -> (r: Option<LintDiagnostic>)
        ensures
            r == lint_diagnostic_of(*j),
    {
        let id = get_text(j, "Id");
        let level = get_level(j, "Level");
        let message = get_text(j, "Message");
        match (id, level, j.get("Location"), message, j.get("Rule")) {
            (Some(id), Some(level), Some(l), Some(message), Some(ru)) => match (
                get_lint_position(l, "Start"),
                get_lint_position(l, "End"),
                get_text(ru, "Id"),
                get_text(ru, "Source"),
            ) {
                (Some(start), Some(end), Some(rule_id), Some(source)) => Some(
                    LintDiagnostic { id, level, start, end, message, rule: Rule { id: rule_id, source } },
                ),
                _ => None,
            },
            _ => None,
        }
    }

    /// The diagnostic for this finding.
    pub fn into_diagnostic(self) -> (r: Diagnostic)
        requires
            self.start.line_number >= 1,
            self.start.column_number >= 1,
            self.end.line_number >= 1,
            self.end.column_number >= 1,
        ensures
            is_diagnostic_for(self, r),
    {
        let start = Position::new(self.start.line_number - 1, self.start.column_number - 1);
        let end = Position::new(self.end.line_number - 1, self.end.column_number - 1);
        let severity = match self.level {
            DiagnosticLevel::Error => Severity::Error,
            DiagnosticLevel::Warning => Severity::Warning,
            DiagnosticLevel::Information => Severity::Information,
        };
        Diagnostic {
            range: Range::new(start, end),
            severity,
            code: self.rule.id,
            code_description: Some(CodeDescription { href: self.rule.source }),
            source: Some(CFN_LINT.to_owned()),
            message: self.message,
            tags: Vec::new(),
            related_information: Vec::new(),
            data: None,
        }
    }
}

/// Whether `r` is what the linter's run means: nothing found when it succeeded; otherwise the
/// diagnostics for the findings of its output, in order, when the output is an array of findings.
pub open spec fn is_lint_result(succeeded: bool, output: Option<Json>, r: Result<Vec<Diagnostic>, LintError>) -> bool {
    if succeeded {
        r matches Ok(v) && v@.len() == 0
    } else {
        match output {
            Some(Json::Array(items)) if forall|i: int|
                0 <= i < items@.len() ==> (#[trigger] lint_diagnostic_of(items@[i])) is Some => {
                &&& r matches Ok(v)
                &&& v@.len() == items@.len()
                &&& forall|i: int| 0 <= i < items@.len() ==> #[trigger] is_diagnostic_for(
                    lint_diagnostic_of(items@[i])->Some_0,
                    v@[i],
                )
            },
            _ => r is Err,
        }
    }
}

impl CfnLinter {
    /// The arguments of the linter's run for a document: its local path as the template, and
    /// JSON as the output format.
    pub fn arguments(uri: &str) -> (r: Vec<String>)
        ensures
            r@.len() == 4,
            r@[0]@ == "--template"@,
            r@[1]@ == file_path(uri@),
            r@[2]@ == "--format"@,
            r@[3]@ == "json"@,
    {
        let mut r: Vec<String> = Vec::new();
        r.push("--template".to_owned());
        r.push(extract_file_path(uri));
        r.push("--format".to_owned());
        r.push("json".to_owned());
        r
    }

    /// What a run of the linter found, given whether it succeeded and its output read as JSON
    /// (`None` when the output is not JSON).
    pub fn diagnostics(succeeded: bool, output: Option<Json>) -> (r: Result<Vec<Diagnostic>, LintError>)
        ensures
            is_lint_result(succeeded, output, r),
    {
        if succeeded {
            return Ok(Vec::new());
        }
        match output {
            Some(Json::Array(items)) => {
                let mut found: Vec<Diagnostic> = Vec::new();
                let mut i: usize = 0;
                while i < items.len()
                    invariant
                        i <= items@.len(),
                        found@.len() == i,
                        output == Some(Json::Array(items)),
                        !succeeded,
                        forall|k: int| 0 <= k < i ==> (#[trigger] lint_diagnostic_of(items@[k])) is Some,
                        forall|k: int| 0 <= k < i ==> #[trigger] is_diagnostic_for(
                            lint_diagnostic_of(items@[k])->Some_0,
                            found@[k],
                        ),
                    decreases items@.len() - i,
                {
                    match LintDiagnostic::from_json(&items[i]) {
                        Some(f) => found.push(f.into_diagnostic()),
                        None => {
                            assert(lint_diagnostic_of(items@[i as int]) is None);
                            return Err(LintError::new("Linter response didn't match expected structure"));
                        },
                    }
                    i = i + 1;
                }
                Ok(found)
            },
            _ => Err(LintError::new("Linter response didn't match expected structure")),
        }
    }
}

} // verus!
