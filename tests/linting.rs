use cfn_lsp::diagnostic::{Position, Range, Severity, Tag};
use cfn_lsp::json::Json;
use cfn_lsp::lint::{extract_file_path, CfnLinter, LintDiagnostic};

fn obj(fields: Vec<(&str, Json)>) -> Json {
    Json::Object(fields.into_iter().map(|(k, v)| (k.to_string(), v)).collect())
}

fn s(t: &str) -> Json {
    Json::Str(t.to_string())
}

fn finding(level: &str, line: i128) -> Json {
    obj(vec![
        ("Id", s("abc")),
        ("Level", s(level)),
        (
            "Location",
            obj(vec![
                ("Start", obj(vec![("LineNumber", Json::Int(line)), ("ColumnNumber", Json::Int(3))])),
                ("End", obj(vec![("LineNumber", Json::Int(line + 1)), ("ColumnNumber", Json::Int(1))])),
                ("Path", Json::Array(vec![s("Resources")])),
            ]),
        ),
        ("Message", s("Property is wrong")),
        ("Rule", obj(vec![("Id", s("E3002")), ("Source", s("https://example.org/E3002")), ("Description", s("d"))])),
    ])
}

#[test]
fn extracts_unix_path() {
    assert_eq!(extract_file_path("file:///home/me/template.yaml"), "/home/me/template.yaml");
}

#[test]
fn extracts_windows_path() {
    assert_eq!(extract_file_path("file:///C:/Users/me/template.yaml"), "/Users/me/template.yaml");
}

#[test]
fn plain_path_stays() {
    assert_eq!(extract_file_path("template.yaml"), "template.yaml");
    assert_eq!(extract_file_path(""), "");
}

#[test]
fn linter_arguments() {
    assert_eq!(
        CfnLinter::arguments("file:///tmp/t.yaml"),
        vec!["--template".to_string(), "/tmp/t.yaml".to_string(), "--format".to_string(), "json".to_string()]
    );
}

#[test]
fn successful_run_finds_nothing() {
    assert_eq!(CfnLinter::diagnostics(true, None).unwrap().len(), 0);
}

#[test]
fn findings_become_zero_based_diagnostics() {
    let out = CfnLinter::diagnostics(false, Some(Json::Array(vec![finding("Error", 5), finding("Warning", 1)]))).unwrap();
    assert_eq!(out.len(), 2);
    assert_eq!(out[0].range, Range::new(Position::new(4, 2), Position::new(5, 0)));
    assert_eq!(out[0].severity, Severity::Error);
    assert_eq!(out[0].code, "E3002");
    assert_eq!(out[0].code_description.as_ref().unwrap().href, "https://example.org/E3002");
    assert_eq!(out[0].source.as_deref(), Some("cfn-lint"));
    assert_eq!(out[0].message, "Property is wrong");
    assert!(out[0].tags.is_empty() && out[0].related_information.is_empty() && out[0].data.is_none());
    assert_eq!(out[1].severity, Severity::Warning);
    assert_eq!(out[1].range.start, Position::new(0, 2));
}

#[test]
fn malformed_output_is_an_error() {
    assert!(CfnLinter::diagnostics(false, None).is_err());
    assert!(CfnLinter::diagnostics(false, Some(s("oops"))).is_err());
    assert!(CfnLinter::diagnostics(false, Some(Json::Array(vec![finding("Fatal", 1)]))).is_err());
    assert!(CfnLinter::diagnostics(false, Some(Json::Array(vec![finding("Error", 0)]))).is_err());
}

#[test]
fn empty_findings_of_failed_run() {
    assert_eq!(CfnLinter::diagnostics(false, Some(Json::Array(Vec::new()))).unwrap().len(), 0);
}

#[test]
fn reads_one_finding() {
    let f = LintDiagnostic::from_json(&finding("Information", 2)).unwrap();
    assert_eq!(f.start.line_number, 2);
    assert_eq!(f.rule.id, "E3002");
    assert_eq!(f.into_diagnostic().severity, Severity::Information);
}

#[test]
fn severity_and_tag_numbers() {
    assert_eq!(Severity::Error.value(), 1);
    assert_eq!(Severity::Warning.value(), 2);
    assert_eq!(Severity::Information.value(), 3);
    assert_eq!(Severity::Hint.value(), 4);
    assert_eq!(Tag::Unnecessary.value(), 1);
    assert_eq!(Tag::Deprecated.value(), 2);
}
