use cfn_lsp::model::{ContentType, Headers};
use cfn_lsp::reader::{content_length_header, content_type_header, headers, ReadError};
use cfn_lsp::writer::{decimal_text, frame};

#[test]
fn errors_if_not_content_length_header() {
    let result = content_length_header("invalid");
    assert!(result.is_none())
}

#[test]
fn parses_content_length() {
    let actual = content_length_header("Content-Length: 123\r\nSomething").unwrap();
    assert_eq!(actual, ("Something", 123))
}

#[test]
fn errors_if_not_content_type_header() {
    let result = content_type_header("invalid");
    assert!(result.is_none())
}

#[test]
fn parses_content_type() {
    let actual =
        content_type_header("Content-Type: application/vscode-jsonrpc; charset=utf-8\r\nSomething").unwrap();
    assert_eq!(actual, ("Something", ContentType::new("application/vscode-jsonrpc", "utf-8")))
}

#[test]
fn errors_if_not_headers() {
    let result = headers("invalid");
    assert!(result.is_err())
}

#[test]
fn errors_if_missing_content_length() {
    let result = headers("Content-Type: application/json\r\n\r\n");
    assert!(result.is_err())
}

#[test]
fn errors_if_missing_content_remaining() {
    let result = headers("Content-Type: application/json\r\n\r\nSomething");
    assert!(result.is_err())
}

#[test]
fn parses_just_content_length() {
    let actual = headers("Content-Length: 123\r\n\r\n").unwrap();
    assert_eq!(actual, Headers::new(123, ContentType::default()))
}

#[test]
fn parses_all_headers() {
    let actual =
        headers("Content-Length: 123\r\nContent-Type: application/json; charset=utf-8\r\n\r\n").unwrap();
    assert_eq!(actual, Headers::new(123, ContentType::new("application/json", "utf-8")))
}

#[test]
fn parses_all_headers_in_any_order() {
    let actual =
        headers("Content-Type: application/vscode-jsonrpc; charset=utf8\r\nContent-Length: 123\r\n\r\n").unwrap();
    assert_eq!(actual, Headers::new(123, ContentType::new("application/vscode-jsonrpc", "utf8")))
}

#[test]
fn bogus_header_is_malformed() {
    assert_eq!(headers("Bogus: 1\r\n\r\n"), Err(ReadError::MalformedHeaders))
}

#[test]
fn content_length_too_large_is_malformed() {
    assert!(headers("Content-Length: 99999999999999999999999\r\n\r\n").is_err());
    assert_eq!(
        content_length_header("Content-Length: 18446744073709551615\r\n").unwrap().1,
        18446744073709551615usize
    );
}

#[test]
fn two_content_types_are_malformed() {
    assert!(headers("Content-Type: a; charset=b\r\nContent-Type: a; charset=b\r\nContent-Length: 1\r\n\r\n").is_err())
}

#[test]
fn header_block_must_end_with_blank_line() {
    assert!(headers("Content-Length: 12\r\n").is_err());
    assert!(headers("Content-Length: 12\r\n\r\nx").is_err());
}

#[test]
fn writes_decimal() {
    assert_eq!(decimal_text(0), "0");
    assert_eq!(decimal_text(7), "7");
    assert_eq!(decimal_text(1234567890), "1234567890");
}

#[test]
fn frame_advertises_byte_length() {
    let body = r#"{"jsonrpc":"2.0","result":null,"id":2}"#;
    let f = frame(body);
    assert_eq!(
        f,
        format!("Content-Length: 38\r\nContent-Type: application/vscode-jsonrpc; charset=utf-8\r\n\r\n{body}")
    );
    let split = f.find("\r\n\r\n").unwrap() + 4;
    let h = headers(&f[..split]).unwrap();
    assert_eq!(*h.content_length(), body.len());
    assert_eq!(&f[split..], body);
}

#[test]
fn frame_counts_bytes_not_characters() {
    let body = "\"é\"";
    let f = frame(body);
    assert!(f.starts_with("Content-Length: 4\r\n"));
}
