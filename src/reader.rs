use vstd::prelude::*;

use crate::json::{Json, member};
use crate::model::{
    ContentType, Error, ErrorCode, ErrorResponse, Headers, Message, RequestId, Response, code_description,
    decodes_to, id_of, is_default_content_type, is_message,
};

verus! {

/// Why a frame could not be read.
#[derive(Debug, PartialEq, Eq)]
pub enum ReadError {
    MalformedHeaders,
    InvalidContentType(String),
    InvalidRequest { id: RequestId, error_code: ErrorCode },
    Internal(String),
}

pub open spec fn is_digit(c: char) -> bool {
    '0' <= c <= '9'
}

/// The number that a string of decimal digits writes.
pub open spec fn digits_value(d: Seq<char>) -> nat
    decreases d.len(),
{
    if d.len() == 0 {
        0
    } else {
        digits_value(d.drop_last()) * 10 + (d.last() as nat - '0' as nat) as nat
    }
}

/// The end of the run of digits that starts at `i`.
pub open spec fn digits_end(s: Seq<char>, i: int) -> int
    decreases s.len() - i,
{
    if 0 <= i < s.len() && is_digit(s[i]) {
        digits_end(s, i + 1)
    } else {
        i
    }
}

/// Whether `lit` stands in `s` at `i`.
pub open spec fn lit_at(s: Seq<char>, i: int, lit: Seq<char>) -> bool {
    0 <= i && i + lit.len() <= s.len() && s.subrange(i, i + lit.len()) == lit
}

/// The first index at or after `i` that holds `c`.
pub open spec fn find_char(s: Seq<char>, i: int, c: char) -> Option<int>
    decreases s.len() - i,
{
    if i < 0 || i >= s.len() {
        None
    } else if s[i] == c {
        Some(i)
    } else {
        find_char(s, i + 1, c)
    }
}

/// The first index at or after `i` where a line break `\r\n` starts.
pub open spec fn find_crlf(s: Seq<char>, i: int) -> Option<int>
    decreases s.len() - i,
{
    if i < 0 || i + 1 >= s.len() {
        None
    } else if s[i] == '\r' && s[i + 1] == '\n' {
        Some(i)
    } else {
        find_crlf(s, i + 1)
    }
}

/// `Content-Length: <digits>\r\n` at `i`, with a value that fits in `usize`: the value and the
/// index after the line.
pub open spec fn content_length_at(s: Seq<char>, i: int) -> Option<(usize, int)> {
    let j = i + 16;
    let k = digits_end(s, j);
    if lit_at(s, i, "Content-Length: "@) && k > j && digits_value(s.subrange(j, k)) <= usize::MAX
        && lit_at(s, k, "\r\n"@) {
        Some((digits_value(s.subrange(j, k)) as usize, k + 2))
    } else {
        None
    }
}

/// `Content-Type: <type>; charset=<charset>\r\n` at `i`, where the type runs up to the first
/// `;` and the charset up to the first line break, and neither is empty: the type, the charset
/// and the index after the line.
pub open spec fn content_type_at(s: Seq<char>, i: int) -> Option<(Seq<char>, Seq<char>, int)> {
    let j = i + 14;
    if lit_at(s, i, "Content-Type: "@) {
        match find_char(s, j, ';') {
            Some(p) => if p > j && lit_at(s, p, "; charset="@) {
                match find_crlf(s, p + 10) {
                    Some(q) => if q > p + 10 {
                        Some((s.subrange(j, p), s.subrange(p + 10, q), q + 2))
                    } else {
                        None
                    },
                    None => None,
                }
            } else {
                None
            },
            None => None,
        }
    } else {
        None
    }
}

/// Whether the blank line `\r\n` at `i` ends `s`.
pub open spec fn ends_at(s: Seq<char>, i: int) -> bool {
    i + 2 == s.len() && lit_at(s, i, "\r\n"@)
}

/// The header block `s`: a `Content-Length` line and an optional `Content-Type` line, in either
/// order, then a blank line that ends the block. The content length and, if given, the type and
/// charset.
pub open spec fn header_block(s: Seq<char>) -> Option<(usize, Option<(Seq<char>, Seq<char>)>)> {
    match content_length_at(s, 0) {
        Some((n, e)) => match content_type_at(s, e) {
            Some((t, c, e2)) => if ends_at(s, e2) {
                Some((n, Some((t, c))))
            } else {
                None
            },
            None => if ends_at(s, e) {
                Some((n, None))
            } else {
                None
            },
        },
        None => match content_type_at(s, 0) {
            Some((t, c, e)) => match content_length_at(s, e) {
                Some((n, e2)) => if ends_at(s, e2) {
                    Some((n, Some((t, c))))
                } else {
                    None
                },
                None => None,
            },
            None => None,
        },
    }
}

proof fn lemma_find_char_bounds(s: Seq<char>, i: int, c: char)
    ensures
        find_char(s, i, c) matches Some(p) ==> i <= p < s.len() && s[p] == c,
    decreases s.len() - i,
{
    if 0 <= i < s.len() && s[i] != c {
        lemma_find_char_bounds(s, i + 1, c);
    }
}

proof fn lemma_find_crlf_bounds(s: Seq<char>, i: int)
    ensures
        find_crlf(s, i) matches Some(q) ==> i <= q && q + 1 < s.len(),
    decreases s.len() - i,
{
    if 0 <= i && i + 1 < s.len() && !(s[i] == '\r' && s[i + 1] == '\n') {
        lemma_find_crlf_bounds(s, i + 1);
    }
}

proof fn lemma_digits_push(d: Seq<char>, c: char)
    ensures
        digits_value(d.push(c)) == digits_value(d) * 10 + (c as nat - '0' as nat) as nat,
{
    assert(d.push(c).drop_last() =~= d);
}

/// Whether `lit` stands in `s` at `i`.
pub fn has_lit(s: &str, len: usize, i: usize, lit: &str) -> (r: bool)
    requires
        len == s@.len(),
    ensures
        r == lit_at(s@, i as int, lit@),
{
    let n = lit.unicode_len();
    if i > len || n > len - i {
        return false;
    }
    let mut k: usize = 0;
    while k < n
        invariant
            n == lit@.len(),
            len == s@.len(),
            i + n <= len,
            k <= n,
            s@.subrange(i as int, i + k) =~= lit@.subrange(0, k as int),
        decreases n - k,
    {
        if s.get_char(i + k) != lit.get_char(k) {
            assert(s@.subrange(i as int, i + n)[k as int] != lit@[k as int]);
            return false;
        }
        k = k + 1;
        assert(s@.subrange(i as int, i + k) =~= lit@.subrange(0, k as int));
    }
    assert(lit@.subrange(0, n as int) =~= lit@);
    true
}

/// The first index at or after `i` that holds `c`.
fn find_char_from(s: &str, len: usize, i: usize, c: char) -> (r: Option<usize>)
    requires
        len == s@.len(),
    ensures
        r matches Some(p) ==> find_char(s@, i as int, c) == Some(p as int),
        r is None ==> find_char(s@, i as int, c) is None,
{
    let mut k = i;
    while k < len
        invariant
            len == s@.len(),
            i <= k,
            find_char(s@, i as int, c) == find_char(s@, k as int, c),
        decreases len - k,
    {
        if s.get_char(k) == c {
            return Some(k);
        }
        k = k + 1;
    }
    None
}

/// The first index at or after `i` where a line break starts.
fn find_crlf_from(s: &str, len: usize, i: usize) -> (r: Option<usize>)
    requires
        len == s@.len(),
    ensures
        r matches Some(p) ==> find_crlf(s@, i as int) == Some(p as int),
        r is None ==> find_crlf(s@, i as int) is None,
{
    let mut k = i;
    while k < len && len - k >= 2
        invariant
            len == s@.len(),
            i <= k,
            find_crlf(s@, i as int) == find_crlf(s@, k as int),
        decreases len - k,
    {
        if s.get_char(k) == '\r' && s.get_char(k + 1) == '\n' {
            return Some(k);
        }
        k = k + 1;
    }
    None
}

/// The `Content-Length` line at `i`: its value and the index after it.
fn content_length_from(s: &str, len: usize, i: usize) -> (r: Option<(usize, usize)>)
    requires
        len == s@.len(),
    ensures
        r matches Some((n, e)) ==> content_length_at(s@, i as int) == Some((n, e as int)) && e <= len,
        r is None ==> content_length_at(s@, i as int) is None,
{
    if !has_lit(s, len, i, "Content-Length: ") {
        return None;
    }
    proof {
        reveal_strlit("Content-Length: ");
        reveal_strlit("\r\n");
    }
    let j = i + 16;
    let mut k = j;
    let mut value: u128 = 0;
    let mut overflow = false;
    while k < len && is_digit_char(s.get_char(k))
        invariant
            len == s@.len(),
            j <= k <= len,
            j == i + 16,
            digits_end(s@, j as int) == digits_end(s@, k as int),
            !overflow ==> value == digits_value(s@.subrange(j as int, k as int)) && value <= usize::MAX,
            overflow ==> digits_value(s@.subrange(j as int, k as int)) > usize::MAX,
        decreases len - k,
    {
        let c = s.get_char(k);
        let ghost before = s@.subrange(j as int, k as int);
        assert(s@.subrange(j as int, k + 1) =~= before.push(c));
        proof {
            lemma_digits_push(before, c);
        }
        if !overflow {
            value = value * 10 + (c as u32 - '0' as u32) as u128;
            if value > usize::MAX as u128 {
                overflow = true;
            }
        }
        k = k + 1;
    }
    if k == j || overflow || !has_lit(s, len, k, "\r\n") {
        return None;
    }
    Some((value as usize, k + 2))
}

fn is_digit_char(c: char) -> (r: bool)
    ensures
        r == is_digit(c),
{
    '0' <= c && c <= '9'
}

/// The `Content-Type` line at `i`: where the type and the charset run, and the index after it.
fn content_type_from(s: &str, len: usize, i: usize) -> (r: Option<(usize, usize, usize, usize, usize)>)
    requires
        len == s@.len(),
    ensures
        r matches Some((a, b, c, d, e)) ==> a <= b <= c <= d <= e <= len && content_type_at(s@, i as int) == Some(
            (s@.subrange(a as int, b as int), s@.subrange(c as int, d as int), e as int),
        ),
        r is None ==> content_type_at(s@, i as int) is None,
{
    proof {
        reveal_strlit("Content-Type: ");
        reveal_strlit("; charset=");
    }
    if !has_lit(s, len, i, "Content-Type: ") {
        return None;
    }
    let j = i + 14;
    let p = match find_char_from(s, len, j, ';') {
        Some(p) => p,
        None => return None,
    };
    if p <= j || !has_lit(s, len, p, "; charset=") {
        return None;
    }
    proof {
        lemma_find_char_bounds(s@, j as int, ';');
        lemma_find_crlf_bounds(s@, p + 10);
    }
    let q = match find_crlf_from(s, len, p + 10) {
        Some(q) => q,
        None => return None,
    };
    if q <= p + 10 {
        return None;
    }
    Some((j, p, p + 10, q, q + 2))
}

/// Reads a `Content-Length` line at the start of `message`: the rest of the text and the value.
pub fn content_length_header(message: &str) -> (r: Option<(&str, usize)>)
    ensures
        r matches Some((rest, n)) ==> content_length_at(message@, 0) matches Some((v, e)) && n == v && rest@
            == message@.subrange(e, message@.len() as int),
        r is None ==> content_length_at(message@, 0) is None,
{
    let len = message.unicode_len();
    match content_length_from(message, len, 0) {
        Some((n, e)) => Some((message.substring_char(e, len), n)),
        None => None,
    }
}

/// Reads a `Content-Type` line at the start of `message`: the rest of the text and the type.
pub fn content_type_header(message: &str) -> (r: Option<(&str, ContentType)>)
    ensures
        r matches Some((rest, ct)) ==> content_type_at(message@, 0) matches Some((t, c, e)) && ct.content_type@ == t
            && ct.charset@ == c && rest@ == message@.subrange(e, message@.len() as int),
        r is None ==> content_type_at(message@, 0) is None,
{
    let len = message.unicode_len();
    match content_type_from(message, len, 0) {
        Some((a, b, c, d, e)) => Some(
            (message.substring_char(e, len), ContentType::new(message.substring_char(a, b), message.substring_char(c, d))),
        ),
        None => None,
    }
}

/// Whether the blank line at `i` ends the text.
fn ends_with_blank_line(s: &str, len: usize, i: usize) -> (r: bool)
    requires
        len == s@.len(),
    ensures
        r == ends_at(s@, i as int),
{
    proof {
        reveal_strlit("\r\n");
    }
    has_lit(s, len, i, "\r\n") && len - i == 2
}

/// Reads a header block: a `Content-Length` line and an optional `Content-Type` line, in either
/// order, and a blank line that ends the text. Without a `Content-Type` line the content type is
/// `application/vscode-jsonrpc; charset=utf-8`.
pub fn headers(message: &str) -> (r: Result<Headers, ReadError>)
    ensures
        r matches Ok(h) ==> header_block(message@) matches Some((n, ct)) && h.content_length == n && match ct {
            Some((t, c)) => h.content_type.content_type@ == t && h.content_type.charset@ == c,
            None => is_default_content_type(h.content_type),
        },
        r matches Err(e) ==> header_block(message@) is None && e == ReadError::MalformedHeaders,
{
    let len = message.unicode_len();
    match content_length_from(message, len, 0) {
        Some((n, e)) => match content_type_from(message, len, e) {
            Some((a, b, c, d, e2)) => if ends_with_blank_line(message, len, e2) {
                let ct = ContentType::new(message.substring_char(a, b), message.substring_char(c, d));
                Ok(Headers::new(n, ct))
            } else {
                Err(ReadError::MalformedHeaders)
            },
            None => if ends_with_blank_line(message, len, e) {
                Ok(Headers::new(n, ContentType::default()))
            } else {
                Err(ReadError::MalformedHeaders)
            },
        },
        None => match content_type_from(message, len, 0) {
            Some((a, b, c, d, e)) => match content_length_from(message, len, e) {
                Some((n, e2)) => if ends_with_blank_line(message, len, e2) {
                    let ct = ContentType::new(message.substring_char(a, b), message.substring_char(c, d));
                    Ok(Headers::new(n, ct))
                } else {
                    Err(ReadError::MalformedHeaders)
                },
                None => Err(ReadError::MalformedHeaders),
            },
            None => Err(ReadError::MalformedHeaders),
        },
    }
}

/// The id that a body that is no message still names: its member `id`, when that is an id;
/// `null` otherwise.
pub open spec fn recovered_id(j: Json) -> RequestId {
    match member(j, "id"@) {
        Some(i) => match id_of(i) {
            Some(id) => id,
            None => RequestId::Null,
        },
        None => RequestId::Null,
    }
}

/// The id that a body that is no message still names.
pub fn request_id(j: &Json) -> (r: RequestId)
    ensures
        r == recovered_id(*j),
{
    match j.get("id") {
        Some(i) => match RequestId::from_json(i) {
            Some(id) => id,
            None => RequestId::Null,
        },
        None => RequestId::Null,
    }
}

/// Reads a frame's body, given as the JSON value it holds or `None` when it is not JSON.
/// Not JSON is a parse error with id `null`; JSON that is no message is an invalid request,
/// with the id that the body names, if any.
pub fn decode(body: Option<Json>) -> (r: Result<Message, ReadError>)
    ensures
        body is None ==> r == Err::<Message, ReadError>(
            ReadError::InvalidRequest { id: RequestId::Null, error_code: ErrorCode::ParseError },
        ),
        body matches Some(j) ==> match r {
            Ok(m) => decodes_to(j, m),
            Err(e) => !is_message(j) && e == ReadError::InvalidRequest {
                id: recovered_id(j),
                error_code: ErrorCode::InvalidRequest,
            },
        },
{
    match body {
        None => Err(ReadError::InvalidRequest { id: RequestId::Null, error_code: ErrorCode::ParseError }),
        Some(j) => match Message::from_json(j) {
            Ok(m) => Ok(m),
            Err(back) => Err(ReadError::InvalidRequest { id: request_id(&back), error_code: ErrorCode::InvalidRequest }),
        },
    }
}

/// A warning about a frame whose charset is not UTF-8; the frame is read all the same.
pub fn content_type_warning(content_type: &ContentType) -> (r: Option<ReadError>)
    ensures
        r is None <==> (content_type.charset@ == "utf-8"@ || content_type.charset@ == "utf8"@),
        r matches Some(e) ==> e matches ReadError::InvalidContentType(t) && t@ == content_type.content_type@
            + "; charset="@ + content_type.charset@,
{
    if crate::json::text_is(&content_type.charset, "utf-8") || crate::json::text_is(&content_type.charset, "utf8") {
        None
    } else {
        Some(ReadError::InvalidContentType(content_type.text()))
    }
}

/// The error response that a frame that could not be read gets.
pub open spec fn is_read_error_response(e: ReadError, r: Response) -> bool {
    &&& r matches Response::Error(er)
    &&& er.jsonrpc == crate::model::Version::V2
    &&& er.error.data is None
    &&& match e {
        ReadError::MalformedHeaders => er.id == RequestId::Null && er.error.code == ErrorCode::InvalidRequest
            && er.error.message@ == "Malformed headers"@,
        ReadError::InvalidContentType(t) => er.id == RequestId::Null && er.error.code
            == ErrorCode::InvalidRequest && er.error.message@ == "Invalid content type '"@ + t@ + "'"@,
        ReadError::InvalidRequest { id, error_code } => er.id == id && er.error.code == error_code
            && er.error.message@ == match error_code {
                ErrorCode::ParseError => "Invalid JSON"@,
                ErrorCode::InvalidRequest => "Invalid request"@,
                _ => code_description(error_code),
            },
        ReadError::Internal(m) => er.id == RequestId::Null && er.error.code == ErrorCode::Internal
            && er.error.message@ == m@,
    }
}

impl ReadError {
    /// The error response for this failure.
    pub fn into_response(self) -> (r: Response)
        ensures
            is_read_error_response(self, r),
    {
        match self {
            ReadError::MalformedHeaders => {
                let error = Error::new(ErrorCode::InvalidRequest, "Malformed headers", None);
                Response::Error(ErrorResponse::new(&RequestId::Null, error))
            },
            ReadError::InvalidContentType(content_type) => {
                let mut message = "Invalid content type '".to_owned();
                message.append(content_type.as_str());
                message.append("'");
                let error = Error::new(ErrorCode::InvalidRequest, message.as_str(), None);
                Response::Error(ErrorResponse::new(&RequestId::Null, error))
            },
            ReadError::InvalidRequest { id, error_code } => {
                let message = match error_code {
                    ErrorCode::ParseError => "Invalid JSON",
                    ErrorCode::InvalidRequest => "Invalid request",
                    _ => error_code.description(),
                };
                let error = Error::new(error_code, message, None);
                Response::Error(ErrorResponse::new(&id, error))
            },
            ReadError::Internal(message) => {
                let error = Error::new(ErrorCode::Internal, message.as_str(), None);
                Response::Error(ErrorResponse::new(&RequestId::Null, error))
            },
        }
    }
}

} // verus!
