use vstd::prelude::*;

use crate::model::{ContentType, Headers};
use crate::reader::{
    content_length_at, content_type_at, digits_end, digits_value, ends_at, find_char, find_crlf, header_block,
    is_digit,
};

verus! {

/// Why a response could not be written.
#[derive(Debug, PartialEq, Eq)]
pub struct WriteError {
    pub message: String,
}

impl WriteError {
    pub fn new(message: &str) -> (r: WriteError)
        ensures
            r.message@ == message@,
    {
        WriteError { message: message.to_owned() }
    }

    /// The reason, for a log.
    pub fn text(&self) -> (r: String)
        ensures
            r@ == self.message@,
    {
        self.message.clone()
    }
}

/// The decimal digit for `d`.
pub open spec fn digit_char(d: nat) -> char {
    ((d + '0' as nat) as u32) as char
}

/// The decimal form of `n`, without leading zeros.
pub open spec fn decimal(n: nat) -> Seq<char>
    decreases n,
{
    if n < 10 {
        seq![digit_char(n)]
    } else {
        decimal(n / 10).push(digit_char(n % 10))
    }
}

/// The text of a header block.
pub open spec fn header_text(n: nat, content_type: Seq<char>, charset: Seq<char>) -> Seq<char> {
    "Content-Length: "@ + decimal(n) + "\r\n"@ + "Content-Type: "@ + content_type + "; charset="@ + charset
        + "\r\n"@ + "\r\n"@
}

/// The text of a frame for a body whose UTF-8 encoding has `n` bytes.
pub open spec fn frame_text(n: nat, body: Seq<char>) -> Seq<char> {
    header_text(n, "application/vscode-jsonrpc"@, "utf-8"@) + body
}

fn digit_text(d: u8) -> (r: &'static str)
    requires
        d < 10,
    ensures
        r@ == seq![digit_char(d as nat)],
{
    proof {
        reveal_strlit("0");
        reveal_strlit("1");
        reveal_strlit("2");
        reveal_strlit("3");
        reveal_strlit("4");
        reveal_strlit("5");
        reveal_strlit("6");
        reveal_strlit("7");
        reveal_strlit("8");
        reveal_strlit("9");
    }
    let r = match d {
        0 => "0",
        1 => "1",
        2 => "2",
        3 => "3",
        4 => "4",
        5 => "5",
        6 => "6",
        7 => "7",
        8 => "8",
        _ => "9",
    };
    assert(r@ =~= seq![digit_char(d as nat)]);
    r
}

/// The decimal form of `n`.
pub fn decimal_text(n: usize) -> (r: String)
    ensures
        r@ == decimal(n as nat),
    decreases n,
{
    if n < 10 {
        digit_text(n as u8).to_owned()
    } else {
        let mut r = decimal_text(n / 10);
        r.append(digit_text((n % 10) as u8));
        r
    }
}

impl Headers {
    /// The header block: the `Content-Length` line, the `Content-Type` line and a blank line.
    pub fn text(&self) -> (r: String)
        ensures
            r@ == header_text(
                self.content_length as nat,
                self.content_type.content_type@,
                self.content_type.charset@,
            ),
    {
        let mut r = "Content-Length: ".to_owned();
        r.append(decimal_text(self.content_length).as_str());
        r.append("\r\n");
        r.append("Content-Type: ");
        r.append(self.content_type.text().as_str());
        r.append("\r\n");
        r.append("\r\n");
        r
    }
}

/// The frame for a body: a header block whose `Content-Length` is the body's length in bytes
/// and whose content type is `application/vscode-jsonrpc; charset=utf-8`, then the body.
pub fn frame(body: &str) -> (r: String)
    ensures
        r@ == frame_text(body.len() as nat, body@),
{
    let headers = Headers::new(body.len(), ContentType::default());
    let mut r = headers.text();
    r.append(body);
    r
}

proof fn lemma_digit_char(d: nat)
    requires
        d < 10,
    ensures
        is_digit(digit_char(d)),
        (digit_char(d) as nat - '0' as nat) as nat == d,
{
}

proof fn lemma_decimal(n: nat)
    ensures
        decimal(n).len() >= 1,
        forall|i: int| 0 <= i < decimal(n).len() ==> is_digit(#[trigger] decimal(n)[i]),
        digits_value(decimal(n)) == n,
    decreases n,
{
    if n < 10 {
        lemma_digit_char(n);
        assert(seq![digit_char(n)].drop_last() =~= Seq::<char>::empty());
        assert(digits_value(decimal(n)) == digits_value(Seq::<char>::empty()) * 10 + n);
    } else {
        lemma_decimal(n / 10);
        lemma_digit_char(n % 10);
        let d = decimal(n / 10);
        assert(d.push(digit_char(n % 10)).drop_last() =~= d);
        assert(digits_value(decimal(n)) == digits_value(d) * 10 + n % 10);
        assert((n / 10) * 10 + n % 10 == n) by (nonlinear_arith);
    }
}

proof fn lemma_digits_end_run(s: Seq<char>, i: int, k: int)
    requires
        0 <= i <= k <= s.len(),
        forall|m: int| i <= m < k ==> is_digit(#[trigger] s[m]),
        k < s.len() ==> !is_digit(s[k]),
    ensures
        digits_end(s, i) == k,
    decreases k - i,
{
    if i < k {
        lemma_digits_end_run(s, i + 1, k);
    }
}

proof fn lemma_find_char_run(s: Seq<char>, i: int, k: int, c: char)
    requires
        0 <= i <= k < s.len(),
        forall|m: int| i <= m < k ==> #[trigger] s[m] != c,
        s[k] == c,
    ensures
        find_char(s, i, c) == Some(k),
    decreases k - i,
{
    if i < k {
        lemma_find_char_run(s, i + 1, k, c);
    }
}

proof fn lemma_find_crlf_run(s: Seq<char>, i: int, k: int)
    requires
        0 <= i <= k,
        k + 1 < s.len(),
        forall|m: int| i <= m < k ==> #[trigger] s[m] != '\r',
        s[k] == '\r',
        s[k + 1] == '\n',
    ensures
        find_crlf(s, i) == Some(k),
    decreases k - i,
{
    if i < k {
        lemma_find_crlf_run(s, i + 1, k);
    }
}

/// A header block as written reads back as it was written: the content length, and the type
/// and charset, for any type without `;` and any charset without a carriage return, neither
/// empty.
pub proof fn lemma_header_round_trip(n: usize, t: Seq<char>, c: Seq<char>)
    requires
        t.len() > 0,
        c.len() > 0,
        forall|i: int| 0 <= i < t.len() ==> #[trigger] t[i] != ';',
        forall|i: int| 0 <= i < c.len() ==> #[trigger] c[i] != '\r',
    ensures
        header_block(header_text(n as nat, t, c)) == Some((n, Some((t, c)))),
{
    reveal_strlit("Content-Length: ");
    reveal_strlit("\r\n");
    reveal_strlit("Content-Type: ");
    reveal_strlit("; charset=");
    lemma_decimal(n as nat);
    let a = "Content-Length: "@;
    let d = decimal(n as nat);
    let r = "\r\n"@;
    let b = "Content-Type: "@;
    let k = "; charset="@;
    let s = header_text(n as nat, t, c);
    assert(s == a + d + r + b + t + k + c + r + r);
    let dl = d.len() as int;
    let e = 16 + dl + 2;
    let j = e + 14;
    let p = j + t.len();
    let q0 = p + 10;
    let q = q0 + c.len();
    assert(s.len() == q + 4);
    // The length line.
    assert(s.subrange(0, 16) =~= a);
    assert(s.subrange(16, 16 + dl) =~= d);
    assert forall|m: int| 16 <= m < 16 + dl implies is_digit(#[trigger] s[m]) by {
        assert(s[m] == d[m - 16]);
    }
    assert(s[16 + dl] == '\r');
    lemma_digits_end_run(s, 16, 16 + dl);
    assert(s.subrange(16 + dl, 16 + dl + 2) =~= r);
    assert(content_length_at(s, 0) == Some((n, e)));
    // The type line.
    assert(s.subrange(e, e + 14) =~= b);
    assert forall|m: int| j <= m < p implies #[trigger] s[m] != ';' by {
        assert(s[m] == t[m - j]);
    }
    assert(s[p] == ';');
    lemma_find_char_run(s, j, p, ';');
    assert(s.subrange(p, p + 10) =~= k);
    assert forall|m: int| q0 <= m < q implies #[trigger] s[m] != '\r' by {
        assert(s[m] == c[m - q0]);
    }
    assert(s[q] == '\r' && s[q + 1] == '\n');
    lemma_find_crlf_run(s, q0, q);
    assert(s.subrange(j, p) =~= t);
    assert(s.subrange(q0, q) =~= c);
    assert(content_type_at(s, e) == Some((t, c, q + 2)));
    // The blank line.
    assert(s.subrange(q + 2, q + 4) =~= r);
    assert(ends_at(s, q + 2));
}

/// Whether a blank line ends `s` at index `k`: `\r\n\r\n` just before it.
pub open spec fn blank_line_ends_at(s: Seq<char>, k: int) -> bool {
    4 <= k <= s.len() && s.subrange(k - 4, k) == "\r\n\r\n"@
}

/// A header block ends with its first blank line, and with no earlier one, so that reading up
/// to the first blank line reads exactly the block.
pub proof fn lemma_header_ends_at_first_blank_line(n: usize, t: Seq<char>, c: Seq<char>)
    requires
        forall|i: int| 0 <= i < t.len() ==> #[trigger] t[i] != '\r',
        forall|i: int| 0 <= i < c.len() ==> #[trigger] c[i] != '\r',
    ensures
        blank_line_ends_at(header_text(n as nat, t, c), header_text(n as nat, t, c).len() as int),
        forall|k: int| 0 <= k < header_text(n as nat, t, c).len() ==> !blank_line_ends_at(
            #[trigger] header_text(n as nat, t, c),
            k,
        ),
{
    reveal_strlit("Content-Length: ");
    reveal_strlit("\r\n");
    reveal_strlit("\r\n\r\n");
    reveal_strlit("Content-Type: ");
    reveal_strlit("; charset=");
    lemma_decimal(n as nat);
    let a = "Content-Length: "@;
    let d = decimal(n as nat);
    let r = "\r\n"@;
    let b = "Content-Type: "@;
    let k = "; charset="@;
    let s = header_text(n as nat, t, c);
    assert(s == a + d + r + b + t + k + c + r + r);
    let dl = d.len() as int;
    let e = 16 + dl + 2;
    let j = e + 14;
    let p = j + t.len();
    let q0 = p + 10;
    let q = q0 + c.len();
    assert(s.len() == q + 4);
    assert(s.subrange(q, q + 4) =~= "\r\n\r\n"@);
    assert forall|m: int| 4 <= m < s.len() implies !blank_line_ends_at(s, m) by {
        let i = m - 4;
        if blank_line_ends_at(s, m) {
            assert(s[i] == s.subrange(i, m)[0]);
            assert(s[i + 2] == s.subrange(i, m)[2]);
            assert(s[i] == '\r' && s[i + 2] == '\r');
            if i < 16 {
                assert(s[i] == a[i]);
            } else if i < 16 + dl {
                assert(s[i] == d[i - 16]);
            } else if i == 16 + dl {
                assert(s[i + 2] == b[0]);
            } else if i == 16 + dl + 1 {
                assert(s[i] == r[1]);
            } else if i < j {
                assert(s[i] == b[i - e]);
            } else if i < p {
                assert(s[i] == t[i - j]);
            } else if i < q0 {
                assert(s[i] == k[i - p]);
            } else if i < q {
                assert(s[i] == c[i - q0]);
            } else if i == q + 1 {
                assert(s[i] == r[1]);
            }
        }
    }
}

/// Whether no character of `t` from index `i` on is `c`.
pub open spec fn lacks(t: Seq<char>, c: char, i: int) -> bool
    decreases t.len() - i,
{
    i >= t.len() || (t[i] != c && lacks(t, c, i + 1))
}

proof fn lemma_lacks(t: Seq<char>, c: char, i: int)
    requires
        0 <= i,
        lacks(t, c, i),
    ensures
        forall|m: int| i <= m < t.len() ==> #[trigger] t[m] != c,
    decreases t.len() - i,
{
    if i < t.len() {
        lemma_lacks(t, c, i + 1);
    }
}

/// A frame reads back as it was written: its header block gives the body's length in bytes
/// and the content type `application/vscode-jsonrpc; charset=utf-8`, and what follows the block
/// is the body itself.
pub proof fn lemma_frame_round_trip(n: usize, body: Seq<char>)
    ensures
        frame_text(n as nat, body) == header_text(n as nat, "application/vscode-jsonrpc"@, "utf-8"@) + body,
        header_block(header_text(n as nat, "application/vscode-jsonrpc"@, "utf-8"@)) == Some(
            (n, Some(("application/vscode-jsonrpc"@, "utf-8"@))),
        ),
        blank_line_ends_at(
            header_text(n as nat, "application/vscode-jsonrpc"@, "utf-8"@),
            header_text(n as nat, "application/vscode-jsonrpc"@, "utf-8"@).len() as int,
        ),
        forall|k: int| 0 <= k < header_text(n as nat, "application/vscode-jsonrpc"@, "utf-8"@).len() ==> !blank_line_ends_at(
            #[trigger] header_text(n as nat, "application/vscode-jsonrpc"@, "utf-8"@),
            k,
        ),
{
    reveal_strlit("application/vscode-jsonrpc");
    reveal_strlit("utf-8");
    reveal_with_fuel(lacks, 30);
    assert(lacks("application/vscode-jsonrpc"@, ';', 0));
    assert(lacks("utf-8"@, '\r', 0));
    lemma_lacks("application/vscode-jsonrpc"@, ';', 0);
    lemma_lacks("utf-8"@, '\r', 0);
    assert(lacks("application/vscode-jsonrpc"@, '\r', 0));
    lemma_lacks("application/vscode-jsonrpc"@, '\r', 0);
    lemma_header_ends_at_first_blank_line(n, "application/vscode-jsonrpc"@, "utf-8"@);
    lemma_header_round_trip(n, "application/vscode-jsonrpc"@, "utf-8"@);
}

} // verus!
