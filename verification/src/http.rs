//! Request-line data: the status kinds a handler can answer with and the
//! parsed form of the first line of a request.

use vstd::prelude::*;

verus! {

/// The error statuses the server answers with.
#[derive(Debug, Clone, PartialEq, Eq, Hash, Structural)]
pub enum HttpError {
    BadRequest,
    NotFound,
    InternalServerError,
}

/// The status text each error status answers with.
pub open spec fn error_text(e: HttpError) -> Seq<char> {
    match e {
        HttpError::BadRequest => "400 Bad Request"@,
        HttpError::NotFound => "404 Not Found"@,
        HttpError::InternalServerError => "500 Internal Server Error"@,
    }
}

impl HttpError {
    /// The status line text for this error.
    pub fn to_string(&self) -> (s: String)
        ensures
            s@ == error_text(*self),
    {
        match self {
            HttpError::BadRequest => "400 Bad Request".to_owned(),
            HttpError::NotFound => "404 Not Found".to_owned(),
            HttpError::InternalServerError => "500 Internal Server Error".to_owned(),
        }
    }
}

/// The request methods the server recognises.
#[derive(Debug, Clone, PartialEq, Eq, Hash, Structural)]
pub enum HttpMethod {
    GET,
    POST,
    PUT,
    DELETE,
}

/// The parsed first line of a request: a method and the requested target.
#[derive(Debug, Clone)]
pub struct HttpRequest {
    pub method: HttpMethod,
    pub uri: String,
}

/// The characters that separate the words of a request line.
pub open spec fn is_ws(c: char) -> bool {
    c == ' ' || c == '\t' || c == '\r' || c == '\n' || c == '\u{b}' || c == '\u{c}'
}

/// The first position at or after `i` holding a non-separator, or the end.
pub open spec fn scan_ws(s: Seq<char>, i: int) -> int
    decreases s.len() - i,
{
    if i < 0 || i >= s.len() {
        s.len() as int
    } else if is_ws(s[i]) {
        scan_ws(s, i + 1)
    } else {
        i
    }
}

/// The first position at or after `i` holding a separator, or the end.
pub open spec fn scan_word(s: Seq<char>, i: int) -> int
    decreases s.len() - i,
{
    if i < 0 || i >= s.len() {
        s.len() as int
    } else if !is_ws(s[i]) {
        scan_word(s, i + 1)
    } else {
        i
    }
}

/// Where the first word of the line starts.
pub open spec fn word1_start(s: Seq<char>) -> int {
    scan_ws(s, 0)
}

/// Where the first word of the line ends.
pub open spec fn word1_end(s: Seq<char>) -> int {
    scan_word(s, word1_start(s))
}

/// Where the second word of the line starts.
pub open spec fn word2_start(s: Seq<char>) -> int {
    scan_ws(s, word1_end(s))
}

/// Where the second word of the line ends.
pub open spec fn word2_end(s: Seq<char>) -> int {
    scan_word(s, word2_start(s))
}

/// Whether the line holds at least two words.
pub open spec fn has_two_words(s: Seq<char>) -> bool {
    word2_start(s) < s.len()
}

/// The first word of the line: the method token.
pub open spec fn method_token(s: Seq<char>) -> Seq<char> {
    s.subrange(word1_start(s), word1_end(s))
}

/// The second word of the line: the request target.
pub open spec fn uri_token(s: Seq<char>) -> Seq<char> {
    s.subrange(word2_start(s), word2_end(s))
}

/// Which method a token names, if any.
pub open spec fn parse_method(w: Seq<char>) -> Option<HttpMethod> {
    if w.len() == 3 && w[0] == 'G' && w[1] == 'E' && w[2] == 'T' {
        Some(HttpMethod::GET)
    } else if w.len() == 4 && w[0] == 'P' && w[1] == 'O' && w[2] == 'S' && w[3] == 'T' {
        Some(HttpMethod::POST)
    } else if w.len() == 3 && w[0] == 'P' && w[1] == 'U' && w[2] == 'T' {
        Some(HttpMethod::PUT)
    } else if w.len() == 6 && w[0] == 'D' && w[1] == 'E' && w[2] == 'L' && w[3] == 'E' && w[4]
        == 'T' && w[5] == 'E' {
        Some(HttpMethod::DELETE)
    } else {
        None
    }
}

/// A handler's outcome: a body to send, or the error status to answer with.
pub type HttpResponse = Result<String, HttpError>;

/// The status text of a response.
pub open spec fn status_chars(resp: HttpResponse) -> Seq<char> {
    match resp {
        Ok(_) => "200 OK"@,
        Err(e) => error_text(e),
    }
}

/// The body of a response: the payload on success, the status text itself on
/// an error.
pub open spec fn content_chars(resp: HttpResponse) -> Seq<char> {
    match resp {
        Ok(s) => s@,
        Err(e) => error_text(e),
    }
}

/// The digit character of one decimal digit.
pub open spec fn digit_char(d: nat) -> char {
    if d == 0 {
        '0'
    } else if d == 1 {
        '1'
    } else if d == 2 {
        '2'
    } else if d == 3 {
        '3'
    } else if d == 4 {
        '4'
    } else if d == 5 {
        '5'
    } else if d == 6 {
        '6'
    } else if d == 7 {
        '7'
    } else if d == 8 {
        '8'
    } else {
        '9'
    }
}

/// The decimal numeral of `n`, most significant digit first.
pub open spec fn dec_digits(n: nat) -> Seq<char>
    decreases n,
{
    if n < 10 {
        seq![digit_char(n)]
    } else {
        dec_digits(n / 10).push(digit_char(n % 10))
    }
}

/// The full wire text of a response: status line, the byte length of the
/// body, a blank line, then the body.
pub open spec fn response_text(resp: HttpResponse) -> Seq<char> {
    "HTTP/1.1 "@ + status_chars(resp) + "\r\nContent-length: "@ + dec_digits(
        vstd::utf8::encode_utf8(content_chars(resp)).len(),
    ) + "\r\n\r\n"@ + content_chars(resp)
}

/// The text of one decimal digit.
fn digit_str(d: usize) -> (s: &'static str)
    requires
        d < 10,
    ensures
        s@.len() == 1,
        s@[0] == digit_char(d as nat),
{
    proof {
        reveal_strlit("0");
        reveal_strlit("1");
        reveal_strlit("2");
        reveal_strlit("3");
        reveal_strlit("4");
        reveal_strlit("5");
        reveal_strlit("6");
        reveal_strlit("7");
        reveal_strlit("8");
        reveal_strlit("9");
    }
    match d {
        0 => "0",
        1 => "1",
        2 => "2",
        3 => "3",
        4 => "4",
        5 => "5",
        6 => "6",
        7 => "7",
        8 => "8",
        _ => "9",
    }
}

/// Writes `n` in decimal.
pub fn usize_to_string(n: usize) -> (s: String)
    ensures
        s@ == dec_digits(n as nat),
    decreases n,
{
    if n < 10 {
        let s = digit_str(n).to_owned();
        proof {
            assert(s@ =~= dec_digits(n as nat));
        }
        s
    } else {
        proof {
            assert(n / 10 < n) by (nonlinear_arith)
                requires
                    n >= 10,
            ;
        }
        let mut s = usize_to_string(n / 10);
        s.append(digit_str(n % 10));
        proof {
            assert(s@ =~= dec_digits(n as nat));
        }
        s
    }
}

/// Assembles the wire text of a response: the status line, the
/// content-length of the body in bytes, and the body itself.
pub fn postprocess_response(resp: HttpResponse) -> (s: String)
    ensures
        s@ == response_text(resp),
{
    let ghost gresp = resp;
    let (status, content): (String, String) = match resp {
        Ok(s) => ("200 OK".to_owned(), s),
        Err(e) => (e.to_string(), e.to_string()),
    };
    proof {
        assert(status@ == status_chars(gresp));
        assert(content@ == content_chars(gresp));
    }
    let len = content.as_str().as_bytes().len();
    proof {
        assert(len == vstd::utf8::encode_utf8(content_chars(gresp)).len());
    }
    let number = usize_to_string(len);
    let mut out = "HTTP/1.1 ".to_owned();
    out.append(status.as_str());
    out.append("\r\nContent-length: ");
    out.append(number.as_str());
    out.append("\r\n\r\n");
    out.append(content.as_str());
    proof {
        assert(out@ =~= response_text(gresp));
    }
    out
}

/// Whether `c` separates the words of a request line.
fn ws_char(c: char) -> (b: bool)
    ensures
        b == is_ws(c),
{
    c == ' ' || c == '\t' || c == '\r' || c == '\n' || c == '\u{b}' || c == '\u{c}'
}

/// The first non-separator position at or after `from`.
fn skip_ws(line: &str, from: usize) -> (r: usize)
    requires
        from <= line@.len(),
    ensures
        from <= r <= line@.len(),
        r == scan_ws(line@, from as int),
{
    let n = line.unicode_len();
    let mut i: usize = from;
    while i < n && ws_char(line.get_char(i))
        invariant
            from <= i <= n,
            n == line@.len(),
            scan_ws(line@, from as int) == scan_ws(line@, i as int),
        decreases n - i,
    {
        i = i + 1;
    }
    proof {
        assert(scan_ws(line@, i as int) == i);
    }
    i
}

/// The first separator position at or after `from`.
fn skip_word(line: &str, from: usize) -> (r: usize)
    requires
        from <= line@.len(),
    ensures
        from <= r <= line@.len(),
        r == scan_word(line@, from as int),
{
    let n = line.unicode_len();
    let mut i: usize = from;
    while i < n && !ws_char(line.get_char(i))
        invariant
            from <= i <= n,
            n == line@.len(),
            scan_word(line@, from as int) == scan_word(line@, i as int),
        decreases n - i,
    {
        i = i + 1;
    }
    proof {
        assert(scan_word(line@, i as int) == i);
    }
    i
}

/// Whether a request line holds the two words `from_header` needs: callers
/// test a line with this before handing the header block over.
pub fn line_has_two_words(line: &str) -> (r: bool)
    ensures
        r == has_two_words(line@),
{
    let a = skip_ws(line, 0);
    let b = skip_word(line, a);
    let c = skip_ws(line, b);
    c < line.unicode_len()
}

impl HttpRequest {
    /// Parses the request line, the first entry of the header block: its
    /// first word must name a known method and its second word is the target.
    /// An empty header block or an unknown method yields nothing.
    ///
    /// A line with fewer than two words is excluded: the interface gives such
    /// a line no meaning.
    pub fn from_header(req: &Vec<String>) -> (r: Option<HttpRequest>)
        requires
            req@.len() > 0 ==> has_two_words(req@[0]@),
        ensures
            req@.len() == 0 ==> r is None,
            req@.len() > 0 ==> match r {
                Some(hr) => parse_method(method_token(req@[0]@)) == Some(hr.method) && hr.uri@
                    == uri_token(req@[0]@),
                None => parse_method(method_token(req@[0]@)) is None,
            },
    {
        if req.len() == 0 {
            return None;
        }
        let line: &str = req[0].as_str();
        let n = line.unicode_len();
        let ghost sv = line@;

        let a = skip_ws(line, 0);
        let b = skip_word(line, a);
        let c = skip_ws(line, b);
        let d = skip_word(line, c);
        proof {
            assert(word1_start(sv) == a);
            assert(word1_end(sv) == b);
            assert(word2_start(sv) == c);
            assert(word2_end(sv) == d);
            assert(c < n);
        }

        let ghost tok = method_token(sv);
        let mlen = b - a;
        let method: Option<HttpMethod> = if mlen == 3 && line.get_char(a) == 'G' && line.get_char(
            a + 1,
        ) == 'E' && line.get_char(a + 2) == 'T' {
            Some(HttpMethod::GET)
        } else if mlen == 4 && line.get_char(a) == 'P' && line.get_char(a + 1) == 'O'
            && line.get_char(a + 2) == 'S' && line.get_char(a + 3) == 'T' {
            Some(HttpMethod::POST)
        } else if mlen == 3 && line.get_char(a) == 'P' && line.get_char(a + 1) == 'U'
            && line.get_char(a + 2) == 'T' {
            Some(HttpMethod::PUT)
        } else if mlen == 6 && line.get_char(a) == 'D' && line.get_char(a + 1) == 'E'
            && line.get_char(a + 2) == 'L' && line.get_char(a + 3) == 'E' && line.get_char(a + 4)
            == 'T' && line.get_char(a + 5) == 'E' {
            Some(HttpMethod::DELETE)
        } else {
            None
        };
        proof {
            assert(tok.len() == b - a);
            assert(forall|i: int| 0 <= i < tok.len() ==> tok[i] == sv[a + i]);
            assert(method == parse_method(tok));
        }

        match method {
            Some(m) => {
                let uri = line.substring_char(c, d).to_owned();
                proof {
                    assert(uri@ == uri_token(sv));
                }
                Some(HttpRequest { method: m, uri })
            },
            None => None,
        }
    }
}

} // verus!
