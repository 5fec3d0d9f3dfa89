//! The web listener's share of a provisioning session: reading a request,
//! choosing what to answer, and writing the answer's text.

use crate::signals::WmInnerSignals;
use crate::structs::byte_len;
use crate::structs::byte_length;
use crate::structs::ScanEntry;
use crate::submission::encode_submission;
use crate::submission::submits;
use crate::text::chars_of;
use crate::text::find;
use crate::text::first_two_words;
use crate::text::has_match;
use crate::text::lemma_first_match;
use crate::text::lemma_first_match_found;
use crate::text::lemma_split_once_shorter;
use crate::text::matches_at;
use crate::text::part_is;
use crate::text::part_of;
use crate::text::split_once;
use crate::text::words;
use crate::utils::decimal;
use crate::utils::write_digits;
use vstd::prelude::*;
use vstd::string::StrSliceExecFns;
use vstd::string::StringExecFns;
use vstd::utf8::decode_utf8;
use vstd::utf8::encode_utf8_decode_utf8;
use vstd::utf8::valid_utf8;

verus! {

/// Method of a request.
#[derive(Clone, Copy, Debug, PartialEq, Eq, Structural)]
pub enum HttpMethod {
    Get,
    Post,
}

/// A request as it was read.
#[derive(Debug)]
pub struct HttpRequest {
    pub method: HttpMethod,
    pub path: String,
    pub body: String,
    pub headers: Vec<(String, String)>,
}

/// Mathematical value of a request.
pub struct Request {
    pub method: HttpMethod,
    pub path: Seq<char>,
    pub body: Seq<char>,
    pub headers: Seq<(Seq<char>, Seq<char>)>,
}

impl View for HttpRequest {
    type V = Request;

    open spec fn view(&self) -> Request {
        Request { method: self.method, path: self.path@, body: self.body@, headers: self.headers.deep_view() }
    }
}

/// End of a line.
pub open spec fn crlf() -> Seq<char> {
    seq!['\r', '\n']
}

/// Empty line between the head and the body of a request.
pub open spec fn blank_line() -> Seq<char> {
    seq!['\r', '\n', '\r', '\n']
}

/// What stands between the name and the value of a header.
pub open spec fn colon_space() -> Seq<char> {
    seq![':', ' ']
}

/// The request that nothing was read of: `GET` of the empty path.
pub open spec fn empty_request() -> Request {
    Request {
        method: HttpMethod::Get,
        path: Seq::<char>::empty(),
        body: Seq::<char>::empty(),
        headers: Seq::<(Seq<char>, Seq<char>)>::empty(),
    }
}

/// The header that a line holds: what stands before and after its first `: `.
pub open spec fn header_of(line: Seq<char>) -> Seq<(Seq<char>, Seq<char>)> {
    match split_once(line, colon_space()) {
        Some((name, value)) => seq![(name, value)],
        None => Seq::<(Seq<char>, Seq<char>)>::empty(),
    }
}

/// The headers of a head, line by line; a line without `: ` holds none.
pub open spec fn headers_of(head: Seq<char>) -> Seq<(Seq<char>, Seq<char>)>
    decreases head.len(),
{
    match split_once(head, crlf()) {
        Some((line, rest)) => {
            if rest.len() < head.len() {
                header_of(line) + headers_of(rest)
            } else {
                header_of(line)
            }
        },
        None => header_of(head),
    }
}

/// The method that a word names.
pub open spec fn method_of(word: Seq<char>) -> Option<HttpMethod> {
    if word == seq!['G', 'E', 'T'] {
        Some(HttpMethod::Get)
    } else if word == seq!['P', 'O', 'S', 'T'] {
        Some(HttpMethod::Post)
    } else {
        None
    }
}

/// The request that a text holds.
///
/// A text without a line end is the empty request. Else the first line gives
/// method and path where it has two words or more, and the text is refused
/// where the first of them is neither `GET` nor `POST`. What follows the
/// first line is cut at the first empty line into headers and body; without
/// an empty line there are neither.
pub open spec fn request_of_text(text: Seq<char>) -> Option<Request> {
    match split_once(text, crlf()) {
        None => Some(empty_request()),
        Some((line, rest)) => {
            let parts = words(line);
            if parts.len() >= 2 && method_of(parts[0]) is None {
                None
            } else {
                let method = if parts.len() >= 2 {
                    method_of(parts[0])->0
                } else {
                    HttpMethod::Get
                };
                let path = if parts.len() >= 2 {
                    parts[1]
                } else {
                    Seq::<char>::empty()
                };
                match split_once(rest, blank_line()) {
                    Some((head, body)) => Some(Request { method, path, body, headers: headers_of(head) }),
                    None => Some(
                        Request {
                            method,
                            path,
                            body: Seq::<char>::empty(),
                            headers: Seq::<(Seq<char>, Seq<char>)>::empty(),
                        },
                    ),
                }
            }
        },
    }
}

/// The request that the bytes hold: none where they are no UTF-8, else the
/// request of their text.
pub open spec fn request_of(data: Seq<u8>) -> Option<Request> {
    if valid_utf8(data) {
        request_of_text(decode_utf8(data))
    } else {
        None
    }
}

/// `core::str::from_utf8`: the bytes as a text, exactly where they are
/// UTF-8.
#[verifier::external_body]
fn utf8_text(data: &[u8]) -> (r: Option<&str>)
    ensures
        r is Some <==> valid_utf8(data@),
        r matches Some(text) ==> encode_utf8_of(text@) == data@,
{
    core::str::from_utf8(data).ok()
}

/// The UTF-8 bytes of a text.
pub open spec fn encode_utf8_of(text: Seq<char>) -> Seq<u8> {
    vstd::utf8::encode_utf8(text)
}

/// The part of `text` from `lo` to `hi`, seen as part of a longer part.
proof fn lemma_part_of_part(text: Seq<char>, lo: int, hi: int, a: int, b: int)
    requires
        0 <= lo <= a <= b <= hi <= text.len(),
    ensures
        text.subrange(lo, hi).subrange(a - lo, b - lo) == text.subrange(a, b),
        text.subrange(lo, hi).take(a - lo) == text.subrange(lo, a),
        text.subrange(lo, hi).skip(a - lo) == text.subrange(a, hi),
{
    assert(text.subrange(lo, hi).subrange(a - lo, b - lo) =~= text.subrange(a, b));
    assert(text.subrange(lo, hi).take(a - lo) =~= text.subrange(lo, a));
    assert(text.subrange(lo, hi).skip(a - lo) =~= text.subrange(a, hi));
}

/// The header of the line from `lo` to `hi`, added to `headers`.
fn push_header(text: &str, chars: &Vec<char>, lo: usize, hi: usize, headers: &mut Vec<(String, String)>)
    requires
        chars@ == text@,
        lo <= hi <= chars@.len(),
    ensures
        final(headers).deep_view() == old(headers).deep_view() + header_of(chars@.subrange(lo as int, hi as int)),
{
    let sep: Vec<char> = vec![':', ' '];
    assert(sep@ =~= colon_space());
    let ghost line = chars@.subrange(lo as int, hi as int);
    match find(chars, lo, hi, &sep) {
        Some(k) => {
            proof {
                lemma_first_match_found(line, colon_space(), k - lo);
                lemma_part_of_part(chars@, lo as int, hi as int, k as int, k as int);
                lemma_part_of_part(chars@, lo as int, hi as int, k + 2, k + 2);
            }
            let name = part_of(text, lo, k);
            let value = part_of(text, k + 2, hi);
            let ghost before = headers.deep_view();
            headers.push((name, value));
            assert(headers.deep_view() =~= before + seq![(name@, value@)]);
        },
        None => {
            assert(headers.deep_view() =~= headers.deep_view() + Seq::<(Seq<char>, Seq<char>)>::empty());
        },
    }
}

/// The headers of the head from `lo` to `hi`.
fn read_headers(text: &str, chars: &Vec<char>, lo: usize, hi: usize) -> (headers: Vec<(String, String)>)
    requires
        chars@ == text@,
        lo <= hi <= chars@.len(),
    ensures
        headers.deep_view() == headers_of(chars@.subrange(lo as int, hi as int)),
{
    let eol: Vec<char> = vec!['\r', '\n'];
    assert(eol@ =~= crlf());
    let mut headers: Vec<(String, String)> = Vec::new();
    let mut cur: usize = lo;
    assert(headers.deep_view() =~= Seq::<(Seq<char>, Seq<char>)>::empty());
    loop
        invariant
            chars@ == text@,
            lo <= cur <= hi <= chars@.len(),
            eol@ == crlf(),
            headers.deep_view() + headers_of(chars@.subrange(cur as int, hi as int)) == headers_of(
                chars@.subrange(lo as int, hi as int),
            ),
        decreases hi - cur,
    {
        let ghost rest = chars@.subrange(cur as int, hi as int);
        let ghost before = headers.deep_view();
        match find(chars, cur, hi, &eol) {
            Some(e) => {
                proof {
                    lemma_first_match_found(rest, crlf(), e - cur);
                    lemma_split_once_shorter(rest, crlf());
                    lemma_part_of_part(chars@, cur as int, hi as int, e as int, e as int);
                    lemma_part_of_part(chars@, cur as int, hi as int, e + 2, e + 2);
                }
                push_header(text, chars, cur, e, &mut headers);
                assert(headers_of(rest) == header_of(chars@.subrange(cur as int, e as int)) + headers_of(
                    chars@.subrange(e + 2, hi as int),
                ));
                assert(headers.deep_view() + headers_of(chars@.subrange(e + 2, hi as int)) =~= before + headers_of(
                    rest,
                ));
                cur = e + 2;
            },
            None => {
                push_header(text, chars, cur, hi, &mut headers);
                assert(headers_of(rest) == header_of(rest));
                return headers;
            },
        }
    }
}

impl HttpRequest {
    /// The request that nothing was read of.
    pub fn new() -> (r: Self)
        ensures
            r@ == empty_request(),
    {
        let r = HttpRequest { method: HttpMethod::Get, path: String::new(), body: String::new(), headers: Vec::new() };
        assert(r.headers.deep_view() =~= Seq::<(Seq<char>, Seq<char>)>::empty());
        r
    }

    /// Reads a request from the bytes that were received; see `request_of`,
    /// which it follows exactly.
    pub fn parse(data: &[u8]) -> (r: Option<Self>)
        ensures
            match request_of(data@) {
                Some(request) => r matches Some(read) && read@ == request,
                None => r is None,
            },
    {
        let text = match utf8_text(data) {
            Some(text) => text,
            None => {
                return None;
            },
        };
        proof {
            encode_utf8_decode_utf8(text@);
        }
        let chars = chars_of(text);
        let n = chars.len();
        let eol: Vec<char> = vec!['\r', '\n'];
        assert(eol@ =~= crlf());
        assert(chars@.subrange(0, n as int) =~= chars@);
        let line_end = match find(&chars, 0, n, &eol) {
            Some(i) => i,
            None => {
                return Some(Self::new());
            },
        };
        proof {
            lemma_first_match_found(chars@, crlf(), line_end as int);
            lemma_part_of_part(chars@, 0, n as int, line_end as int, line_end as int);
            lemma_part_of_part(chars@, 0, n as int, line_end + 2, line_end + 2);
        }
        let ghost line = chars@.subrange(0, line_end as int);
        let ghost rest = chars@.subrange(line_end + 2, n as int);
        let mut method = HttpMethod::Get;
        let mut path = String::new();
        match first_two_words(&chars, 0, line_end) {
            Some((a, b, c, d)) => {
                let get: Vec<char> = vec!['G', 'E', 'T'];
                let post: Vec<char> = vec!['P', 'O', 'S', 'T'];
                assert(get@ =~= seq!['G', 'E', 'T']);
                assert(post@ =~= seq!['P', 'O', 'S', 'T']);
                if part_is(&chars, a, b, &get) {
                    method = HttpMethod::Get;
                } else if part_is(&chars, a, b, &post) {
                    method = HttpMethod::Post;
                } else {
                    return None;
                }
                path = part_of(text, c, d);
            },
            None => {},
        }
        let rest_lo = line_end + 2;
        let gap: Vec<char> = vec!['\r', '\n', '\r', '\n'];
        assert(gap@ =~= blank_line());
        match find(&chars, rest_lo, n, &gap) {
            Some(j) => {
                proof {
                    lemma_first_match_found(rest, blank_line(), j - rest_lo);
                    lemma_part_of_part(chars@, rest_lo as int, n as int, j as int, j as int);
                    lemma_part_of_part(chars@, rest_lo as int, n as int, j + 4, j + 4);
                }
                let headers = read_headers(text, &chars, rest_lo, j);
                let body = part_of(text, j + 4, n);
                Some(HttpRequest { method, path, body, headers })
            },
            None => {
                let r = HttpRequest { method, path, body: String::new(), headers: Vec::new() };
                assert(r.headers.deep_view() =~= Seq::<(Seq<char>, Seq<char>)>::empty());
                Some(r)
            },
        }
    }
}

/// The head of an answer: status line, content type, content length, and the
/// notice that the connection closes.
pub open spec fn res_header(status: u16, content_len: usize, content_type: Seq<char>) -> Seq<char> {
    "HTTP/1.1 "@ + decimal(status as nat) + "\r\nContent-Type: "@ + content_type + "\r\nContent-Length: "@ + decimal(
        content_len as nat,
    ) + "\r\nConnection: close\r\n\r\n"@
}

/// The head of an answer; see `res_header`.
pub fn generate_res_header(status: u16, content_len: usize, content_type: &str) -> (r: String)
    ensures
        r@ == res_header(status, content_len, content_type@),
{
    let mut response = "HTTP/1.1 ".to_owned();
    let status_text = write_digits(status as u64, 10);
    response.append(status_text.as_str());
    response.append("\r\nContent-Type: ");
    response.append(content_type);
    response.append("\r\nContent-Length: ");
    let len_text = write_digits(content_len as u64, 10);
    response.append(len_text.as_str());
    response.append("\r\nConnection: close\r\n\r\n");
    response
}

/// A whole answer: the head for the content's length in bytes, then the
/// content.
pub fn generate_response(status: u16, content: &str, content_type: &str) -> (r: String)
    ensures
        r@ == res_header(status, byte_len(content@) as usize, content_type@) + content@,
{
    let mut response = generate_res_header(status, byte_length(content), content_type);
    response.append(content);
    response
}

/// The `&` between two pairs of a form.
pub open spec fn ampersand() -> Seq<char> {
    seq!['&']
}

/// The `=` between the name and the value of a pair.
pub open spec fn equals_sign() -> Seq<char> {
    seq!['=']
}

/// What a pair gives for `name`: its value where the pair is `name=value`,
/// else nothing.
pub open spec fn pair_value(pair: Seq<char>, name: Seq<char>) -> Seq<char> {
    match split_once(pair, equals_sign()) {
        Some((key, value)) => if key == name {
            value
        } else {
            Seq::<char>::empty()
        },
        None => Seq::<char>::empty(),
    }
}

/// What a form gives for `name`: the values of all its pairs of that name,
/// one after the other.
pub open spec fn form_value(data: Seq<char>, name: Seq<char>) -> Seq<char>
    decreases data.len(),
{
    match split_once(data, ampersand()) {
        Some((pair, rest)) => {
            if rest.len() < data.len() {
                pair_value(pair, name) + form_value(rest, name)
            } else {
                pair_value(pair, name)
            }
        },
        None => pair_value(data, name),
    }
}

/// Name of the form field that holds the network identifier.
pub open spec fn ssid_name() -> Seq<char> {
    seq!['s', 's', 'i', 'd']
}

/// Name of the form field that holds the secret.
pub open spec fn psk_name() -> Seq<char> {
    seq!['p', 's', 'k']
}

/// A form in which no `=` stands gives nothing for any name: such a form
/// submits two empty texts.
pub proof fn lemma_form_without_pairs_gives_nothing(data: Seq<char>, name: Seq<char>)
    requires
        forall|i: int| 0 <= i < data.len() ==> data[i] != '=',
    ensures
        form_value(data, name) == Seq::<char>::empty(),
    decreases data.len(),
{
    assert forall|text: Seq<char>| (forall|i: int| 0 <= i < text.len() ==> text[i] != '=') implies pair_value(
        text,
        name,
    ) == Seq::<char>::empty() by {
        if has_match(text, equals_sign()) {
            let k = choose|k: int| matches_at(text, equals_sign(), k);
            assert(text[k + 0] == equals_sign()[0]);
        }
    }
    match split_once(data, ampersand()) {
        Some((pair, rest)) => {
            lemma_split_once_shorter(data, ampersand());
            lemma_first_match(data, ampersand());
            lemma_form_without_pairs_gives_nothing(rest, name);
            assert(pair_value(pair, name) + form_value(rest, name) =~= Seq::<char>::empty());
        },
        None => {},
    }
}

/// What the pair from `lo` to `hi` gives for `name`, added to `out`.
fn push_pair_value(text: &str, chars: &Vec<char>, lo: usize, hi: usize, name: &Vec<char>, out: &mut String)
    requires
        chars@ == text@,
        lo <= hi <= chars@.len(),
    ensures
        final(out)@ == old(out)@ + pair_value(chars@.subrange(lo as int, hi as int), name@),
{
    let sep: Vec<char> = vec!['='];
    assert(sep@ =~= equals_sign());
    let ghost pair = chars@.subrange(lo as int, hi as int);
    match find(chars, lo, hi, &sep) {
        Some(k) => {
            proof {
                lemma_first_match_found(pair, equals_sign(), k - lo);
                lemma_part_of_part(chars@, lo as int, hi as int, k as int, k as int);
                lemma_part_of_part(chars@, lo as int, hi as int, k + 1, k + 1);
            }
            if part_is(chars, lo, k, name) {
                let value = text.substring_char(k + 1, hi);
                out.append(value);
            } else {
                assert(out@ =~= out@ + Seq::<char>::empty());
            }
        },
        None => {
            assert(out@ =~= out@ + Seq::<char>::empty());
        },
    }
}

/// What a form gives for `name`.
fn read_form_value(text: &str, chars: &Vec<char>, name: &Vec<char>) -> (out: String)
    requires
        chars@ == text@,
    ensures
        out@ == form_value(text@, name@),
{
    let amp: Vec<char> = vec!['&'];
    assert(amp@ =~= ampersand());
    let hi = chars.len();
    let mut out = String::new();
    let mut cur: usize = 0;
    assert(chars@.subrange(0, hi as int) =~= chars@);
    assert(out@ + form_value(chars@, name@) =~= form_value(chars@, name@));
    loop
        invariant
            chars@ == text@,
            cur <= hi == chars@.len(),
            amp@ == ampersand(),
            out@ + form_value(chars@.subrange(cur as int, hi as int), name@) == form_value(text@, name@),
        decreases hi - cur,
    {
        let ghost rest = chars@.subrange(cur as int, hi as int);
        let ghost before = out@;
        match find(chars, cur, hi, &amp) {
            Some(e) => {
                proof {
                    lemma_first_match_found(rest, ampersand(), e - cur);
                    lemma_split_once_shorter(rest, ampersand());
                    lemma_part_of_part(chars@, cur as int, hi as int, e as int, e as int);
                    lemma_part_of_part(chars@, cur as int, hi as int, e + 1, e + 1);
                }
                push_pair_value(text, chars, cur, e, name, &mut out);
                assert(form_value(rest, name@) == pair_value(chars@.subrange(cur as int, e as int), name@)
                    + form_value(chars@.subrange(e + 1, hi as int), name@));
                assert(out@ + form_value(chars@.subrange(e + 1, hi as int), name@) =~= before + form_value(
                    rest,
                    name@,
                ));
                cur = e + 1;
            },
            None => {
                push_pair_value(text, chars, cur, hi, name, &mut out);
                assert(form_value(rest, name@) == pair_value(rest, name@));
                return out;
            },
        }
    }
}

/// The network identifier and the secret that a form holds: the values of
/// its pairs named `ssid` and `psk`, as they stand.
pub fn parse_form_data(data: &str) -> (r: (String, String))
    ensures
        r.0@ == form_value(data@, ssid_name()),
        r.1@ == form_value(data@, psk_name()),
{
    let chars = chars_of(data);
    let ssid_key: Vec<char> = vec!['s', 's', 'i', 'd'];
    let psk_key: Vec<char> = vec!['p', 's', 'k'];
    assert(ssid_key@ =~= ssid_name());
    assert(psk_key@ =~= psk_name());
    let ssid = read_form_value(data, &chars, &ssid_key);
    let pwd = read_form_value(data, &chars, &psk_key);
    (ssid, pwd)
}


/// What a request is answered with.
#[derive(Clone, Copy, Debug, PartialEq, Eq, Structural)]
pub enum Route {
    /// The configuration page.
    Panel,
    /// The networks seen by the last scan.
    List,
    /// The submitted form is handed to the session, and the page that
    /// confirms it is sent.
    Setup,
    /// Nothing.
    Favicon,
    /// The page that confirms a submission.
    Done,
    /// A redirect to the configuration page.
    Redirect,
}

/// What a request of the given method and path is answered with.
pub open spec fn route_of(method: HttpMethod, path: Seq<char>) -> Route {
    if method == HttpMethod::Get && (path == "/"@ || path == ""@) {
        Route::Panel
    } else if method == HttpMethod::Get && path == "/list"@ {
        Route::List
    } else if method == HttpMethod::Post && path == "/setup"@ {
        Route::Setup
    } else if method == HttpMethod::Get && path == "/favicon.ico"@ {
        Route::Favicon
    } else if method == HttpMethod::Get && path == "/done.html"@ {
        Route::Done
    } else {
        Route::Redirect
    }
}

/// Whether two texts are the same.
pub fn same_text(a: &str, b: &str) -> (r: bool)
    ensures
        r == (a@ == b@),
{
    let left = chars_of(a);
    let right = chars_of(b);
    assert(left@.subrange(0, left@.len() as int) =~= left@);
    part_is(&left, 0, left.len(), &right)
}

/// What a request is answered with; see `route_of`.
pub fn route(request: &HttpRequest) -> (r: Route)
    ensures
        r == route_of(request.method, request.path@),
{
    let path = request.path.as_str();
    let get = request.method == HttpMethod::Get;
    let post = request.method == HttpMethod::Post;
    if get && (same_text(path, "/") || same_text(path, "")) {
        Route::Panel
    } else if get && same_text(path, "/list") {
        Route::List
    } else if post && same_text(path, "/setup") {
        Route::Setup
    } else if get && same_text(path, "/favicon.ico") {
        Route::Favicon
    } else if get && same_text(path, "/done.html") {
        Route::Done
    } else {
        Route::Redirect
    }
}

/// Content type of a page.
pub const TEXT_HTML: &'static str = "text/html";

/// Content type of a plain text.
pub const TEXT_PLAIN: &'static str = "text/plain";

/// The page that confirms a submission.
pub const SUCCESS_HTML: &'static str = "<!DOCTYPE html>\n\
    <html>\n\
    <head>\n\
    \x20   <title>\u{914d}\u{7f6e}\u{6210}\u{529f}</title>\n\
    \x20   <meta charset=\"UTF-8\">\n\
    \x20   <style>\n\
    \x20       body { font-family: Arial, sans-serif; max-width: 400px; margin: 0 auto; padding: 20px; text-align: center; }\n\
    \x20       h1 { color: #4CAF50; }\n\
    \x20   </style>\n\
    </head>\n\
    <body>\n\
    \x20   <h1>\u{914d}\u{7f6e}\u{6210}\u{529f}\u{ff01}</h1>\n\
    \x20   <p>\u{8bbe}\u{5907}\u{5c06}\u{91cd}\u{65b0}\u{542f}\u{52a8}\u{5e76}\u{8fde}\u{63a5}\u{5230}\u{914d}\u{7f6e}\u{7684}WiFi\u{7f51}\u{7edc}\u{3002}</p>\n\
    </body>\n\
    </html>";

/// The text that a redirect carries.
pub const REDIRECT_TEXT: &'static str =
    "HTTP/1.1 302 Found\r\nLocation: /\r\nContent-Length: 0\r\nConnection: close\r\n\r\n";

/// The bytes of an answer: the head for the content's length, then the
/// content.
pub open spec fn response_bytes(status: u16, content_type: Seq<char>, content: Seq<u8>) -> Seq<u8> {
    encode_utf8_of(res_header(status, content.len() as usize, content_type)) + content
}

/// The bytes of an answer, to be written as they are.
pub fn write_response(status: u16, content_type: &str, content: &[u8]) -> (r: Vec<u8>)
    ensures
        r@ == response_bytes(status, content_type@, content@),
{
    let res_header = generate_res_header(status, content.len(), content_type);
    let mut out = res_header.as_str().as_bytes_vec();
    out.extend_from_slice(content);
    out
}

/// The bytes of an answer that carries a page.
pub fn write_html_200(content: &[u8]) -> (r: Vec<u8>)
    ensures
        r@ == response_bytes(200, TEXT_HTML@, content@),
{
    write_response(200, TEXT_HTML, content)
}

/// The bytes of an answer that carries a plain text.
pub fn write_text_200(content: &[u8]) -> (r: Vec<u8>)
    ensures
        r@ == response_bytes(200, TEXT_PLAIN@, content@),
{
    write_response(200, TEXT_PLAIN, content)
}

/// The bytes of a redirect to the configuration page.
pub open spec fn redirect_bytes() -> Seq<u8> {
    encode_utf8_of(res_header(302, byte_len(REDIRECT_TEXT@) as usize, TEXT_HTML@) + REDIRECT_TEXT@)
}

/// The bytes of a redirect to the configuration page.
pub fn write_302() -> (r: Vec<u8>)
    ensures
        r@ == redirect_bytes(),
{
    let redirect_response = generate_response(302, REDIRECT_TEXT, TEXT_HTML);
    redirect_response.as_str().as_bytes_vec()
}

/// A signal strength in decimal, with its sign.
pub open spec fn signed_decimal(v: i8) -> Seq<char> {
    if v < 0 {
        seq!['-'] + decimal((-(v as int)) as nat)
    } else {
        decimal(v as nat)
    }
}

/// A scan snapshot as text: for each network a line of its name, `: ` and
/// its signal strength.
pub open spec fn scan_text(entries: Seq<(Seq<char>, i8)>) -> Seq<char>
    decreases entries.len(),
{
    if entries.len() == 0 {
        Seq::<char>::empty()
    } else {
        scan_text(entries.drop_last()) + entries.last().0 + seq![':', ' '] + signed_decimal(entries.last().1) + seq![
            '\n',
        ]
    }
}

/// The views of scan entries.
pub open spec fn entries_view(entries: Seq<ScanEntry>) -> Seq<(Seq<char>, i8)> {
    entries.map_values(|e: ScanEntry| e@)
}

/// A scan snapshot as text; see `scan_text`.
pub fn render_scan(entries: &Vec<ScanEntry>) -> (r: String)
    ensures
        r@ == scan_text(entries_view(entries@)),
{
    let mut out = String::new();
    let mut i: usize = 0;
    let ghost all = entries_view(entries@);
    assert(all.take(0) =~= Seq::<(Seq<char>, i8)>::empty());
    while i < entries.len()
        invariant
            i <= entries@.len(),
            all == entries_view(entries@),
            all.len() == entries@.len(),
            out@ == scan_text(all.take(i as int)),
        decreases entries@.len() - i,
    {
        let entry = &entries[i];
        proof {
            reveal_strlit(": ");
            reveal_strlit("-");
            reveal_strlit("\n");
            assert(all.take(i + 1).drop_last() =~= all.take(i as int));
            assert(all.take(i + 1).last() == entry@);
        }
        let ghost before = out@;
        out.append(entry.ssid.as_str());
        out.append(": ");
        let level = entry.signal_strength;
        if level < 0 {
            out.append("-");
            let digits = write_digits((-(level as i16)) as u64, 10);
            out.append(digits.as_str());
        } else {
            let digits = write_digits(level as u64, 10);
            out.append(digits.as_str());
        }
        out.append("\n");
        assert(": "@ =~= seq![':', ' ']);
        assert("-"@ =~= seq!['-']);
        assert("\n"@ =~= seq!['\n']);
        assert(out@ =~= before + entry@.0 + seq![':', ' '] + signed_decimal(entry@.1) + seq!['\n']);
        i = i + 1;
    }
    assert(all.take(entries@.len() as int) =~= all);
    out
}

/// What a received request is answered with, in bytes; nothing where no
/// answer is due.
///
/// Bytes that hold no request get no answer. A request for the
/// configuration page gets `panel`, one for the list the latest scan
/// snapshot as text, one for the favicon nothing, one for the confirmation
/// its page, and any other a redirect. A submitted form gets the
/// confirmation too.
pub open spec fn answer_of(request: Option<Request>, scan: Option<Vec<ScanEntry>>, panel: Seq<u8>) -> Seq<u8> {
    match request {
        None => Seq::<u8>::empty(),
        Some(r) => match route_of(r.method, r.path) {
            Route::Panel => response_bytes(200, TEXT_HTML@, panel),
            Route::List => response_bytes(
                200,
                TEXT_PLAIN@,
                encode_utf8_of(
                    match scan {
                        Some(entries) => scan_text(entries_view(entries@)),
                        None => Seq::<char>::empty(),
                    },
                ),
            ),
            Route::Setup => response_bytes(200, TEXT_HTML@, encode_utf8_of(SUCCESS_HTML@)),
            Route::Favicon => Seq::<u8>::empty(),
            Route::Done => response_bytes(200, TEXT_HTML@, encode_utf8_of(SUCCESS_HTML@)),
            Route::Redirect => redirect_bytes(),
        },
    }
}

/// Serves one received request.
///
/// The answer is the one of `answer_of`. A submitted form is read with
/// `parse_form_data`, encoded as a submission and put into the submission
/// mailbox over whatever waits there; a form without the two fields submits
/// two empty texts. Nothing else on the bus changes.
pub fn start_http_server(data: &[u8], states: &mut WmInnerSignals, panel: &[u8]) -> (answer: Vec<u8>)
    ensures
        answer@ == answer_of(request_of(data@), old(states).wifi_scan_res@, panel@),
        final(states).wifi_scan_res == old(states).wifi_scan_res,
        final(states).wifi_conn_res_sig == old(states).wifi_conn_res_sig,
        final(states).end_signal_pubsub == old(states).end_signal_pubsub,
        match request_of(data@) {
            Some(r) => if route_of(r.method, r.path) == Route::Setup {
                final(states).wifi_conn_info_sig@ matches Some(payload) && submits(
                    payload@,
                    form_value(r.body, ssid_name()),
                    form_value(r.body, psk_name()),
                )
            } else {
                final(states).wifi_conn_info_sig == old(states).wifi_conn_info_sig
            },
            None => final(states).wifi_conn_info_sig == old(states).wifi_conn_info_sig,
        },
{
    let request = match HttpRequest::parse(data) {
        Some(request) => request,
        None => {
            return Vec::new();
        },
    };
    match route(&request) {
        Route::Panel => write_html_200(panel),
        Route::List => {
            let resp = match states.wifi_scan_res.latest() {
                Some(entries) => render_scan(entries),
                None => String::new(),
            };
            write_text_200(resp.as_str().as_bytes())
        },
        Route::Setup => {
            let (ssid, pwd) = parse_form_data(request.body.as_str());
            match encode_submission(ssid.as_str(), pwd.as_str()) {
                Ok(payload) => {
                    states.wifi_conn_info_sig.signal(payload);
                },
                Err(_) => {},
            }
            write_html_200(SUCCESS_HTML.as_bytes())
        },
        Route::Favicon => Vec::new(),
        Route::Done => write_html_200(SUCCESS_HTML.as_bytes()),
        Route::Redirect => write_302(),
    }
}

} // verus!
