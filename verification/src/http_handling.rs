//! Decoding of one request from the bytes read off a connection.

use vstd::prelude::*;

verus! {

/// How many header lines a request may hold.
pub const MAX_HEADERS: usize = 16;

/// Why a buffer is no request.
#[derive(Debug, Clone, Copy, PartialEq, Eq, Structural)]
pub enum HttpError {
    /// The head is well formed so far, but the buffer ends before it does.
    IncompleteHeader,
    /// The head is malformed.
    InvalidContent,
    /// The head names no method.
    NoMethod,
    /// The method is no method token.
    InvalidMethod,
    /// The head names no target.
    NoURI,
    /// The target is no URI.
    InvalidURI,
    /// The head names no protocol version.
    NoVersion,
    /// The protocol version is neither 1.0 nor 1.1.
    InvalidVersion,
    /// A header line cannot be kept.
    RequestCreationError,
}

impl HttpError {
    /// The name of the error.
    pub open spec fn name(self) -> Seq<char> {
        match self {
            HttpError::IncompleteHeader => "IncompleteHeader"@,
            HttpError::InvalidContent => "InvalidContent"@,
            HttpError::NoMethod => "NoMethod"@,
            HttpError::InvalidMethod => "InvalidMethod"@,
            HttpError::NoURI => "NoURI"@,
            HttpError::InvalidURI => "InvalidURI"@,
            HttpError::NoVersion => "NoVersion"@,
            HttpError::InvalidVersion => "InvalidVersion"@,
            HttpError::RequestCreationError => "RequestCreationError"@,
        }
    }

    /// The name of the error, as it is reported.
    pub fn to_text(&self) -> (r: String)
        ensures
            r@ == self.name(),
    {
        match self {
            HttpError::IncompleteHeader => String::from_str("IncompleteHeader"),
            HttpError::InvalidContent => String::from_str("InvalidContent"),
            HttpError::NoMethod => String::from_str("NoMethod"),
            HttpError::InvalidMethod => String::from_str("InvalidMethod"),
            HttpError::NoURI => String::from_str("NoURI"),
            HttpError::InvalidURI => String::from_str("InvalidURI"),
            HttpError::NoVersion => String::from_str("NoVersion"),
            HttpError::InvalidVersion => String::from_str("InvalidVersion"),
            HttpError::RequestCreationError => String::from_str("RequestCreationError"),
        }
    }
}

/// What a request asks for.
#[derive(Debug, Clone, Copy, PartialEq, Eq, Structural)]
pub enum Method {
    /// `POST`: create a record.
    Post,
    /// `GET`: read records.
    Get,
    /// `PUT`: update records.
    Put,
    /// `DELETE`: delete records.
    Delete,
    /// Any other method token.
    Other,
}

/// The protocol version of a request.
#[derive(Debug, Clone, Copy, PartialEq, Eq, Structural)]
pub enum Version {
    Http10,
    Http11,
}

/// One header line.
#[derive(Debug, Clone)]
pub struct Header {
    pub name: String,
    pub value: Vec<u8>,
}

/// A header line as a pair of name and value.
pub type HeaderView = (Seq<char>, Seq<u8>);

impl View for Header {
    type V = HeaderView;

    open spec fn view(&self) -> HeaderView {
        (self.name@, self.value@)
    }
}

/// The header lines of `headers`, each as a pair of name and value.
pub open spec fn headers_view(headers: Seq<Header>) -> Seq<HeaderView> {
    Seq::new(headers.len(), |i: int| headers[i]@)
}

/// The path and the query string of a request target.
#[derive(Debug, Clone)]
pub struct Target {
    pub path: String,
    pub query: Option<String>,
}

/// A request target as a pair of path and query string.
pub type TargetView = (Seq<char>, Option<Seq<char>>);

/// The characters of `text`, where there is a text.
pub open spec fn text_view(text: Option<String>) -> Option<Seq<char>> {
    match text {
        Some(t) => Some(t@),
        None => None,
    }
}

impl View for Target {
    type V = TargetView;

    open spec fn view(&self) -> TargetView {
        (self.path@, text_view(self.query))
    }
}

/// The path and query of `target`, where there is a target.
pub open spec fn target_view(target: Option<Target>) -> Option<TargetView> {
    match target {
        Some(t) => Some(t@),
        None => None,
    }
}

/// The head of a request as the tokenizer found it.
#[derive(Debug, Clone)]
pub struct RawHead {
    /// Where the body starts in the buffer.
    pub header_len: usize,
    pub method: Option<String>,
    pub path: Option<String>,
    /// The minor version: 0 for HTTP/1.0, 1 for HTTP/1.1.
    pub version: Option<u8>,
    pub headers: Vec<Header>,
}

/// The mathematical content of a [`RawHead`].
pub struct RawHeadView {
    pub header_len: nat,
    pub method: Option<Seq<char>>,
    pub path: Option<Seq<char>>,
    pub version: Option<u8>,
    pub headers: Seq<HeaderView>,
}

impl View for RawHead {
    type V = RawHeadView;

    open spec fn view(&self) -> RawHeadView {
        RawHeadView {
            header_len: self.header_len as nat,
            method: text_view(self.method),
            path: text_view(self.path),
            version: self.version,
            headers: headers_view(self.headers@),
        }
    }
}

/// What the tokenizer made of a buffer.
#[derive(Debug, Clone)]
pub enum HeadParse {
    /// The bytes are no request head.
    Invalid,
    /// The request line names a protocol version other than 1.0 and 1.1.
    BadVersion,
    /// The bytes may be the start of a request head.
    Partial,
    /// The bytes start with a whole request head.
    Complete(RawHead),
}

/// The mathematical content of a [`HeadParse`].
pub enum HeadParseView {
    Invalid,
    BadVersion,
    Partial,
    Complete(RawHeadView),
}

impl View for HeadParse {
    type V = HeadParseView;

    open spec fn view(&self) -> HeadParseView {
        match *self {
            HeadParse::Invalid => HeadParseView::Invalid,
            HeadParse::BadVersion => HeadParseView::BadVersion,
            HeadParse::Partial => HeadParseView::Partial,
            HeadParse::Complete(head) => HeadParseView::Complete(head@),
        }
    }
}

/// What `httparse` makes of `buffer` as a request head with room for
/// `max_headers` header lines.
pub uninterp spec fn httparse_request(buffer: Seq<u8>, max_headers: nat) -> HeadParseView;

/// Whether a character may stand in a method: a letter, a digit, or one of
/// ``! * + - . ^ _ ` | ~``.
pub open spec fn is_method_char(c: char) -> bool {
    ||| 'A' <= c <= 'Z'
    ||| 'a' <= c <= 'z'
    ||| '0' <= c <= '9'
    ||| c == '!'
    ||| c == '*'
    ||| c == '+'
    ||| c == '-'
    ||| c == '.'
    ||| c == '^'
    ||| c == '_'
    ||| c == '`'
    ||| c == '|'
    ||| c == '~'
}

/// Whether `http` takes `token` for a method: it is not empty and made of
/// method characters.
pub open spec fn http_method_valid(token: Seq<char>) -> bool {
    token.len() > 0 && forall|i: int| 0 <= i < token.len() ==> is_method_char(#[trigger] token[i])
}

/// The path and the query string that `http` finds in `target`, `None`
/// where it takes `target` for no URI.
pub uninterp spec fn http_uri_parts(target: Seq<char>) -> Option<TargetView>;

/// The name under which `http` keeps a header called `name`, `None` where
/// it refuses the name.
pub uninterp spec fn http_header_name(name: Seq<char>) -> Option<Seq<char>>;

/// Whether a byte may stand in a header value: a tab, or anything from the
/// space upwards but DEL.
pub open spec fn is_header_value_byte(b: u8) -> bool {
    b >= 32 && b != 127 || b == 9
}

/// Whether `value` can be kept as a header value.
pub open spec fn is_header_value(value: Seq<u8>) -> bool {
    forall|i: int| 0 <= i < value.len() ==> is_header_value_byte(#[trigger] value[i])
}

/// `httparse::Request::parse` on `buffer`, with `max_headers` empty header
/// slots. Trusted: the outcome is a function of the buffer and of the number
/// of slots; the tokenizer's version error is kept apart from its other
/// errors; a complete head ends inside the buffer, fills no more slots than
/// it was given, and names a method, a target and the version 1.0 or 1.1.
#[verifier::external_body]
fn parse_head(buffer: &[u8], max_headers: usize) -> (r: HeadParse)
    requires
        max_headers <= MAX_HEADERS,
    ensures
        r@ == httparse_request(buffer@, max_headers as nat),
        r matches HeadParse::Complete(head) ==> head.header_len <= buffer@.len()
            && head.headers@.len() <= max_headers && head.method is Some && head.path is Some && (
        head.version == Some(0u8) || head.version == Some(1u8)),
{
    let mut slots = vec![httparse::EMPTY_HEADER; max_headers];
    let mut request = httparse::Request::new(&mut slots);
    let header_len = match request.parse(buffer) {
        Err(httparse::Error::Version) => return HeadParse::BadVersion,
        Err(_) => return HeadParse::Invalid,
        Ok(httparse::Status::Partial) => return HeadParse::Partial,
        Ok(httparse::Status::Complete(header_len)) => header_len,
    };
    let method = request.method.map(String::from);
    let path = request.path.map(String::from);
    let keep = |h: &httparse::Header| Header { name: String::from(h.name), value: h.value.to_vec() };
    let headers = request.headers.iter().map(keep).collect();
    HeadParse::Complete(RawHead { header_len, method, path, version: request.version, headers })
}

/// `http::Method::from_bytes` on the bytes of `token`. Trusted: it succeeds
/// exactly on a token that is not empty and whose bytes all stand in the
/// crate's table of method characters.
#[verifier::external_body]
fn method_valid(token: &str) -> (r: bool)
    ensures
        r == http_method_valid(token@),
{
    http::Method::from_bytes(token.as_bytes()).is_ok()
}

/// `http::Uri::from_str` on `target`, then `Uri::path` and `Uri::query`.
/// Trusted: the outcome is a function of the target.
#[verifier::external_body]
fn uri_parts(target: &str) -> (r: Option<Target>)
    ensures
        target_view(r) == http_uri_parts(target@),
{
    target.parse::<http::Uri>().ok().map(|uri| Target {
        path: String::from(uri.path()),
        query: uri.query().map(String::from),
    })
}

/// `http::header::HeaderName::from_bytes` on the bytes of `name`, then
/// `HeaderName::as_str`. Trusted: the outcome is a function of the name.
#[verifier::external_body]
fn header_name(name: &str) -> (r: Option<String>)
    ensures
        text_view(r) == http_header_name(name@),
{
    http::header::HeaderName::from_bytes(name.as_bytes()).ok().map(|n| String::from(n.as_str()))
}

/// `http::header::HeaderValue::from_bytes` on `value`. Trusted: it succeeds
/// exactly where every byte is a tab or at least a space and not DEL.
#[verifier::external_body]
fn header_value_valid(value: &[u8]) -> (r: bool)
    ensures
        r == is_header_value(value@),
{
    http::header::HeaderValue::from_bytes(value).is_ok()
}

/// The method that a method token stands for.
pub open spec fn method_of(token: Seq<char>) -> Method {
    if token == "POST"@ {
        Method::Post
    } else if token == "GET"@ {
        Method::Get
    } else if token == "PUT"@ {
        Method::Put
    } else if token == "DELETE"@ {
        Method::Delete
    } else {
        Method::Other
    }
}

/// Whether two texts hold the same characters.
pub fn same_text(a: &str, b: &str) -> (r: bool)
    ensures
        r == (a@ == b@),
{
    let left = String::from_str(a);
    let right = String::from_str(b);
    left == right
}

/// The method that `token` stands for: one of the four that the service
/// knows, or `Other`.
pub fn classify_method(token: &str) -> (r: Method)
    ensures
        r == method_of(token@),
{
    if same_text(token, "POST") {
        Method::Post
    } else if same_text(token, "GET") {
        Method::Get
    } else if same_text(token, "PUT") {
        Method::Put
    } else if same_text(token, "DELETE") {
        Method::Delete
    } else {
        Method::Other
    }
}

/// Whether a header line can be kept: `http` accepts its name and its value.
pub open spec fn header_kept(header: HeaderView) -> bool {
    http_header_name(header.0) is Some && is_header_value(header.1)
}

/// The header lines as they are kept, each under the name that `http`
/// gives it; `None` where one of them cannot be kept.
pub open spec fn vetted_headers(raw: Seq<HeaderView>) -> Option<Seq<HeaderView>> {
    if forall|i: int| 0 <= i < raw.len() ==> header_kept(#[trigger] raw[i]) {
        Some(Seq::new(raw.len(), |i: int| (http_header_name(raw[i].0)->0, raw[i].1)))
    } else {
        None
    }
}

/// The header lines of `headers`, where there are any.
pub open spec fn kept_view(headers: Option<Vec<Header>>) -> Option<Seq<HeaderView>> {
    match headers {
        Some(h) => Some(headers_view(h@)),
        None => None,
    }
}

/// Checks every header line and renames it as `http` would keep it.
pub fn vet_headers(raw: &Vec<Header>) -> (r: Option<Vec<Header>>)
    ensures
        kept_view(r) == vetted_headers(headers_view(raw@)),
{
    let ghost lines = headers_view(raw@);
    let mut kept: Vec<Header> = Vec::new();
    let mut i: usize = 0;
    while i < raw.len()
        invariant
            i <= raw.len(),
            lines == headers_view(raw@),
            kept@.len() == i,
            forall|j: int| 0 <= j < i ==> header_kept(#[trigger] lines[j]),
            forall|j: int|
                0 <= j < i ==> (#[trigger] kept@[j])@ == (http_header_name(lines[j].0)->0, lines[j].1),
        decreases raw.len() - i,
    {
        let line = &raw[i];
        assert(lines[i as int] == line@);
        let name = header_name(line.name.as_str());
        let value_ok = header_value_valid(line.value.as_slice());
        match name {
            Some(name) if value_ok => {
                kept.push(Header { name, value: vstd::slice::slice_to_vec(line.value.as_slice()) });
            },
            _ => {
                assert(!header_kept(lines[i as int]));
                return None;
            },
        }
        i += 1;
    }
    assert(headers_view(kept@) =~= vetted_headers(lines)->0);
    Some(kept)
}

/// One decoded request.
#[derive(Debug, Clone)]
pub struct Request {
    pub method: Method,
    pub path: String,
    pub query: Option<String>,
    pub version: Version,
    pub headers: Vec<Header>,
    /// Everything in the buffer after the head.
    pub body: Vec<u8>,
}

/// The mathematical content of a [`Request`].
pub struct RequestView {
    pub method: Method,
    pub path: Seq<char>,
    pub query: Option<Seq<char>>,
    pub version: Version,
    pub headers: Seq<HeaderView>,
    pub body: Seq<u8>,
}

impl View for Request {
    type V = RequestView;

    open spec fn view(&self) -> RequestView {
        RequestView {
            method: self.method,
            path: self.path@,
            query: text_view(self.query),
            version: self.version,
            headers: headers_view(self.headers@),
            body: self.body@,
        }
    }
}

/// What the `http` parsers said of the parts of one head.
#[derive(Debug, Clone)]
pub struct Vetting {
    /// Whether the method is a method token.
    pub method_valid: bool,
    /// The target split into path and query, where it is a URI.
    pub target: Option<Target>,
    /// The header lines under their kept names, where all can be kept.
    pub headers: Option<Vec<Header>>,
}

/// The mathematical content of a [`Vetting`].
pub struct VettingView {
    pub method_valid: bool,
    pub target: Option<TargetView>,
    pub headers: Option<Seq<HeaderView>>,
}

impl View for Vetting {
    type V = VettingView;

    open spec fn view(&self) -> VettingView {
        VettingView {
            method_valid: self.method_valid,
            target: target_view(self.target),
            headers: kept_view(self.headers),
        }
    }
}

/// What `http` says of the parts of `head`.
pub open spec fn vetting_of(head: RawHeadView) -> VettingView {
    VettingView {
        method_valid: head.method matches Some(token) && http_method_valid(token),
        target: match head.path {
            Some(target) => http_uri_parts(target),
            None => None,
        },
        headers: vetted_headers(head.headers),
    }
}

/// Asks `http` about the method, the target and the header lines of `head`.
pub fn vet(head: &RawHead) -> (r: Vetting)
    ensures
        r@ == vetting_of(head@),
{
    let method_valid = match &head.method {
        Some(token) => method_valid(token.as_str()),
        None => false,
    };
    let target = match &head.path {
        Some(target) => uri_parts(target.as_str()),
        None => None,
    };
    let headers = vet_headers(&head.headers);
    Vetting { method_valid, target, headers }
}

/// The request that a tokenized head, what `http` said of its parts and the
/// buffer it came from make together, or the first thing that is wrong: the
/// method, then the target, then the version, then the header lines.
pub open spec fn assembled(head: RawHeadView, vetting: VettingView, buffer: Seq<u8>) -> Result<
    RequestView,
    HttpError,
> {
    if head.method is None {
        Err(HttpError::NoMethod)
    } else if !vetting.method_valid {
        Err(HttpError::InvalidMethod)
    } else if head.path is None {
        Err(HttpError::NoURI)
    } else if vetting.target is None {
        Err(HttpError::InvalidURI)
    } else if head.version is None {
        Err(HttpError::NoVersion)
    } else if head.version->0 > 1 {
        Err(HttpError::InvalidVersion)
    } else if vetting.headers is None {
        Err(HttpError::RequestCreationError)
    } else {
        Ok(
            RequestView {
                method: method_of(head.method->0),
                path: vetting.target.unwrap().0,
                query: vetting.target.unwrap().1,
                version: if head.version->0 == 0 {
                    Version::Http10
                } else {
                    Version::Http11
                },
                headers: vetting.headers->0,
                body: buffer.subrange(head.header_len as int, buffer.len() as int),
            },
        )
    }
}

/// Whether `r` is the outcome `expected`, the request taken by its content.
pub open spec fn decodes_to(r: Result<Request, HttpError>, expected: Result<RequestView, HttpError>) -> bool {
    match r {
        Ok(request) => expected == Ok::<RequestView, HttpError>(request@),
        Err(e) => expected == Err::<RequestView, HttpError>(e),
    }
}

/// Builds the request from a tokenized head and from what `http` said of
/// its parts; the body is what follows the head in `buffer`.
pub fn assemble(head: RawHead, vetting: Vetting, buffer: &[u8]) -> (r: Result<Request, HttpError>)
    requires
        head.header_len <= buffer@.len(),
    ensures
        decodes_to(r, assembled(head@, vetting@, buffer@)),
{
    let token = match head.method {
        Some(token) => token,
        None => { return Err(HttpError::NoMethod); },
    };
    if !vetting.method_valid {
        return Err(HttpError::InvalidMethod);
    }
    if head.path.is_none() {
        return Err(HttpError::NoURI);
    }
    let target = match vetting.target {
        Some(target) => target,
        None => { return Err(HttpError::InvalidURI); },
    };
    let version = match head.version {
        Some(0) => Version::Http10,
        Some(1) => Version::Http11,
        Some(_) => { return Err(HttpError::InvalidVersion); },
        None => { return Err(HttpError::NoVersion); },
    };
    let headers = match vetting.headers {
        Some(headers) => headers,
        None => { return Err(HttpError::RequestCreationError); },
    };
    let body = vstd::slice::slice_to_vec(
        vstd::slice::slice_subrange(buffer, head.header_len, buffer.len()),
    );
    Ok(
        Request {
            method: classify_method(token.as_str()),
            path: target.path,
            query: target.query,
            version,
            headers,
            body,
        },
    )
}

/// What a buffer decodes to: a malformed head, one with an unrecognized
/// version and an unfinished one are told apart, and a whole head is vetted
/// part by part.
pub open spec fn decoded(buffer: Seq<u8>) -> Result<RequestView, HttpError> {
    match httparse_request(buffer, MAX_HEADERS as nat) {
        HeadParseView::Invalid => Err(HttpError::InvalidContent),
        HeadParseView::BadVersion => Err(HttpError::InvalidVersion),
        HeadParseView::Partial => Err(HttpError::IncompleteHeader),
        HeadParseView::Complete(head) => assembled(head, vetting_of(head), buffer),
    }
}

/// Decodes the bytes read off a connection as one request. A head that the
/// tokenizer takes whole always names a method, a target and a version, so
/// the three errors for a missing one never come from bytes.
pub fn buffer_to_request(buffer: &[u8]) -> (r: Result<Request, HttpError>)
    ensures
        decodes_to(r, decoded(buffer@)),
        r matches Err(e) ==> e != HttpError::NoMethod && e != HttpError::NoURI && e
            != HttpError::NoVersion,
{
    match parse_head(buffer, MAX_HEADERS) {
        HeadParse::Invalid => Err(HttpError::InvalidContent),
        HeadParse::BadVersion => Err(HttpError::InvalidVersion),
        HeadParse::Partial => Err(HttpError::IncompleteHeader),
        HeadParse::Complete(head) => {
            let vetting = vet(&head);
            assemble(head, vetting, buffer)
        },
    }
}

} // verus!
