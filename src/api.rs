//! How a request goes on the wire, and how what comes back is settled.
//!
//! The library does not perform the HTTP exchange. It renders a request into
//! an [`HttpCall`] (method, URL, body, headers); whoever performs the call
//! hands back an [`Outcome`], and then the results of decoding the body.

use vstd::prelude::*;

use crate::dto::{AddRequest, DeleteRequest, EditRequest, ErrorReply, ListRequest};
use crate::error::Error;
use crate::text::{dec_text, decimal, digit_char};
use vstd::utf8::encode_utf8;

verus! {

/// Where every endpoint of the API lives.
pub const BASE_URL: &'static str = "https://pddimp.yandex.ru/api2/admin/dns";

/// The content type of every call.
pub const FORM_CONTENT_TYPE: &'static str = "application/x-www-form-urlencoded";

/// The access token, sent in a header of its own with every call.
#[derive(Debug, Clone, PartialEq, Eq)]
pub struct PddToken(pub String);

impl PddToken {
    /// Wraps a token.
    pub fn new(token: &str) -> (r: PddToken)
        ensures
            r.0@ == token@,
    {
        PddToken(token.to_owned())
    }

    /// The name of the header that carries the token.
    pub fn header_name() -> (r: &'static str)
        ensures
            r@ == "PddToken"@,
    {
        "PddToken"
    }
}

/// An HTTP method.
#[derive(Debug, PartialEq, Eq, Clone, Copy, Structural)]
pub enum Method {
    Get,
    Post,
    Delete,
}

impl Method {
    /// Whether the parameters of a call with this method go in the query.
    pub open spec fn in_query(self) -> bool {
        self is Get || self is Delete
    }
}

/// A request as the API sees it: a method, an endpoint and its parameters,
/// in order.
#[derive(Debug, Clone)]
pub struct Rendered {
    pub method: Method,
    pub endpoint: String,
    pub params: Vec<(String, String)>,
}

/// The text of each parameter pair.
pub open spec fn pairs_view(v: Seq<(String, String)>) -> Seq<(Seq<char>, Seq<char>)> {
    v.map_values(|p: (String, String)| (p.0@, p.1@))
}

/// The text of an optional number: its decimal numeral, or empty where absent.
pub open spec fn opt_dec(v: Option<u32>) -> Seq<char> {
    match v {
        Some(x) => dec_text(x as nat),
        None => Seq::empty(),
    }
}

fn opt_decimal(v: Option<u32>) -> (r: String)
    ensures
        r@ == opt_dec(v),
{
    match v {
        Some(x) => decimal(x as u64),
        None => String::new(),
    }
}

fn opt_text(v: &Option<String>) -> (r: String)
    ensures
        r@ == crate::dto::text_or_empty(*v),
{
    match v {
        Some(t) => t.clone(),
        None => String::new(),
    }
}

fn pair(key: &str, value: String) -> (r: (String, String))
    ensures
        r.0@ == key@,
        r.1 == value,
{
    (key.to_owned(), value)
}

impl ListRequest {
    /// `GET list` with the domain.
    pub fn render(&self) -> (r: Rendered)
        ensures
            r.method == Method::Get,
            r.endpoint@ == "list"@,
            pairs_view(r.params@) == seq![("domain"@, self.domain@)],
    {
        let mut params: Vec<(String, String)> = Vec::new();
        params.push(pair("domain", self.domain.clone()));
        let r = Rendered { method: Method::Get, endpoint: "list".to_owned(), params };
        assert(pairs_view(r.params@) =~= seq![("domain"@, self.domain@)]);
        r
    }
}

impl AddRequest {
    /// `POST add` with every field; numbers as decimal numerals.
    pub fn render(&self) -> (r: Rendered)
        ensures
            r.method == Method::Post,
            r.endpoint@ == "add"@,
            pairs_view(r.params@) == seq![
                ("domain"@, self.domain@),
                ("type"@, self.kind.wire()),
                ("admin_mail"@, self.admin_mail@),
                ("content"@, self.content@),
                ("priority"@, dec_text(self.priority as nat)),
                ("weight"@, dec_text(self.weight as nat)),
                ("port"@, dec_text(self.port as nat)),
                ("target"@, self.target@),
                ("subdomain"@, self.subdomain@),
                ("ttl"@, dec_text(self.ttl as nat)),
            ],
    {
        let mut params: Vec<(String, String)> = Vec::new();
        params.push(pair("domain", self.domain.clone()));
        params.push(pair("type", self.kind.as_str().to_owned()));
        params.push(pair("admin_mail", self.admin_mail.clone()));
        params.push(pair("content", self.content.clone()));
        params.push(pair("priority", decimal(self.priority as u64)));
        params.push(pair("weight", decimal(self.weight as u64)));
        params.push(pair("port", decimal(self.port as u64)));
        params.push(pair("target", self.target.clone()));
        params.push(pair("subdomain", self.subdomain.clone()));
        params.push(pair("ttl", decimal(self.ttl as u64)));
        let r = Rendered { method: Method::Post, endpoint: "add".to_owned(), params };
        assert(pairs_view(r.params@) =~= seq![
            ("domain"@, self.domain@),
            ("type"@, self.kind.wire()),
            ("admin_mail"@, self.admin_mail@),
            ("content"@, self.content@),
            ("priority"@, dec_text(self.priority as nat)),
            ("weight"@, dec_text(self.weight as nat)),
            ("port"@, dec_text(self.port as nat)),
            ("target"@, self.target@),
            ("subdomain"@, self.subdomain@),
            ("ttl"@, dec_text(self.ttl as nat)),
        ]);
        r
    }
}

impl EditRequest {
    /// `POST edit` with every field; an absent field goes as an empty value,
    /// so "unset" and "set to empty" look the same on the wire.
    pub fn render(&self) -> (r: Rendered)
        ensures
            r.method == Method::Post,
            r.endpoint@ == "edit"@,
            pairs_view(r.params@) == seq![
                ("domain"@, self.domain@),
                ("record_id"@, dec_text(self.record_id as nat)),
                ("subdomain"@, crate::dto::text_or_empty(self.subdomain)),
                ("ttl"@, opt_dec(self.ttl)),
                ("refresh"@, opt_dec(self.refresh)),
                ("retry"@, opt_dec(self.retry)),
                ("expire"@, opt_dec(self.expire)),
                ("neg_cache"@, opt_dec(self.neg_cache)),
                ("admin_mail"@, crate::dto::text_or_empty(self.admin_mail)),
                ("content"@, crate::dto::text_or_empty(self.content)),
                ("priority"@, opt_dec(self.priority)),
                ("port"@, opt_dec(self.port)),
                ("weight"@, opt_dec(self.weight)),
                ("target"@, crate::dto::text_or_empty(self.target)),
            ],
    {
        let mut params: Vec<(String, String)> = Vec::new();
        params.push(pair("domain", self.domain.clone()));
        params.push(pair("record_id", decimal(self.record_id)));
        params.push(pair("subdomain", opt_text(&self.subdomain)));
        params.push(pair("ttl", opt_decimal(self.ttl)));
        params.push(pair("refresh", opt_decimal(self.refresh)));
        params.push(pair("retry", opt_decimal(self.retry)));
        params.push(pair("expire", opt_decimal(self.expire)));
        params.push(pair("neg_cache", opt_decimal(self.neg_cache)));
        params.push(pair("admin_mail", opt_text(&self.admin_mail)));
        params.push(pair("content", opt_text(&self.content)));
        params.push(pair("priority", opt_decimal(self.priority)));
        params.push(pair("port", opt_decimal(self.port)));
        params.push(pair("weight", opt_decimal(self.weight)));
        params.push(pair("target", opt_text(&self.target)));
        let r = Rendered { method: Method::Post, endpoint: "edit".to_owned(), params };
        assert(pairs_view(r.params@) =~= seq![
            ("domain"@, self.domain@),
            ("record_id"@, dec_text(self.record_id as nat)),
            ("subdomain"@, crate::dto::text_or_empty(self.subdomain)),
            ("ttl"@, opt_dec(self.ttl)),
            ("refresh"@, opt_dec(self.refresh)),
            ("retry"@, opt_dec(self.retry)),
            ("expire"@, opt_dec(self.expire)),
            ("neg_cache"@, opt_dec(self.neg_cache)),
            ("admin_mail"@, crate::dto::text_or_empty(self.admin_mail)),
            ("content"@, crate::dto::text_or_empty(self.content)),
            ("priority"@, opt_dec(self.priority)),
            ("port"@, opt_dec(self.port)),
            ("weight"@, opt_dec(self.weight)),
            ("target"@, crate::dto::text_or_empty(self.target)),
        ]);
        r
    }
}

impl DeleteRequest {
    /// `POST delete` with the domain and the record.
    pub fn render(&self) -> (r: Rendered)
        ensures
            r.method == Method::Post,
            r.endpoint@ == "delete"@,
            pairs_view(r.params@) == seq![
                ("domain"@, self.domain@),
                ("record_id"@, dec_text(self.record_id as nat)),
            ],
    {
        let mut params: Vec<(String, String)> = Vec::new();
        params.push(pair("domain", self.domain.clone()));
        params.push(pair("record_id", decimal(self.record_id)));
        let r = Rendered { method: Method::Post, endpoint: "delete".to_owned(), params };
        assert(pairs_view(r.params@) =~= seq![
            ("domain"@, self.domain@),
            ("record_id"@, dec_text(self.record_id as nat)),
        ]);
        r
    }
}

/// Whether a byte passes form encoding unchanged: ASCII letters and digits,
/// and `*`, `-`, `.`, `_`.
pub open spec fn byte_kept(b: u8) -> bool {
    b == 42 || b == 45 || b == 46 || (48 <= b <= 57) || (65 <= b <= 90) || b == 95 || (97
        <= b <= 122)
}

/// An upper-case hexadecimal digit.
pub open spec fn hex_upper(d: int) -> char {
    if d < 10 {
        digit_char(d)
    } else if d == 10 {
        'A'
    } else if d == 11 {
        'B'
    } else if d == 12 {
        'C'
    } else if d == 13 {
        'D'
    } else if d == 14 {
        'E'
    } else {
        'F'
    }
}

/// The form encoding of one byte: kept as it is, a space as `+`, any other
/// byte as `%` and two upper-case hex digits.
pub open spec fn escaped_byte(b: u8) -> Seq<char> {
    if byte_kept(b) {
        seq![b as char]
    } else if b == 32 {
        seq!['+']
    } else {
        seq!['%', hex_upper(b as int / 16), hex_upper(b as int % 16)]
    }
}

/// The form encoding of a byte string, byte by byte.
pub open spec fn escaped_bytes(bs: Seq<u8>) -> Seq<char>
    decreases bs.len(),
{
    if bs.len() == 0 {
        Seq::empty()
    } else {
        escaped_bytes(bs.drop_last()) + escaped_byte(bs.last())
    }
}

/// The form encoding of a text: of its UTF-8 bytes.
pub open spec fn form_escaped(s: Seq<char>) -> Seq<char> {
    escaped_bytes(encode_utf8(s))
}

/// The form-urlencoded text of a list of pairs: `key=value`, joined by `&`.
pub open spec fn form_text(pairs: Seq<(Seq<char>, Seq<char>)>) -> Seq<char>
    decreases pairs.len(),
{
    if pairs.len() == 0 {
        Seq::empty()
    } else {
        let prev = pairs.drop_last();
        let sep = if prev.len() == 0 {
            Seq::empty()
        } else {
            seq!['&']
        };
        form_text(prev) + sep + form_escaped(pairs.last().0) + seq!['='] + form_escaped(
            pairs.last().1,
        )
    }
}

/// Relies on `form_urlencoded::byte_serialize` (reached through `url`): it maps
/// each byte of the UTF-8 input on its own, as `escaped_byte` states.
#[verifier::external_body]
fn form_escape(s: &str) -> (r: String)
    ensures
        r@ == form_escaped(s@),
{
    url::form_urlencoded::byte_serialize(s.as_bytes()).collect()
}

/// Renders parameters as `application/x-www-form-urlencoded` text.
pub fn form_encode(params: &Vec<(String, String)>) -> (r: String)
    ensures
        r@ == form_text(pairs_view(params@)),
{
    let mut s = String::new();
    let n = params.len();
    let mut i: usize = 0;
    proof {
        assert(pairs_view(params@.subrange(0, 0)) =~= Seq::empty());
    }
    while i < n
        invariant
            n == params@.len(),
            i <= n,
            s@ == form_text(pairs_view(params@.subrange(0, i as int))),
        decreases n - i,
    {
        let ghost prev = pairs_view(params@.subrange(0, i as int));
        let ghost next = pairs_view(params@.subrange(0, i as int + 1));
        let ghost before = s@;
        proof {
            reveal_strlit("&");
            reveal_strlit("=");
            assert("&"@ =~= seq!['&']);
            assert("="@ =~= seq!['=']);
        }
        let ghost sep: Seq<char> = if i == 0 {
            Seq::empty()
        } else {
            seq!['&']
        };
        if i > 0 {
            s.append("&");
        }
        assert(s@ == before + sep);
        let key = form_escape(params[i].0.as_str());
        let value = form_escape(params[i].1.as_str());
        s.append(key.as_str());
        s.append("=");
        s.append(value.as_str());
        proof {
            assert(next.drop_last() =~= prev);
            assert(next.last() == (params@[i as int].0@, params@[i as int].1@));
            assert(s@ == before + sep + key@ + seq!['='] + value@);
            assert(form_text(next) == form_text(prev) + sep + form_escaped(next.last().0) + seq![
                '=',
            ] + form_escaped(next.last().1));
        }
        i = i + 1;
    }
    assert(params@.subrange(0, n as int) =~= params@);
    s
}

/// An HTTP call, ready for a transport to perform.
#[derive(Debug, Clone)]
pub struct HttpCall {
    pub method: Method,
    pub url: String,
    pub body: Option<String>,
    pub headers: Vec<(String, String)>,
}

/// The address of an endpoint.
pub open spec fn endpoint_url(endpoint: Seq<char>) -> Seq<char> {
    BASE_URL@ + seq!['/'] + endpoint
}

/// Turns a rendered request into the HTTP call that carries it: for GET and
/// DELETE the encoded parameters follow the endpoint's address as a query,
/// for other methods they form the body. Every call carries the token and
/// the form content type.
pub fn http_call(token: &PddToken, call: &Rendered) -> (r: HttpCall)
    ensures
        r.method == call.method,
        call.method.in_query() ==> r.url@ == endpoint_url(call.endpoint@) + seq!['?'] + form_text(
            pairs_view(call.params@),
        ) && r.body is None,
        !call.method.in_query() ==> r.url@ == endpoint_url(call.endpoint@) && (r.body matches Some(
            b,
        ) && b@ == form_text(pairs_view(call.params@))),
        pairs_view(r.headers@) == seq![
            ("PddToken"@, token.0@),
            ("Content-Type"@, FORM_CONTENT_TYPE@),
        ],
{
    let params = form_encode(&call.params);
    let mut url = BASE_URL.to_owned();
    url.append("/");
    url.append(call.endpoint.as_str());
    proof {
        reveal_strlit("/");
        reveal_strlit("?");
    }
    let body = match call.method {
        Method::Get | Method::Delete => {
            url.append("?");
            url.append(params.as_str());
            None
        },
        Method::Post => Some(params),
    };
    let mut headers: Vec<(String, String)> = Vec::new();
    headers.push(pair(PddToken::header_name(), token.0.clone()));
    headers.push(pair("Content-Type", FORM_CONTENT_TYPE.to_owned()));
    assert(pairs_view(headers@) =~= seq![
        ("PddToken"@, token.0@),
        ("Content-Type"@, FORM_CONTENT_TYPE@),
    ]);
    HttpCall { method: call.method, url, body, headers }
}

/// What the transport reports after performing a call.
#[derive(Debug, Clone)]
pub enum Outcome {
    /// The response arrived; this is its body.
    Delivered(String),
    /// The exchange itself failed (connection, protocol); this is the cause.
    TransportFailed(String),
    /// A local I/O error on the stream, or while reading the body; this is
    /// the cause.
    IoFailed(String),
}

/// The step after the transport: a body to decode, or the error that ends
/// the call.
pub open spec fn after_response(o: Outcome) -> Result<String, Error> {
    match o {
        Outcome::Delivered(body) => Ok(body),
        Outcome::TransportFailed(m) => Err(Error::Http(m)),
        Outcome::IoFailed(m) => Err(Error::Io(m)),
    }
}

/// Takes the transport's outcome: `Ok` with the body that is to be decoded,
/// or the error that ends the call before any decoding.
pub fn on_response(o: Outcome) -> (r: Result<String, Error>)
    ensures
        r == after_response(o),
{
    match o {
        Outcome::Delivered(body) => Ok(body),
        Outcome::TransportFailed(m) => Err(Error::Http(m)),
        Outcome::IoFailed(m) => Err(Error::Io(m)),
    }
}

/// How a call ends once its body was decoded: the expected reply where it
/// decoded; else the API's refusal where the body is an error reply; else the
/// first decode failure.
pub open spec fn settled<R>(primary: Result<R, String>, fallback: Option<ErrorReply>) -> Result<
    R,
    Error,
> {
    match primary {
        Ok(v) => Ok(v),
        Err(m) => match fallback {
            Some(e) => Err(Error::Api(e)),
            None => Err(Error::Json(m)),
        },
    }
}

/// Settles a call from the two decodings of its body: as the expected reply
/// (`primary`) and, where that failed, as an error reply (`fallback`).
pub fn settle<R>(primary: Result<R, String>, fallback: Option<ErrorReply>) -> (r: Result<R, Error>)
    ensures
        r == settled(primary, fallback),
{
    match primary {
        Ok(v) => Ok(v),
        Err(m) => match fallback {
            Some(e) => Err(Error::Api(e)),
            None => Err(Error::Json(m)),
        },
    }
}

/// A call whose transport fails ends in a transport error carrying the cause,
/// and no body is handed on to be decoded.
pub proof fn lemma_transport_failure_ends_call(o: Outcome)
    requires
        o is TransportFailed,
    ensures
        after_response(o) == Err::<String, Error>(Error::Http(o->TransportFailed_0)),
        after_response(o) is Err,
{
}

} // verus!
