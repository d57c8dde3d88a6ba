//! The error taxonomy: what the API reports, and what a call can end in.

use vstd::prelude::*;

use crate::dto::ErrorReply;
use crate::text::same_text;

verus! {

/// A reason code that the API reports in an error reply.
#[derive(Debug, PartialEq, Eq, Clone, Copy, Structural)]
pub enum ErrorCode {
    Unknown,
    NoToken,
    NoDomain,
    NoContent,
    NoType,
    NoIp,
    BadDomain,
    Prohibited,
    BadToken,
    BadLogin,
    BadPasswd,
    NoAuth,
    NotAllowed,
    Blocked,
    Occupied,
    DomainLimitReached,
    NoReply,
}

impl ErrorCode {
    /// The string that stands for the code in a reply.
    pub open spec fn wire(self) -> Seq<char> {
        match self {
            ErrorCode::Unknown => "unknown"@,
            ErrorCode::NoToken => "no_token"@,
            ErrorCode::NoDomain => "no_domain"@,
            ErrorCode::NoContent => "no_content"@,
            ErrorCode::NoType => "no_type"@,
            ErrorCode::NoIp => "no_ip"@,
            ErrorCode::BadDomain => "bad_domain"@,
            ErrorCode::Prohibited => "prohibited"@,
            ErrorCode::BadToken => "bad_token"@,
            ErrorCode::BadLogin => "bad_login"@,
            ErrorCode::BadPasswd => "bad_password"@,
            ErrorCode::NoAuth => "no_auth"@,
            ErrorCode::NotAllowed => "not_allowed"@,
            ErrorCode::Blocked => "blocked"@,
            ErrorCode::Occupied => "occupied"@,
            ErrorCode::DomainLimitReached => "domain_limit_reached"@,
            ErrorCode::NoReply => "no_reply"@,
        }
    }

    /// The fixed human-readable text of the code.
    pub open spec fn text(self) -> Seq<char> {
        match self {
            ErrorCode::Unknown => "unknown error"@,
            ErrorCode::NoToken => "access token missing"@,
            ErrorCode::NoDomain => "domain name missing"@,
            ErrorCode::NoContent => "content missing"@,
            ErrorCode::NoType => "type missing"@,
            ErrorCode::NoIp => "IP address missing"@,
            ErrorCode::BadDomain => "invalid domain name"@,
            ErrorCode::Prohibited => "domain name forbidden"@,
            ErrorCode::BadToken => "invalid token"@,
            ErrorCode::BadLogin => "invalid login"@,
            ErrorCode::BadPasswd => "invalid password"@,
            ErrorCode::NoAuth => "authorization missing"@,
            ErrorCode::NotAllowed => "access denied"@,
            ErrorCode::Blocked => "domain name blocked"@,
            ErrorCode::Occupied => "domain name occupied"@,
            ErrorCode::DomainLimitReached => "max number of domains exceeded"@,
            ErrorCode::NoReply => "server access error"@,
        }
    }

    /// Distinct codes have distinct names.
    pub proof fn lemma_wire_injective(a: ErrorCode, b: ErrorCode)
        ensures
            a.wire() == b.wire() ==> a == b,
    {
        reveal_strlit("unknown");
        reveal_strlit("no_token");
        reveal_strlit("no_domain");
        reveal_strlit("no_content");
        reveal_strlit("no_type");
        reveal_strlit("no_ip");
        reveal_strlit("bad_domain");
        reveal_strlit("prohibited");
        reveal_strlit("bad_token");
        reveal_strlit("bad_login");
        reveal_strlit("bad_password");
        reveal_strlit("no_auth");
        reveal_strlit("not_allowed");
        reveal_strlit("blocked");
        reveal_strlit("occupied");
        reveal_strlit("domain_limit_reached");
        reveal_strlit("no_reply");
        if a.wire() == b.wire() {
            assert(a.wire().len() == b.wire().len());
            assert(a.wire()[0] == b.wire()[0]);
            assert(a.wire()[1] == b.wire()[1]);
            assert(a.wire()[2] == b.wire()[2]);
            assert(a.wire()[3] == b.wire()[3]);
            assert(a.wire()[4] == b.wire()[4]);
            assert(a.wire()[5] == b.wire()[5]);
        }
    }

    /// The human-readable text of the code.
    pub fn description(&self) -> (r: &'static str)
        ensures
            r@ == self.text(),
    {
        match self {
            ErrorCode::Unknown => "unknown error",
            ErrorCode::NoToken => "access token missing",
            ErrorCode::NoDomain => "domain name missing",
            ErrorCode::NoContent => "content missing",
            ErrorCode::NoType => "type missing",
            ErrorCode::NoIp => "IP address missing",
            ErrorCode::BadDomain => "invalid domain name",
            ErrorCode::Prohibited => "domain name forbidden",
            ErrorCode::BadToken => "invalid token",
            ErrorCode::BadLogin => "invalid login",
            ErrorCode::BadPasswd => "invalid password",
            ErrorCode::NoAuth => "authorization missing",
            ErrorCode::NotAllowed => "access denied",
            ErrorCode::Blocked => "domain name blocked",
            ErrorCode::Occupied => "domain name occupied",
            ErrorCode::DomainLimitReached => "max number of domains exceeded",
            ErrorCode::NoReply => "server access error",
        }
    }

    /// The reason code that a string names, if any.
    pub open spec fn of_wire(s: Seq<char>) -> Option<ErrorCode> {
        if s == ErrorCode::Unknown.wire() {
            Some(ErrorCode::Unknown)
        } else if s == ErrorCode::NoToken.wire() {
            Some(ErrorCode::NoToken)
        } else if s == ErrorCode::NoDomain.wire() {
            Some(ErrorCode::NoDomain)
        } else if s == ErrorCode::NoContent.wire() {
            Some(ErrorCode::NoContent)
        } else if s == ErrorCode::NoType.wire() {
            Some(ErrorCode::NoType)
        } else if s == ErrorCode::NoIp.wire() {
            Some(ErrorCode::NoIp)
        } else if s == ErrorCode::BadDomain.wire() {
            Some(ErrorCode::BadDomain)
        } else if s == ErrorCode::Prohibited.wire() {
            Some(ErrorCode::Prohibited)
        } else if s == ErrorCode::BadToken.wire() {
            Some(ErrorCode::BadToken)
        } else if s == ErrorCode::BadLogin.wire() {
            Some(ErrorCode::BadLogin)
        } else if s == ErrorCode::BadPasswd.wire() {
            Some(ErrorCode::BadPasswd)
        } else if s == ErrorCode::NoAuth.wire() {
            Some(ErrorCode::NoAuth)
        } else if s == ErrorCode::NotAllowed.wire() {
            Some(ErrorCode::NotAllowed)
        } else if s == ErrorCode::Blocked.wire() {
            Some(ErrorCode::Blocked)
        } else if s == ErrorCode::Occupied.wire() {
            Some(ErrorCode::Occupied)
        } else if s == ErrorCode::DomainLimitReached.wire() {
            Some(ErrorCode::DomainLimitReached)
        } else if s == ErrorCode::NoReply.wire() {
            Some(ErrorCode::NoReply)
        } else {
            None
        }
    }

    /// Reads a reason code from its name; a name outside the known set is refused.
    pub fn from_wire(s: &str) -> (r: Option<ErrorCode>)
        ensures
            r == ErrorCode::of_wire(s@),
            forall|t: ErrorCode|
                #![trigger t.wire()]
                (r == Some(t)) <==> (s@ == t.wire()),
    {
        proof {
            assert forall|a: Self, b: Self| a.wire() == b.wire() implies a == b by {
                Self::lemma_wire_injective(a, b);
            }
        }
        if same_text(s, "unknown") {
            assert(s@ == ErrorCode::Unknown.wire());
            Some(ErrorCode::Unknown)
        } else if same_text(s, "no_token") {
            assert(s@ == ErrorCode::NoToken.wire());
            Some(ErrorCode::NoToken)
        } else if same_text(s, "no_domain") {
            assert(s@ == ErrorCode::NoDomain.wire());
            Some(ErrorCode::NoDomain)
        } else if same_text(s, "no_content") {
            assert(s@ == ErrorCode::NoContent.wire());
            Some(ErrorCode::NoContent)
        } else if same_text(s, "no_type") {
            assert(s@ == ErrorCode::NoType.wire());
            Some(ErrorCode::NoType)
        } else if same_text(s, "no_ip") {
            assert(s@ == ErrorCode::NoIp.wire());
            Some(ErrorCode::NoIp)
        } else if same_text(s, "bad_domain") {
            assert(s@ == ErrorCode::BadDomain.wire());
            Some(ErrorCode::BadDomain)
        } else if same_text(s, "prohibited") {
            assert(s@ == ErrorCode::Prohibited.wire());
            Some(ErrorCode::Prohibited)
        } else if same_text(s, "bad_token") {
            assert(s@ == ErrorCode::BadToken.wire());
            Some(ErrorCode::BadToken)
        } else if same_text(s, "bad_login") {
            assert(s@ == ErrorCode::BadLogin.wire());
            Some(ErrorCode::BadLogin)
        } else if same_text(s, "bad_password") {
            assert(s@ == ErrorCode::BadPasswd.wire());
            Some(ErrorCode::BadPasswd)
        } else if same_text(s, "no_auth") {
            assert(s@ == ErrorCode::NoAuth.wire());
            Some(ErrorCode::NoAuth)
        } else if same_text(s, "not_allowed") {
            assert(s@ == ErrorCode::NotAllowed.wire());
            Some(ErrorCode::NotAllowed)
        } else if same_text(s, "blocked") {
            assert(s@ == ErrorCode::Blocked.wire());
            Some(ErrorCode::Blocked)
        } else if same_text(s, "occupied") {
            assert(s@ == ErrorCode::Occupied.wire());
            Some(ErrorCode::Occupied)
        } else if same_text(s, "domain_limit_reached") {
            assert(s@ == ErrorCode::DomainLimitReached.wire());
            Some(ErrorCode::DomainLimitReached)
        } else if same_text(s, "no_reply") {
            assert(s@ == ErrorCode::NoReply.wire());
            Some(ErrorCode::NoReply)
        } else {
            None
        }
    }
}

/// Every known reason code reads back from its name as itself, and has a
/// non-empty description.
pub proof fn lemma_known_codes(c: ErrorCode)
    ensures
        ErrorCode::of_wire(c.wire()) == Some(c),
        c.text().len() > 0,
{
    assert forall|a: ErrorCode, b: ErrorCode| a.wire() == b.wire() implies a == b by {
        ErrorCode::lemma_wire_injective(a, b);
    }
    reveal_strlit("unknown error");
    reveal_strlit("access token missing");
    reveal_strlit("domain name missing");
    reveal_strlit("content missing");
    reveal_strlit("type missing");
    reveal_strlit("IP address missing");
    reveal_strlit("invalid domain name");
    reveal_strlit("domain name forbidden");
    reveal_strlit("invalid token");
    reveal_strlit("invalid login");
    reveal_strlit("invalid password");
    reveal_strlit("authorization missing");
    reveal_strlit("access denied");
    reveal_strlit("domain name blocked");
    reveal_strlit("domain name occupied");
    reveal_strlit("max number of domains exceeded");
    reveal_strlit("server access error");
}

/// What a call can end in, besides the reply it asked for.
///
/// Each variant carries its cause: the text that the failing party gave, or
/// the error reply that the API sent.
#[derive(Debug, Clone)]
pub enum Error {
    /// The transport could not complete the exchange.
    Http(String),
    /// The body was neither the expected reply nor an error reply.
    Json(String),
    /// The API understood the request and refused it.
    Api(ErrorReply),
    /// Reading the body of the response failed.
    Io(String),
}

impl Error {
    /// The human-readable description of the error.
    pub open spec fn text(self) -> Seq<char> {
        match self {
            Error::Http(m) => m@,
            Error::Json(m) => m@,
            Error::Api(e) => e.error.text(),
            Error::Io(m) => m@,
        }
    }

    /// The human-readable description; for a refusal by the API, the text of
    /// its reason code.
    pub fn description(&self) -> (r: &str)
        ensures
            r@ == self.text(),
    {
        match self {
            Error::Http(m) => m.as_str(),
            Error::Json(m) => m.as_str(),
            Error::Api(e) => e.description(),
            Error::Io(m) => m.as_str(),
        }
    }
}

} // verus!
