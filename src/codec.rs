//! Values that arrive as strings on the wire: record types, result codes and
//! record content.

use vstd::prelude::*;

use crate::addr::{ipv4_text, ipv4_to_string, is_ipv4_text, lemma_ipv4_text_injective, parse_ipv4};
use crate::text::same_text;

verus! {

/// The type of a DNS record.
#[derive(Debug, PartialEq, Eq, Clone, Copy, Structural)]
pub enum DnsType {
    Srv,
    Txt,
    Ns,
    Mx,
    Soa,
    A,
    Aaaa,
    Cname,
}

impl DnsType {
    /// The canonical upper-case name of the type, used in both directions.
    pub open spec fn wire(self) -> Seq<char> {
        match self {
            DnsType::Srv => "SRV"@,
            DnsType::Txt => "TXT"@,
            DnsType::Ns => "NS"@,
            DnsType::Mx => "MX"@,
            DnsType::Soa => "SOA"@,
            DnsType::A => "A"@,
            DnsType::Aaaa => "AAAA"@,
            DnsType::Cname => "CNAME"@,
        }
    }

    /// The canonical name of the type.
    pub fn as_str(&self) -> (r: &'static str)
        ensures
            r@ == self.wire(),
    {
        match self {
            DnsType::Srv => "SRV",
            DnsType::Txt => "TXT",
            DnsType::Ns => "NS",
            DnsType::Mx => "MX",
            DnsType::Soa => "SOA",
            DnsType::A => "A",
            DnsType::Aaaa => "AAAA",
            DnsType::Cname => "CNAME",
        }
    }

    /// Distinct types have distinct names.
    pub proof fn lemma_wire_injective(a: DnsType, b: DnsType)
        ensures
            a.wire() == b.wire() ==> a == b,
    {
        reveal_strlit("SRV");
        reveal_strlit("TXT");
        reveal_strlit("NS");
        reveal_strlit("MX");
        reveal_strlit("SOA");
        reveal_strlit("A");
        reveal_strlit("AAAA");
        reveal_strlit("CNAME");
        if a.wire() == b.wire() {
            assert(a.wire().len() == b.wire().len());
            assert(a.wire()[0] == b.wire()[0]);
            assert(a.wire()[1] == b.wire()[1]);
        }
    }

    /// The record type that a string names, if any.
    pub open spec fn of_wire(s: Seq<char>) -> Option<DnsType> {
        if s == DnsType::Srv.wire() {
            Some(DnsType::Srv)
        } else if s == DnsType::Txt.wire() {
            Some(DnsType::Txt)
        } else if s == DnsType::Ns.wire() {
            Some(DnsType::Ns)
        } else if s == DnsType::Mx.wire() {
            Some(DnsType::Mx)
        } else if s == DnsType::Soa.wire() {
            Some(DnsType::Soa)
        } else if s == DnsType::A.wire() {
            Some(DnsType::A)
        } else if s == DnsType::Aaaa.wire() {
            Some(DnsType::Aaaa)
        } else if s == DnsType::Cname.wire() {
            Some(DnsType::Cname)
        } else {
            None
        }
    }

    /// The canonical name of every type reads back as that type.
    pub proof fn lemma_names_read_back(t: DnsType)
        ensures
            DnsType::of_wire(t.wire()) == Some(t),
    {
        assert forall|a: DnsType, b: DnsType| a.wire() == b.wire() implies a == b by {
            DnsType::lemma_wire_injective(a, b);
        }
    }

    /// Reads a record type from its canonical name; any other string is refused.
    pub fn from_wire(s: &str) -> (r: Option<DnsType>)
        ensures
            r == DnsType::of_wire(s@),
            forall|t: DnsType|
                #![trigger t.wire()]
                (r == Some(t)) <==> (s@ == t.wire()),
    {
        proof {
            assert forall|a: Self, b: Self| a.wire() == b.wire() implies a == b by {
                Self::lemma_wire_injective(a, b);
            }
        }
        if same_text(s, "SRV") {
            assert(s@ == DnsType::Srv.wire());
            Some(DnsType::Srv)
        } else if same_text(s, "TXT") {
            assert(s@ == DnsType::Txt.wire());
            Some(DnsType::Txt)
        } else if same_text(s, "NS") {
            assert(s@ == DnsType::Ns.wire());
            Some(DnsType::Ns)
        } else if same_text(s, "MX") {
            assert(s@ == DnsType::Mx.wire());
            Some(DnsType::Mx)
        } else if same_text(s, "SOA") {
            assert(s@ == DnsType::Soa.wire());
            Some(DnsType::Soa)
        } else if same_text(s, "A") {
            assert(s@ == DnsType::A.wire());
            Some(DnsType::A)
        } else if same_text(s, "AAAA") {
            assert(s@ == DnsType::Aaaa.wire());
            Some(DnsType::Aaaa)
        } else if same_text(s, "CNAME") {
            assert(s@ == DnsType::Cname.wire());
            Some(DnsType::Cname)
        } else {
            None
        }
    }
}

/// The `success` discriminator of every reply.
#[derive(Debug, PartialEq, Eq, Clone, Copy, Structural)]
pub enum ResultCode {
    Success,
    Failure,
}

impl ResultCode {
    /// The string that stands for the code in a reply.
    pub open spec fn wire(self) -> Seq<char> {
        match self {
            ResultCode::Success => "ok"@,
            ResultCode::Failure => "error"@,
        }
    }

    /// Distinct codes have distinct names.
    pub proof fn lemma_wire_injective(a: ResultCode, b: ResultCode)
        ensures
            a.wire() == b.wire() ==> a == b,
    {
        reveal_strlit("ok");
        reveal_strlit("error");
        if a.wire() == b.wire() {
            assert(a.wire().len() == b.wire().len());
            assert(a.wire()[0] == b.wire()[0]);
        }
    }

    /// The result code that a string names, if any.
    pub open spec fn of_wire(s: Seq<char>) -> Option<ResultCode> {
        if s == ResultCode::Success.wire() {
            Some(ResultCode::Success)
        } else if s == ResultCode::Failure.wire() {
            Some(ResultCode::Failure)
        } else {
            None
        }
    }

    /// `"ok"` reads as success, `"error"` as failure, and every other string
    /// is refused.
    pub proof fn lemma_result_code_strings(s: Seq<char>)
        ensures
            ResultCode::of_wire(s) == Some(ResultCode::Success) <==> s == "ok"@,
            ResultCode::of_wire(s) == Some(ResultCode::Failure) <==> s == "error"@,
            ResultCode::of_wire(s) is None <==> (s != "ok"@ && s != "error"@),
    {
        ResultCode::lemma_wire_injective(ResultCode::Success, ResultCode::Failure);
    }

    /// Reads a result code: `"ok"` or `"error"`; any other string is refused.
    pub fn from_wire(s: &str) -> (r: Option<ResultCode>)
        ensures
            r == ResultCode::of_wire(s@),
            forall|t: ResultCode|
                #![trigger t.wire()]
                (r == Some(t)) <==> (s@ == t.wire()),
    {
        proof {
            assert forall|a: Self, b: Self| a.wire() == b.wire() implies a == b by {
                Self::lemma_wire_injective(a, b);
            }
        }
        if same_text(s, "ok") {
            assert(s@ == ResultCode::Success.wire());
            Some(ResultCode::Success)
        } else if same_text(s, "error") {
            assert(s@ == ResultCode::Failure.wire());
            Some(ResultCode::Failure)
        } else {
            None
        }
    }
}

/// What the content field decodes to (see `Content::decode`).
pub open spec fn decoded(text: String, ipv6: Option<String>) -> Content {
    if is_ipv4_text(text@) {
        Content::Ipv4(choose|o: [u8; 4]| text@ == ipv4_text(o))
    } else {
        match ipv6 {
            Some(t) => Content::Ipv6(t),
            None => Content::Info(text),
        }
    }
}

/// The dotted-decimal text of an address decodes to that address, and the
/// address renders as that same text.
pub proof fn lemma_ipv4_round_trip(o: [u8; 4], text: String, ipv6: Option<String>)
    requires
        text@ == ipv4_text(o),
    ensures
        decoded(text, ipv6) == Content::Ipv4(o),
        decoded(text, ipv6).text() == text@,
{
    let p = choose|p: [u8; 4]| text@ == ipv4_text(p);
    lemma_ipv4_text_injective(o, p);
}

/// Text that reads as an IPv6 address (and not as an IPv4 one) decodes to that
/// address, which renders as its canonical text.
pub proof fn lemma_ipv6_decoded(text: String, canonical: String)
    requires
        !is_ipv4_text(text@),
    ensures
        decoded(text, Some(canonical)) == Content::Ipv6(canonical),
        decoded(text, Some(canonical)).text() == canonical@,
{
}

/// Text that is no address decodes to itself, unchanged.
pub proof fn lemma_other_text_kept(text: String)
    requires
        !is_ipv4_text(text@),
    ensures
        decoded(text, None) == Content::Info(text),
        decoded(text, None).text() == text@,
{
}

/// The content of a record: an IPv4 address, an IPv6 address, or any other
/// text.
#[derive(Debug, Clone, PartialEq, Eq)]
pub enum Content {
    /// An IPv4 address, by its four octets.
    Ipv4([u8; 4]),
    /// An IPv6 address, held in its canonical text form.
    Ipv6(String),
    /// Text that is not an address, as it came.
    Info(String),
}

impl Content {
    /// The text form of the content: an address in its canonical form, other
    /// text as it is.
    pub open spec fn text(self) -> Seq<char> {
        match self {
            Content::Ipv4(o) => ipv4_text(o),
            Content::Ipv6(t) => t@,
            Content::Info(t) => t@,
        }
    }

    /// Decodes the content field of a record. Tried in order: an IPv4
    /// address, where `text` is one in dotted-decimal form; an IPv6 address,
    /// where `ipv6` holds the canonical text that `text` reads as; else the
    /// text as it came. Never fails.
    pub fn decode(text: String, ipv6: Option<String>) -> (r: Content)
        ensures
            r == decoded(text, ipv6),
            forall|o: [u8; 4]| text@ == ipv4_text(o) ==> r == Content::Ipv4(o),
    {
        match parse_ipv4(text.as_str()) {
            Some(o) => {
                proof {
                    let p = choose|p: [u8; 4]| text@ == ipv4_text(p);
                    lemma_ipv4_text_injective(o, p);
                }
                Content::Ipv4(o)
            },
            None => match ipv6 {
                Some(t) => Content::Ipv6(t),
                None => Content::Info(text),
            },
        }
    }

    /// Renders the content as text.
    pub fn to_text(&self) -> (r: String)
        ensures
            r@ == self.text(),
    {
        match self {
            Content::Ipv4(o) => ipv4_to_string(*o),
            Content::Ipv6(t) => t.clone(),
            Content::Info(t) => t.clone(),
        }
    }
}

} // verus!
