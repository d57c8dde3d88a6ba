//! Records, the requests that act on them, and the replies that come back.

use vstd::prelude::*;

use crate::codec::{Content, DnsType, ResultCode};
use crate::error::ErrorCode;
use crate::skiperr::SkipErr;

verus! {

/// The text of an optional string; absent text is empty.
pub open spec fn text_or_empty(s: Option<String>) -> Seq<char> {
    match s {
        Some(t) => t@,
        None => Seq::empty(),
    }
}

/// The value of an optional number, or a default where it is absent.
pub open spec fn value_or(v: Option<u32>, default: u32) -> u32 {
    match v {
        Some(x) => x,
        None => default,
    }
}

fn copy_text(s: &Option<String>) -> (r: Option<String>)
    ensures
        r == *s,
{
    match s {
        Some(t) => Some(t.clone()),
        None => None,
    }
}

/// A DNS record as the API lists it.
///
/// Fields that only some record types have (the SOA timers, the SRV weight and
/// port) are optional; nothing here checks them against the type.
#[derive(Debug, Clone)]
pub struct Record {
    pub record_id: u64,
    pub kind: DnsType,
    pub domain: String,
    pub subdomain: String,
    pub fqdn: String,
    pub content: Content,
    pub ttl: u32,
    pub priority: SkipErr<u32>,
    pub refresh: Option<u32>,
    pub admin_mail: Option<String>,
    pub expire: Option<u32>,
    pub minttl: Option<u32>,
    pub retry: Option<u32>,
    pub weight: Option<u32>,
    pub port: Option<u32>,
    pub operation: Option<String>,
}

/// Asks for the records of a domain.
#[derive(Debug, Clone)]
pub struct ListRequest {
    pub domain: String,
}

/// Asks to add a record.
#[derive(Debug, Clone)]
pub struct AddRequest {
    pub domain: String,
    pub kind: DnsType,
    pub admin_mail: String,
    pub content: String,
    pub priority: u32,
    pub weight: u32,
    pub port: u32,
    pub target: String,
    pub subdomain: String,
    pub ttl: u32,
}

/// Asks to change a record; each absent field is left to the server.
#[derive(Debug, Clone)]
pub struct EditRequest {
    pub domain: String,
    pub record_id: u64,
    pub subdomain: Option<String>,
    pub ttl: Option<u32>,
    pub refresh: Option<u32>,
    pub retry: Option<u32>,
    pub expire: Option<u32>,
    pub neg_cache: Option<u32>,
    pub admin_mail: Option<String>,
    pub content: Option<String>,
    pub priority: Option<u32>,
    pub port: Option<u32>,
    pub weight: Option<u32>,
    pub target: Option<String>,
}

/// Asks to delete a record.
#[derive(Debug, Clone)]
pub struct DeleteRequest {
    pub domain: String,
    pub record_id: u64,
}

/// The records of a domain.
#[derive(Debug, Clone)]
pub struct ListReply {
    pub records: Vec<Record>,
    pub domain: String,
    pub success: ResultCode,
}

/// The record that was added.
#[derive(Debug, Clone)]
pub struct AddReply {
    pub domain: String,
    pub record: Record,
    pub success: ResultCode,
}

/// The record that was changed.
#[derive(Debug, Clone)]
pub struct EditReply {
    pub domain: String,
    pub record_id: u64,
    pub record: Record,
    pub success: ResultCode,
}

/// The record that was deleted.
#[derive(Debug, Clone)]
pub struct DeleteReply {
    pub domain: String,
    pub record_id: u64,
    pub success: ResultCode,
}

/// A refusal by the API, with its reason code.
#[derive(Debug, Clone)]
pub struct ErrorReply {
    pub domain: String,
    pub record_id: Option<u64>,
    pub success: ResultCode,
    pub error: ErrorCode,
}

impl ErrorReply {
    /// The text of the reason code.
    pub fn description(&self) -> (r: &'static str)
        ensures
            r@ == self.error.text(),
    {
        self.error.description()
    }
}

impl Record {
    /// A request that adds a copy of this record. Absent numbers take their
    /// defaults (priority 10, weight and port 0); the target is empty, since a
    /// listed record does not carry it.
    pub fn as_add_req(&self) -> (r: AddRequest)
        ensures
            r.domain == self.domain,
            r.kind == self.kind,
            r.admin_mail@ == text_or_empty(self.admin_mail),
            r.content@ == self.content.text(),
            r.priority == value_or(self.priority.0, 10),
            r.weight == value_or(self.weight, 0),
            r.port == value_or(self.port, 0),
            r.target@ == Seq::<char>::empty(),
            r.subdomain == self.subdomain,
            r.ttl == self.ttl,
    {
        let admin_mail = match &self.admin_mail {
            Some(m) => m.clone(),
            None => String::new(),
        };
        let priority = match self.priority.get() {
            Some(p) => *p,
            None => 10,
        };
        let weight = match self.weight {
            Some(w) => w,
            None => 0,
        };
        let port = match self.port {
            Some(p) => p,
            None => 0,
        };
        AddRequest {
            domain: self.domain.clone(),
            kind: self.kind,
            admin_mail,
            content: self.content.to_text(),
            priority,
            weight,
            port,
            target: String::new(),
            subdomain: self.subdomain.clone(),
            ttl: self.ttl,
        }
    }

    /// A request that sets every field of this record to its current value.
    /// The negative-cache time and the target have no source in a listed
    /// record and stay unset.
    pub fn as_edit_req(&self) -> (r: EditRequest)
        ensures
            r.domain == self.domain,
            r.record_id == self.record_id,
            r.subdomain == Some(self.subdomain),
            r.ttl == Some(self.ttl),
            r.refresh == self.refresh,
            r.retry == self.retry,
            r.expire == self.expire,
            r.neg_cache is None,
            r.admin_mail == self.admin_mail,
            r.content matches Some(c) && c@ == self.content.text(),
            r.priority == self.priority.0,
            r.port == self.port,
            r.weight == self.weight,
            r.target is None,
    {
        EditRequest {
            domain: self.domain.clone(),
            record_id: self.record_id,
            subdomain: Some(self.subdomain.clone()),
            ttl: Some(self.ttl),
            refresh: self.refresh,
            retry: self.retry,
            expire: self.expire,
            neg_cache: None,
            admin_mail: copy_text(&self.admin_mail),
            content: Some(self.content.to_text()),
            priority: *self.priority.get(),
            port: self.port,
            weight: self.weight,
            target: None,
        }
    }

    /// A request that deletes this record.
    pub fn as_delete_req(&self) -> (r: DeleteRequest)
        ensures
            r.domain == self.domain,
            r.record_id == self.record_id,
    {
        DeleteRequest { domain: self.domain.clone(), record_id: self.record_id }
    }
}

impl ListRequest {
    /// Asks for the records of `domain`.
    pub fn new(domain: &str) -> (r: ListRequest)
        ensures
            r.domain@ == domain@,
    {
        ListRequest { domain: domain.to_owned() }
    }
}

impl AddRequest {
    /// A request to add a record of type `kind` to `domain`, at the domain's
    /// apex ("@"), with empty content, priority 10, weight and port 0, and a
    /// time to live of 21600 seconds.
    pub fn new(kind: DnsType, domain: &str) -> (r: AddRequest)
        ensures
            r.domain@ == domain@,
            r.kind == kind,
            r.admin_mail@ == Seq::<char>::empty(),
            r.content@ == Seq::<char>::empty(),
            r.priority == 10,
            r.weight == 0,
            r.port == 0,
            r.target@ == Seq::<char>::empty(),
            r.subdomain@ == "@"@,
            r.ttl == 21600,
    {
        AddRequest {
            domain: domain.to_owned(),
            kind,
            admin_mail: String::new(),
            content: String::new(),
            priority: 10,
            weight: 0,
            port: 0,
            target: String::new(),
            subdomain: "@".to_owned(),
            ttl: 21600,
        }
    }

    /// The same request with another subdomain.
    pub fn subdomain(self, value: &str) -> (r: AddRequest)
        ensures
            r.subdomain@ == value@,
            r == (AddRequest { subdomain: r.subdomain, ..self }),
    {
        AddRequest { subdomain: value.to_owned(), ..self }
    }

    /// The same request with other content.
    pub fn content(self, value: &str) -> (r: AddRequest)
        ensures
            r.content@ == value@,
            r == (AddRequest { content: r.content, ..self }),
    {
        AddRequest { content: value.to_owned(), ..self }
    }
}

impl EditRequest {
    /// The same request, now setting the subdomain.
    pub fn subdomain(self, value: &str) -> (r: EditRequest)
        ensures
            r.subdomain matches Some(s) && s@ == value@,
            r == (EditRequest { subdomain: r.subdomain, ..self }),
    {
        EditRequest { subdomain: Some(value.to_owned()), ..self }
    }

    /// The same request, now setting the content.
    pub fn content(self, value: &str) -> (r: EditRequest)
        ensures
            r.content matches Some(c) && c@ == value@,
            r == (EditRequest { content: r.content, ..self }),
    {
        EditRequest { content: Some(value.to_owned()), ..self }
    }
}

} // verus!
