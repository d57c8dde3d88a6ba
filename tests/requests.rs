use yandex_dns::api::{
    form_encode, http_call, on_response, settle, Method, Outcome, PddToken, BASE_URL,
};
use yandex_dns::codec::{Content, DnsType, ResultCode};
use yandex_dns::dto::{
    AddReply, AddRequest, DeleteRequest, EditRequest, ErrorReply, ListRequest, Record,
};
use yandex_dns::error::{Error, ErrorCode};
use yandex_dns::skiperr::SkipErr;

fn a_record() -> Record {
    Record {
        record_id: 7,
        kind: DnsType::A,
        domain: "example.com".to_string(),
        subdomain: "www".to_string(),
        fqdn: "www.example.com".to_string(),
        content: Content::Ipv4([1, 2, 3, 4]),
        ttl: 3600,
        priority: SkipErr::from_option(None),
        refresh: None,
        admin_mail: None,
        expire: None,
        minttl: None,
        retry: None,
        weight: None,
        port: None,
        operation: None,
    }
}

fn srv_record() -> Record {
    Record {
        record_id: 42,
        kind: DnsType::Srv,
        domain: "example.com".to_string(),
        subdomain: "_sip._tcp".to_string(),
        fqdn: "_sip._tcp.example.com".to_string(),
        content: Content::Info("sip.example.com".to_string()),
        ttl: 600,
        priority: SkipErr::from_option(Some(5)),
        refresh: Some(1400),
        admin_mail: Some("admin@example.com".to_string()),
        expire: Some(1209600),
        minttl: Some(10800),
        retry: Some(900),
        weight: Some(20),
        port: Some(5060),
        operation: None,
    }
}

fn pairs(v: &[(String, String)]) -> Vec<(&str, &str)> {
    v.iter().map(|(k, x)| (k.as_str(), x.as_str())).collect()
}

#[test]
fn a_record_as_add_request() {
    let r = a_record().as_add_req();
    assert_eq!(r.domain, "example.com");
    assert_eq!(r.kind, DnsType::A);
    assert_eq!(r.subdomain, "www");
    assert_eq!(r.content, "1.2.3.4");
    assert_eq!(r.priority, 10);
    assert_eq!(r.weight, 0);
    assert_eq!(r.port, 0);
    assert_eq!(r.target, "");
    assert_eq!(r.admin_mail, "");
    assert_eq!(r.ttl, 3600);
}

#[test]
fn srv_record_as_add_request_keeps_values() {
    let r = srv_record().as_add_req();
    assert_eq!(r.priority, 5);
    assert_eq!(r.weight, 20);
    assert_eq!(r.port, 5060);
    assert_eq!(r.admin_mail, "admin@example.com");
    assert_eq!(r.content, "sip.example.com");
    assert_eq!(r.target, "");
}

#[test]
fn record_as_edit_request() {
    let r = srv_record().as_edit_req();
    assert_eq!(r.domain, "example.com");
    assert_eq!(r.record_id, 42);
    assert_eq!(r.subdomain.as_deref(), Some("_sip._tcp"));
    assert_eq!(r.ttl, Some(600));
    assert_eq!(r.refresh, Some(1400));
    assert_eq!(r.retry, Some(900));
    assert_eq!(r.expire, Some(1209600));
    assert_eq!(r.neg_cache, None);
    assert_eq!(r.admin_mail.as_deref(), Some("admin@example.com"));
    assert_eq!(r.content.as_deref(), Some("sip.example.com"));
    assert_eq!(r.priority, Some(5));
    assert_eq!(r.port, Some(5060));
    assert_eq!(r.weight, Some(20));
    assert_eq!(r.target, None);
    let a = a_record().as_edit_req();
    assert_eq!(a.content.as_deref(), Some("1.2.3.4"));
    assert_eq!(a.priority, None);
}

#[test]
fn record_as_delete_request() {
    let r = srv_record().as_delete_req();
    assert_eq!(r.domain, "example.com");
    assert_eq!(r.record_id, 42);
}

#[test]
fn add_request_defaults() {
    let r = AddRequest::new(DnsType::Mx, "example.com");
    assert_eq!(r.domain, "example.com");
    assert_eq!(r.kind, DnsType::Mx);
    assert_eq!(r.subdomain, "@");
    assert_eq!(r.content, "");
    assert_eq!(r.admin_mail, "");
    assert_eq!(r.target, "");
    assert_eq!((r.priority, r.weight, r.port, r.ttl), (10, 0, 0, 21600));
}

#[test]
fn add_request_setters() {
    let r = AddRequest::new(DnsType::A, "example.com").subdomain("www").content("1.2.3.4");
    assert_eq!(r.subdomain, "www");
    assert_eq!(r.content, "1.2.3.4");
    assert_eq!(r.domain, "example.com");
    assert_eq!(r.ttl, 21600);
}

#[test]
fn edit_request_setters() {
    let r = a_record().as_edit_req().subdomain("mail").content("5.6.7.8");
    assert_eq!(r.subdomain.as_deref(), Some("mail"));
    assert_eq!(r.content.as_deref(), Some("5.6.7.8"));
    assert_eq!(r.ttl, Some(3600));
}

#[test]
fn list_request_renders() {
    let r = ListRequest::new("example.com").render();
    assert_eq!(r.method, Method::Get);
    assert_eq!(r.endpoint, "list");
    assert_eq!(pairs(&r.params), vec![("domain", "example.com")]);
}

#[test]
fn add_request_renders_every_field() {
    let r = srv_record().as_add_req().render();
    assert_eq!(r.method, Method::Post);
    assert_eq!(r.endpoint, "add");
    assert_eq!(
        pairs(&r.params),
        vec![
            ("domain", "example.com"),
            ("type", "SRV"),
            ("admin_mail", "admin@example.com"),
            ("content", "sip.example.com"),
            ("priority", "5"),
            ("weight", "20"),
            ("port", "5060"),
            ("target", ""),
            ("subdomain", "_sip._tcp"),
            ("ttl", "600"),
        ]
    );
}

#[test]
fn edit_request_renders_absent_fields_empty() {
    let r = a_record().as_edit_req().render();
    assert_eq!(r.method, Method::Post);
    assert_eq!(r.endpoint, "edit");
    assert_eq!(
        pairs(&r.params),
        vec![
            ("domain", "example.com"),
            ("record_id", "7"),
            ("subdomain", "www"),
            ("ttl", "3600"),
            ("refresh", ""),
            ("retry", ""),
            ("expire", ""),
            ("neg_cache", ""),
            ("admin_mail", ""),
            ("content", "1.2.3.4"),
            ("priority", ""),
            ("port", ""),
            ("weight", ""),
            ("target", ""),
        ]
    );
}

#[test]
fn delete_request_renders() {
    let r = DeleteRequest { domain: "example.com".to_string(), record_id: 42 }.render();
    assert_eq!(r.method, Method::Post);
    assert_eq!(r.endpoint, "delete");
    assert_eq!(pairs(&r.params), vec![("domain", "example.com"), ("record_id", "42")]);
}

#[test]
fn form_encoding_escapes() {
    let params = vec![
        ("content".to_string(), "v=spf1 a -all".to_string()),
        ("admin_mail".to_string(), "a&b@example.com".to_string()),
        ("x".to_string(), "*-._~é".to_string()),
    ];
    assert_eq!(
        form_encode(&params),
        "content=v%3Dspf1+a+-all&admin_mail=a%26b%40example.com&x=*-._%7E%C3%A9"
    );
    assert_eq!(form_encode(&Vec::new()), "");
}

#[test]
fn get_call_puts_parameters_in_query() {
    let token = PddToken::new("abc123");
    let call = http_call(&token, &ListRequest::new("example.com").render());
    assert_eq!(call.method, Method::Get);
    assert_eq!(call.url, format!("{}/list?domain=example.com", BASE_URL));
    assert_eq!(call.url, "https://pddimp.yandex.ru/api2/admin/dns/list?domain=example.com");
    assert_eq!(call.body, None);
    assert_eq!(
        pairs(&call.headers),
        vec![
            ("PddToken", "abc123"),
            ("Content-Type", "application/x-www-form-urlencoded"),
        ]
    );
}

#[test]
fn post_call_puts_parameters_in_body() {
    let token = PddToken::new("tok");
    let req = DeleteRequest { domain: "example.com".to_string(), record_id: 42 };
    let call = http_call(&token, &req.render());
    assert_eq!(call.method, Method::Post);
    assert_eq!(call.url, "https://pddimp.yandex.ru/api2/admin/dns/delete");
    assert_eq!(call.body.as_deref(), Some("domain=example.com&record_id=42"));
    assert_eq!(PddToken::header_name(), "PddToken");
}

#[test]
fn transport_failure_ends_the_call() {
    let r = on_response(Outcome::TransportFailed("connection refused".to_string()));
    match r {
        Err(Error::Http(m)) => assert_eq!(m, "connection refused"),
        other => panic!("unexpected {:?}", other),
    }
}

#[test]
fn read_failure_is_an_io_error() {
    let r = on_response(Outcome::IoFailed("unexpected end of file".to_string()));
    assert!(matches!(r, Err(Error::Io(ref m)) if m == "unexpected end of file"));
}

#[test]
fn delivered_body_goes_to_decoding() {
    let r = on_response(Outcome::Delivered("{}".to_string()));
    assert!(matches!(r, Ok(ref b) if b == "{}"));
}

fn srv_add_request() -> AddRequest {
    let mut r = AddRequest::new(DnsType::Srv, "example.com").subdomain("_sip._tcp").content("sip.example.com");
    r.priority = 5;
    r.weight = 20;
    r.port = 5060;
    r.target = "sip.example.com".to_string();
    r.admin_mail = "admin@example.com".to_string();
    r.ttl = 600;
    r
}

#[test]
fn add_scenario_success() {
    let call = http_call(&PddToken::new("tok"), &srv_add_request().render());
    assert_eq!(call.url, "https://pddimp.yandex.ru/api2/admin/dns/add");
    assert_eq!(
        call.body.as_deref(),
        Some("domain=example.com&type=SRV&admin_mail=admin%40example.com&content=sip.example.com&priority=5&weight=20&port=5060&target=sip.example.com&subdomain=_sip._tcp&ttl=600")
    );
    let reply = AddReply {
        domain: "example.com".to_string(),
        record: srv_record(),
        success: ResultCode::Success,
    };
    let r = settle(Ok(reply), None);
    match r {
        Ok(a) => {
            assert_eq!(a.domain, "example.com");
            assert_eq!(a.success, ResultCode::Success);
            assert_eq!(a.record.record_id, 42);
        }
        Err(e) => panic!("unexpected {:?}", e),
    }
}

#[test]
fn add_scenario_refused() {
    let refusal = ErrorReply {
        domain: "example.com".to_string(),
        record_id: None,
        success: ResultCode::Failure,
        error: ErrorCode::BadDomain,
    };
    let r = settle::<AddReply>(Err("missing field `record`".to_string()), Some(refusal));
    match r {
        Err(e @ Error::Api(_)) => {
            assert_eq!(e.description(), "invalid domain name");
            if let Error::Api(reply) = e {
                assert_eq!(reply.error, ErrorCode::BadDomain);
                assert_eq!(reply.domain, "example.com");
                assert_eq!(reply.success, ResultCode::Failure);
            }
        }
        other => panic!("unexpected {:?}", other),
    }
}

#[test]
fn undecodable_body_keeps_first_error() {
    let r = settle::<AddReply>(Err("expected value at line 1 column 1".to_string()), None);
    match r {
        Err(e @ Error::Json(_)) => assert_eq!(e.description(), "expected value at line 1 column 1"),
        other => panic!("unexpected {:?}", other),
    }
}

#[test]
fn error_descriptions() {
    assert_eq!(Error::Http("timed out".to_string()).description(), "timed out");
    assert_eq!(Error::Io("broken pipe".to_string()).description(), "broken pipe");
    let reply = ErrorReply {
        domain: "example.com".to_string(),
        record_id: Some(3),
        success: ResultCode::Failure,
        error: ErrorCode::Occupied,
    };
    assert_eq!(reply.description(), "domain name occupied");
}
