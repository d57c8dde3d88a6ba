use yandex_dns::addr::{ipv4_to_string, parse_ipv4};
use yandex_dns::codec::{Content, DnsType, ResultCode};
use yandex_dns::error::ErrorCode;
use yandex_dns::skiperr::SkipErr;
use yandex_dns::text::decimal;

const ALL_TYPES: [(DnsType, &str); 8] = [
    (DnsType::Srv, "SRV"),
    (DnsType::Txt, "TXT"),
    (DnsType::Ns, "NS"),
    (DnsType::Mx, "MX"),
    (DnsType::Soa, "SOA"),
    (DnsType::A, "A"),
    (DnsType::Aaaa, "AAAA"),
    (DnsType::Cname, "CNAME"),
];

const ALL_CODES: [(ErrorCode, &str); 17] = [
    (ErrorCode::Unknown, "unknown"),
    (ErrorCode::NoToken, "no_token"),
    (ErrorCode::NoDomain, "no_domain"),
    (ErrorCode::NoContent, "no_content"),
    (ErrorCode::NoType, "no_type"),
    (ErrorCode::NoIp, "no_ip"),
    (ErrorCode::BadDomain, "bad_domain"),
    (ErrorCode::Prohibited, "prohibited"),
    (ErrorCode::BadToken, "bad_token"),
    (ErrorCode::BadLogin, "bad_login"),
    (ErrorCode::BadPasswd, "bad_password"),
    (ErrorCode::NoAuth, "no_auth"),
    (ErrorCode::NotAllowed, "not_allowed"),
    (ErrorCode::Blocked, "blocked"),
    (ErrorCode::Occupied, "occupied"),
    (ErrorCode::DomainLimitReached, "domain_limit_reached"),
    (ErrorCode::NoReply, "no_reply"),
];

#[test]
fn dns_type_names_round_trip() {
    for (t, name) in ALL_TYPES {
        assert_eq!(t.as_str(), name);
        assert_eq!(DnsType::from_wire(name), Some(t));
    }
}

#[test]
fn dns_type_unknown_name_is_refused() {
    assert_eq!(DnsType::from_wire("srv"), None);
    assert_eq!(DnsType::from_wire("PTR"), None);
    assert_eq!(DnsType::from_wire(""), None);
}

#[test]
fn result_code_ok_and_error() {
    assert_eq!(ResultCode::from_wire("ok"), Some(ResultCode::Success));
    assert_eq!(ResultCode::from_wire("error"), Some(ResultCode::Failure));
}

#[test]
fn result_code_other_strings_are_refused() {
    assert_eq!(ResultCode::from_wire("OK"), None);
    assert_eq!(ResultCode::from_wire("fail"), None);
    assert_eq!(ResultCode::from_wire(""), None);
}

#[test]
fn error_codes_decode_with_descriptions() {
    for (c, name) in ALL_CODES {
        assert_eq!(ErrorCode::from_wire(name), Some(c));
        assert!(!c.description().is_empty());
    }
    assert_eq!(ErrorCode::BadDomain.description(), "invalid domain name");
    assert_eq!(ErrorCode::DomainLimitReached.description(), "max number of domains exceeded");
    assert_eq!(ErrorCode::BadPasswd.description(), "invalid password");
}

#[test]
fn error_code_unknown_string_is_refused() {
    assert_eq!(ErrorCode::from_wire("bad_passwd"), None);
    assert_eq!(ErrorCode::from_wire("no_such_code"), None);
    assert_eq!(ErrorCode::from_wire(""), None);
}

#[test]
fn decimal_numerals() {
    assert_eq!(decimal(0), "0");
    assert_eq!(decimal(7), "7");
    assert_eq!(decimal(10), "10");
    assert_eq!(decimal(21600), "21600");
    assert_eq!(decimal(u64::MAX), "18446744073709551615");
}

#[test]
fn ipv4_parse_accepts_dotted_decimal() {
    assert_eq!(parse_ipv4("1.2.3.4"), Some([1, 2, 3, 4]));
    assert_eq!(parse_ipv4("0.0.0.0"), Some([0, 0, 0, 0]));
    assert_eq!(parse_ipv4("255.255.255.255"), Some([255, 255, 255, 255]));
    assert_eq!(parse_ipv4("10.200.30.199"), Some([10, 200, 30, 199]));
}

#[test]
fn ipv4_parse_refuses_other_text() {
    for s in [
        "", "1.2.3", "1.2.3.4.5", "256.1.1.1", "01.2.3.4", "1.2.3.04", "1..3.4", "1.2.3.4.",
        ".1.2.3", "a.b.c.d", "1.2.3.4 ", " 1.2.3.4", "1000.1.1.1", "1.2.3.-4", "::1",
        "1.2.3.4.5.6.7.8.9",
    ] {
        assert_eq!(parse_ipv4(s), None, "{}", s);
    }
}

#[test]
fn ipv4_render() {
    assert_eq!(ipv4_to_string([1, 2, 3, 4]), "1.2.3.4");
    assert_eq!(ipv4_to_string([192, 168, 0, 10]), "192.168.0.10");
}

#[test]
fn content_ipv4_round_trip() {
    for s in ["1.2.3.4", "0.0.0.0", "255.255.255.255", "93.184.216.34"] {
        let c = Content::decode(s.to_string(), None);
        assert!(matches!(c, Content::Ipv4(_)));
        assert_eq!(c.to_text(), s);
    }
    assert_eq!(Content::decode("1.2.3.4".to_string(), None), Content::Ipv4([1, 2, 3, 4]));
}

#[test]
fn content_ipv6_takes_canonical_text() {
    let c = Content::decode("2001:DB8::1".to_string(), Some("2001:db8::1".to_string()));
    assert_eq!(c, Content::Ipv6("2001:db8::1".to_string()));
    assert_eq!(c.to_text(), "2001:db8::1");
}

#[test]
fn content_other_text_is_kept() {
    for s in ["mail.example.com", "v=spf1 -all", "", "1.2.3.256", "01.2.3.4"] {
        let c = Content::decode(s.to_string(), None);
        assert_eq!(c, Content::Info(s.to_string()));
        assert_eq!(c.to_text(), s);
    }
}

#[test]
fn lenient_value_is_kept() {
    let r: Result<u32, String> = Ok(10);
    assert_eq!(SkipErr::lenient(r).into_option(), Some(10));
}

#[test]
fn lenient_failure_is_absence() {
    let r: Result<u32, String> = Err("invalid type: string \"10\", expected u32".to_string());
    assert_eq!(SkipErr::lenient(r).into_option(), None);
    let r: Result<u32, String> = Err("number too large".to_string());
    assert_eq!(*SkipErr::lenient(r).get(), None);
}

#[test]
fn lenient_wraps_options() {
    assert_eq!(SkipErr::from_option(Some(5u32)).into_option(), Some(5));
    assert_eq!(SkipErr::<u32>::from_option(None).into_option(), None);
}
