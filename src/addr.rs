//! IPv4 addresses in dotted-decimal text.

use vstd::prelude::*;

use crate::text::{dec_text, decimal, digit_char};

verus! {

/// Whether a character is a decimal digit.
pub open spec fn is_digit(c: char) -> bool {
    c == '0' || c == '1' || c == '2' || c == '3' || c == '4' || c == '5' || c == '6' || c == '7' || c == '8' || c == '9'
}

/// The dotted-decimal text of an IPv4 address: four decimal numerals without
/// leading zeros, joined by dots.
pub open spec fn ipv4_text(o: [u8; 4]) -> Seq<char> {
    dec_text(o[0] as nat) + seq!['.'] + dec_text(o[1] as nat) + seq!['.'] + dec_text(o[2] as nat)
        + seq!['.'] + dec_text(o[3] as nat)
}

/// Whether `s` is the dotted-decimal text of some IPv4 address.
pub open spec fn is_ipv4_text(s: Seq<char>) -> bool {
    exists|o: [u8; 4]| s == ipv4_text(o)
}

/// Whether the numeral of `v` stands in `s` at `i`, not followed by a digit.
pub open spec fn octet_at(s: Seq<char>, i: int, v: u8) -> bool {
    let t = dec_text(v as nat);
    &&& 0 <= i
    &&& i + t.len() <= s.len()
    &&& s.subrange(i, i + t.len()) == t
    &&& (i + t.len() == s.len() || !is_digit(s[i + t.len()]))
}

/// The numeral of a byte, digit by digit.
proof fn lemma_dec_byte(v: nat)
    requires
        v < 256,
    ensures
        v < 10 ==> dec_text(v) == seq![digit_char(v as int)],
        10 <= v < 100 ==> dec_text(v) == seq![digit_char(v as int / 10), digit_char(v as int % 10)],
        100 <= v ==> dec_text(v) == seq![
            digit_char(v as int / 100),
            digit_char((v as int / 10) % 10),
            digit_char(v as int % 10),
        ],
        1 <= dec_text(v).len() <= 3,
        forall|k: int| 0 <= k < dec_text(v).len() ==> is_digit(#[trigger] dec_text(v)[k]),
        dec_text(v).len() > 1 ==> dec_text(v)[0] != '0',
{
    reveal_with_fuel(dec_text, 3);
    if v >= 10 {
        assert(dec_text(v) == dec_text(v / 10).push(digit_char((v % 10) as int)));
        if v >= 100 {
            assert((v / 10) / 10 == v / 100);
            assert(dec_text(v / 10) == dec_text(v / 100).push(digit_char(((v / 10) % 10) as int)));
            assert(dec_text(v / 100) == seq![digit_char((v / 100) as int)]);
        } else {
            assert(dec_text(v / 10) == seq![digit_char((v / 10) as int)]);
        }
    }
}

/// Distinct digits have distinct characters.
proof fn lemma_digit_char_injective(a: int, b: int)
    requires
        0 <= a < 10,
        0 <= b < 10,
        digit_char(a) == digit_char(b),
    ensures
        a == b,
{
}

/// At most one byte has its numeral at a given place.
proof fn lemma_octet_at_unique(s: Seq<char>, i: int, v: u8, w: u8)
    requires
        octet_at(s, i, v),
        octet_at(s, i, w),
    ensures
        v == w,
{
    lemma_dec_byte(v as nat);
    lemma_dec_byte(w as nat);
    let tv = dec_text(v as nat);
    let tw = dec_text(w as nat);
    if tv.len() < tw.len() {
        assert(s[i + tv.len()] == s.subrange(i, i + tw.len())[tv.len() as int]);
        assert(is_digit(tw[tv.len() as int]));
    } else if tw.len() < tv.len() {
        assert(s[i + tw.len()] == s.subrange(i, i + tv.len())[tw.len() as int]);
        assert(is_digit(tv[tw.len() as int]));
    } else {
        assert(tv == tw);
        let a = v as int;
        let b = w as int;
        if tv.len() == 1 {
            assert(tv[0] == tw[0]);
            lemma_digit_char_injective(a, b);
        } else if tv.len() == 2 {
            assert(tv[0] == tw[0] && tv[1] == tw[1]);
            lemma_digit_char_injective(a / 10, b / 10);
            lemma_digit_char_injective(a % 10, b % 10);
        } else {
            assert(tv[0] == tw[0] && tv[1] == tw[1] && tv[2] == tw[2]);
            lemma_digit_char_injective(a / 100, b / 100);
            lemma_digit_char_injective((a / 10) % 10, (b / 10) % 10);
            lemma_digit_char_injective(a % 10, b % 10);
        }
    }
}

/// Renders an IPv4 address in dotted-decimal form.
pub fn ipv4_to_string(o: [u8; 4]) -> (r: String)
    ensures
        r@ == ipv4_text(o),
{
    let mut s = decimal(o[0] as u64);
    s.append(".");
    s.append(decimal(o[1] as u64).as_str());
    s.append(".");
    s.append(decimal(o[2] as u64).as_str());
    s.append(".");
    s.append(decimal(o[3] as u64).as_str());
    proof {
        reveal_strlit(".");
    }
    s
}

fn digit_at(s: &str, n: usize, j: usize) -> (r: Option<u8>)
    requires
        n == s@.len(),
    ensures
        r matches Some(d) ==> j < n && d < 10 && s@[j as int] == digit_char(d as int),
        r is None ==> !(j < n && is_digit(s@[j as int])),
{
    if j >= n {
        return None;
    }
    match s.get_char(j) {
            '0' => Some(0),
            '1' => Some(1),
            '2' => Some(2),
            '3' => Some(3),
            '4' => Some(4),
            '5' => Some(5),
            '6' => Some(6),
            '7' => Some(7),
            '8' => Some(8),
            '9' => Some(9),
            _ => None,
        }
}

/// The numeral of `v` at `i`, followed by a dot, or by the end where `last`.
pub open spec fn field_at(s: Seq<char>, i: int, v: u8, last: bool) -> bool {
    let e = i + dec_text(v as nat).len();
    &&& octet_at(s, i, v)
    &&& if last {
        e == s.len()
    } else {
        e < s.len() && s[e] == '.'
    }
}

fn read_octet(s: &str, n: usize, i: usize) -> (r: Option<(u8, usize)>)
    requires
        n == s@.len(),
        i <= n,
    ensures
        r matches Some((v, j)) ==> octet_at(s@, i as int, v) && j == i + dec_text(v as nat).len(),
        r is None ==> forall|v: u8| !octet_at(s@, i as int, v),
{
    let d0 = match digit_at(s, n, i) {
        Some(d) => d,
        None => {
            proof {
                assert forall|v: u8| !octet_at(s@, i as int, v) by {
                    lemma_dec_byte(v as nat);
                    if octet_at(s@, i as int, v) {
                        assert(s@[i as int] == s@.subrange(
                            i as int,
                            i + dec_text(v as nat).len(),
                        )[0]);
                    }
                }
            }
            return None;
        },
    };
    match digit_at(s, n, i + 1) {
        None => {
            proof {
                lemma_dec_byte(d0 as nat);
                assert(s@.subrange(i as int, i + 1) =~= dec_text(d0 as nat));
            }
            Some((d0, i + 1))
        },
        Some(d1) => {
            if d0 == 0 {
                proof {
                    assert forall|v: u8| !octet_at(s@, i as int, v) by {
                        lemma_dec_byte(v as nat);
                        if octet_at(s@, i as int, v) {
                            let t = dec_text(v as nat);
                            assert(s@.subrange(i as int, i + t.len())[0] == s@[i as int]);
                            if t.len() == 1 {
                                assert(is_digit(s@[i + 1]));
                            }
                        }
                    }
                }
                return None;
            }
            match digit_at(s, n, i + 2) {
                None => {
                    let v: u8 = d0 * 10 + d1;
                    proof {
                        lemma_dec_byte(v as nat);
                        assert(v as int / 10 == d0 && v as int % 10 == d1);
                        assert(s@.subrange(i as int, i + 2) =~= dec_text(v as nat));
                    }
                    Some((v, i + 2))
                },
                Some(d2) => {
                    let more = digit_at(s, n, i + 3);
                    if more.is_some() {
                        proof {
                            assert forall|v: u8| !octet_at(s@, i as int, v) by {
                                lemma_dec_byte(v as nat);
                                let t = dec_text(v as nat);
                                if octet_at(s@, i as int, v) {
                                    assert(is_digit(s@[i + t.len()]));
                                }
                            }
                        }
                        return None;
                    }
                    let w: u16 = d0 as u16 * 100 + d1 as u16 * 10 + d2 as u16;
                    if w > 255 {
                        proof {
                            assert forall|v: u8| !octet_at(s@, i as int, v) by {
                                lemma_dec_byte(v as nat);
                                let t = dec_text(v as nat);
                                if octet_at(s@, i as int, v) {
                                    if t.len() < 3 {
                                        assert(is_digit(s@[i + t.len()]));
                                    } else {
                                        let x = v as int;
                                        assert(t[0] == s@[i as int]);
                                        assert(t[1] == s@[i + 1]);
                                        assert(t[2] == s@[i + 2]);
                                        lemma_digit_char_injective(x / 100, d0 as int);
                                        lemma_digit_char_injective((x / 10) % 10, d1 as int);
                                        lemma_digit_char_injective(x % 10, d2 as int);
                                    }
                                }
                            }
                        }
                        return None;
                    }
                    let v = w as u8;
                    proof {
                        lemma_dec_byte(v as nat);
                        assert(v as int / 100 == d0 && (v as int / 10) % 10 == d1 && v as int % 10
                            == d2);
                        assert(s@.subrange(i as int, i + 3) =~= dec_text(v as nat));
                    }
                    Some((v, i + 3))
                },
            }
        },
    }
}

fn read_field(s: &str, n: usize, i: usize, last: bool) -> (r: Option<(u8, usize)>)
    requires
        n == s@.len(),
        n < usize::MAX,
        i <= n,
    ensures
        r matches Some((v, k)) ==> field_at(s@, i as int, v, last) && k == i + dec_text(
            v as nat,
        ).len() + 1 && k <= n + 1,
        r is None ==> forall|v: u8| !field_at(s@, i as int, v, last),
{
    match read_octet(s, n, i) {
        None => None,
        Some((v, j)) => {
            let ok = if last {
                j == n
            } else {
                j < n && s.get_char(j) == '.'
            };
            if ok {
                Some((v, j + 1))
            } else {
                proof {
                    assert forall|w: u8| !field_at(s@, i as int, w, last) by {
                        if field_at(s@, i as int, w, last) {
                            lemma_octet_at_unique(s@, i as int, v, w);
                        }
                    }
                }
                None
            }
        },
    }
}

/// Where the numeral of field `k` of an address starts in its text.
pub open spec fn field_start(o: [u8; 4], k: int) -> int
    decreases k,
{
    if k <= 0 {
        0
    } else {
        field_start(o, k - 1) + dec_text(o[k - 1] as nat).len() + 1
    }
}

/// The text of an address has its four numerals where `field_start` says,
/// separated by dots.
proof fn lemma_ipv4_layout(o: [u8; 4])
    ensures
        field_at(ipv4_text(o), field_start(o, 0), o[0], false),
        field_at(ipv4_text(o), field_start(o, 1), o[1], false),
        field_at(ipv4_text(o), field_start(o, 2), o[2], false),
        field_at(ipv4_text(o), field_start(o, 3), o[3], true),
{
    reveal_with_fuel(field_start, 4);
    let t = ipv4_text(o);
    let a = dec_text(o[0] as nat);
    let b = dec_text(o[1] as nat);
    let c = dec_text(o[2] as nat);
    let d = dec_text(o[3] as nat);
    let at1: int = a.len() as int + 1;
    let at2: int = at1 + b.len() + 1;
    let at3: int = at2 + c.len() + 1;
    assert(t.subrange(0, a.len() as int) =~= a);
    assert(t.subrange(at1, at1 + b.len()) =~= b);
    assert(t.subrange(at2, at2 + c.len()) =~= c);
    assert(t.subrange(at3, at3 + d.len()) =~= d);
    assert(t[a.len() as int] == '.');
    assert(t[at1 + b.len()] == '.');
    assert(t[at2 + c.len()] == '.');
}

/// Distinct addresses have distinct texts.
pub proof fn lemma_ipv4_text_injective(o: [u8; 4], p: [u8; 4])
    requires
        ipv4_text(o) == ipv4_text(p),
    ensures
        o == p,
{
    reveal_with_fuel(field_start, 4);
    lemma_ipv4_layout(o);
    lemma_ipv4_layout(p);
    let t = ipv4_text(o);
    lemma_octet_at_unique(t, 0, o[0], p[0]);
    lemma_octet_at_unique(t, field_start(o, 1), o[1], p[1]);
    lemma_octet_at_unique(t, field_start(o, 2), o[2], p[2]);
    lemma_octet_at_unique(t, field_start(o, 3), o[3], p[3]);
    assert(o@ =~= p@);
}

/// Reads an IPv4 address in dotted-decimal form: exactly four decimal
/// numerals from 0 to 255, without leading zeros, joined by dots.
pub fn parse_ipv4(s: &str) -> (r: Option<[u8; 4]>)
    ensures
        forall|o: [u8; 4]| (r == Some(o)) <==> (s@ == ipv4_text(o)),
{
    let n = s.unicode_len();
    let ghost t = s@;
    if n > 15 {
        proof {
            assert forall|o: [u8; 4]| t != ipv4_text(o) by {
                lemma_dec_byte(o[0] as nat);
                lemma_dec_byte(o[1] as nat);
                lemma_dec_byte(o[2] as nat);
                lemma_dec_byte(o[3] as nat);
            }
        }
        return None;
    }
    let r0 = read_field(s, n, 0, false);
    let (a, k1) = match r0 {
        Some(p) => p,
        None => {
            proof {
                assert forall|o: [u8; 4]| t != ipv4_text(o) by {
                    if t == ipv4_text(o) {
                        lemma_ipv4_layout(o);
                    }
                }
            }
            return None;
        },
    };
    let r1 = if k1 <= n {
        read_field(s, n, k1, false)
    } else {
        None
    };
    let (b, k2) = match r1 {
        Some(p) => p,
        None => {
            proof {
                assert forall|o: [u8; 4]| t != ipv4_text(o) by {
                    if t == ipv4_text(o) {
                        lemma_ipv4_layout(o);
                        reveal_with_fuel(field_start, 2);
                        lemma_octet_at_unique(t, 0, a, o[0]);
                    }
                }
            }
            return None;
        },
    };
    let r2 = if k2 <= n {
        read_field(s, n, k2, false)
    } else {
        None
    };
    let (c, k3) = match r2 {
        Some(p) => p,
        None => {
            proof {
                assert forall|o: [u8; 4]| t != ipv4_text(o) by {
                    if t == ipv4_text(o) {
                        lemma_ipv4_layout(o);
                        reveal_with_fuel(field_start, 3);
                        lemma_octet_at_unique(t, 0, a, o[0]);
                        lemma_octet_at_unique(t, k1 as int, b, o[1]);
                    }
                }
            }
            return None;
        },
    };
    let r3 = if k3 <= n {
        read_field(s, n, k3, true)
    } else {
        None
    };
    let (d, k4) = match r3 {
        Some(p) => p,
        None => {
            proof {
                assert forall|o: [u8; 4]| t != ipv4_text(o) by {
                    if t == ipv4_text(o) {
                        lemma_ipv4_layout(o);
                        reveal_with_fuel(field_start, 4);
                        lemma_octet_at_unique(t, 0, a, o[0]);
                        lemma_octet_at_unique(t, k1 as int, b, o[1]);
                        lemma_octet_at_unique(t, k2 as int, c, o[2]);
                    }
                }
            }
            return None;
        },
    };
    let o = [a, b, c, d];
    proof {
        reveal_strlit(".");
        assert(t =~= t.subrange(0, k1 - 1) + seq!['.'] + t.subrange(k1 as int, k2 - 1) + seq!['.']
            + t.subrange(k2 as int, k3 - 1) + seq!['.'] + t.subrange(k3 as int, k4 - 1));
        assert(t == ipv4_text(o));
        assert forall|p: [u8; 4]| (Some(o) == Some(p)) <==> (t == ipv4_text(p)) by {
            if t == ipv4_text(p) {
                lemma_ipv4_text_injective(o, p);
            }
        }
    }
    Some(o)
}

} // verus!
