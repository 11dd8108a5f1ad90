use vstd::prelude::*;
use crate::text::chars_of;

verus! {

/// An IPv4 address as four octets, most significant first.
#[derive(Clone, Copy, Debug, PartialEq, Eq, Structural)]
pub struct Ipv4Address {
    pub a: u8,
    pub b: u8,
    pub c: u8,
    pub d: u8,
}

/// The character of a decimal digit `0 <= d < 10`.
pub open spec fn digit_char(d: int) -> char {
    seq!['0', '1', '2', '3', '4', '5', '6', '7', '8', '9'][d]
}

pub open spec fn is_digit(c: char) -> bool {
    '0' <= c && c <= '9'
}

pub open spec fn digit_value(c: char) -> int {
    c as int - '0' as int
}

/// Canonical decimal text of an octet: no sign, no leading zero.
pub open spec fn octet_text(n: u8) -> Seq<char> {
    if n < 10 {
        seq![digit_char(n as int)]
    } else if n < 100 {
        seq![digit_char(n as int / 10), digit_char(n as int % 10)]
    } else {
        seq![digit_char(n as int / 100), digit_char((n as int / 10) % 10), digit_char(n as int % 10)]
    }
}

/// Dotted-quad text of an address, e.g. `1.2.3.4`.
pub open spec fn ipv4_text(ip: Ipv4Address) -> Seq<char> {
    octet_text(ip.a) + seq!['.'] + octet_text(ip.b) + seq!['.'] + octet_text(ip.c) + seq!['.']
        + octet_text(ip.d)
}

/// The address whose dotted-quad text is `s`, if there is one.
pub open spec fn ipv4_of(s: Seq<char>) -> Option<Ipv4Address> {
    if exists|ip: Ipv4Address| ipv4_text(ip) == s {
        Some(choose|ip: Ipv4Address| ipv4_text(ip) == s)
    } else {
        None
    }
}

proof fn lemma_digit_char(d: int)
    requires
        0 <= d < 10,
    ensures
        is_digit(digit_char(d)),
        digit_value(digit_char(d)) == d,
        digit_char(d) != '.',
{
}

/// Shape of an octet's text: one to three digits, no leading zero, value `n`.
proof fn lemma_octet_text(n: u8)
    ensures
        1 <= octet_text(n).len() <= 3,
        forall|i: int| 0 <= i < octet_text(n).len() ==> is_digit(#[trigger] octet_text(n)[i]),
        forall|i: int| 0 <= i < octet_text(n).len() ==> #[trigger] octet_text(n)[i] != '.',
        octet_text(n).len() > 1 ==> octet_text(n)[0] != '0',
        n as int == digits_value(octet_text(n)),
{
    lemma_digit_char(n as int % 10);
    lemma_digit_char((n as int / 10) % 10);
    if n >= 10 && n < 100 {
        lemma_digit_char(n as int / 10);
    }
    if n >= 100 {
        lemma_digit_char(n as int / 100);
    }
}

/// Value of a run of at most three digits.
pub open spec fn digits_value(t: Seq<char>) -> int {
    if t.len() == 1 {
        digit_value(t[0])
    } else if t.len() == 2 {
        10 * digit_value(t[0]) + digit_value(t[1])
    } else {
        100 * digit_value(t[0]) + 10 * digit_value(t[1]) + digit_value(t[2])
    }
}

proof fn lemma_octet_text_injective(m: u8, n: u8)
    ensures
        octet_text(m) == octet_text(n) ==> m == n,
{
    lemma_octet_text(m);
    lemma_octet_text(n);
}

/// Positions of the dots and the octet texts inside an address's text.
proof fn lemma_text_layout(ip: Ipv4Address)
    ensures
        ({
            let t = ipv4_text(ip);
            let la = octet_text(ip.a).len() as int;
            let lb = octet_text(ip.b).len() as int;
            let lc = octet_text(ip.c).len() as int;
            let ld = octet_text(ip.d).len() as int;
            let p1 = la;
            let p2 = p1 + 1 + lb;
            let p3 = p2 + 1 + lc;
            &&& t.len() == p3 + 1 + ld
            &&& t[p1] == '.' && t[p2] == '.' && t[p3] == '.'
            &&& forall|i: int| 0 <= i < p1 ==> #[trigger] t[i] != '.'
            &&& forall|i: int| p1 < i < p2 ==> #[trigger] t[i] != '.'
            &&& forall|i: int| p2 < i < p3 ==> #[trigger] t[i] != '.'
            &&& forall|i: int| p3 < i < t.len() ==> #[trigger] t[i] != '.'
            &&& t.subrange(0, p1) == octet_text(ip.a)
            &&& t.subrange(p1 + 1, p2) == octet_text(ip.b)
            &&& t.subrange(p2 + 1, p3) == octet_text(ip.c)
            &&& t.subrange(p3 + 1, t.len() as int) == octet_text(ip.d)
        }),
{
    lemma_octet_text(ip.a);
    lemma_octet_text(ip.b);
    lemma_octet_text(ip.c);
    lemma_octet_text(ip.d);
    let t = ipv4_text(ip);
    let la = octet_text(ip.a).len() as int;
    let lb = octet_text(ip.b).len() as int;
    let lc = octet_text(ip.c).len() as int;
    let p1 = la;
    let p2 = p1 + 1 + lb;
    let p3 = p2 + 1 + lc;
    assert(t.subrange(0, p1) =~= octet_text(ip.a));
    assert(t.subrange(p1 + 1, p2) =~= octet_text(ip.b));
    assert(t.subrange(p2 + 1, p3) =~= octet_text(ip.c));
    assert(t.subrange(p3 + 1, t.len() as int) =~= octet_text(ip.d));
    assert forall|i: int| 0 <= i < p1 implies #[trigger] t[i] != '.' by {
        assert(t[i] == octet_text(ip.a)[i]);
    }
    assert forall|i: int| p1 < i < p2 implies #[trigger] t[i] != '.' by {
        assert(t[i] == octet_text(ip.b)[i - p1 - 1]);
    }
    assert forall|i: int| p2 < i < p3 implies #[trigger] t[i] != '.' by {
        assert(t[i] == octet_text(ip.c)[i - p2 - 1]);
    }
    assert forall|i: int| p3 < i < t.len() implies #[trigger] t[i] != '.' by {
        assert(t[i] == octet_text(ip.d)[i - p3 - 1]);
    }
}

/// Two addresses with the same dotted-quad text are the same address.
pub proof fn lemma_ipv4_text_injective(x: Ipv4Address, y: Ipv4Address)
    ensures
        ipv4_text(x) == ipv4_text(y) ==> x == y,
{
    if ipv4_text(x) == ipv4_text(y) {
        lemma_text_layout(x);
        lemma_text_layout(y);
        let t = ipv4_text(x);
        let xa = octet_text(x.a).len() as int;
        let ya = octet_text(y.a).len() as int;
        if xa < ya {
            assert(t[xa] == '.');
        }
        if ya < xa {
            assert(t[ya] == '.');
        }
        let xb = xa + 1 + octet_text(x.b).len();
        let yb = ya + 1 + octet_text(y.b).len();
        if xb < yb {
            assert(t[xb] == '.');
        }
        if yb < xb {
            assert(t[yb] == '.');
        }
        let xc = xb + 1 + octet_text(x.c).len();
        let yc = yb + 1 + octet_text(y.c).len();
        if xc < yc {
            assert(t[xc] == '.');
        }
        if yc < xc {
            assert(t[yc] == '.');
        }
        lemma_octet_text_injective(x.a, y.a);
        lemma_octet_text_injective(x.b, y.b);
        lemma_octet_text_injective(x.c, y.c);
        lemma_octet_text_injective(x.d, y.d);
    }
}

/// Reading an address's own text gives the address back.
pub proof fn lemma_ipv4_of_text(ip: Ipv4Address)
    ensures
        ipv4_of(ipv4_text(ip)) == Some(ip),
{
    let t = ipv4_text(ip);
    assert(exists|x: Ipv4Address| ipv4_text(x) == t);
    let y = choose|x: Ipv4Address| ipv4_text(x) == t;
    lemma_ipv4_text_injective(y, ip);
}


/// Index of the first `.` in `t` at or after `start`, or `t.len()` if none.
fn find_dot(t: &Vec<char>, start: usize) -> (r: usize)
    requires
        start <= t@.len(),
    ensures
        start <= r <= t@.len(),
        r < t@.len() ==> t@[r as int] == '.',
        forall|j: int| start <= j < r ==> #[trigger] t@[j] != '.',
{
    let mut i: usize = start;
    while i < t.len() && t[i] != '.'
        invariant
            start <= i <= t@.len(),
            forall|j: int| start <= j < i ==> #[trigger] t@[j] != '.',
        decreases t@.len() - i,
    {
        i = i + 1;
    }
    i
}

fn digit_of(c: char) -> (r: u8)
    requires
        is_digit(c),
    ensures
        r as int == digit_value(c),
{
    (c as u32 - '0' as u32) as u8
}

/// Reads `t[from..to]` as the canonical decimal text of an octet.
fn parse_octet(t: &Vec<char>, from: usize, to: usize) -> (r: Option<u8>)
    requires
        from <= to <= t@.len(),
    ensures
        match r {
            Some(n) => t@.subrange(from as int, to as int) == octet_text(n),
            None => forall|n: u8| t@.subrange(from as int, to as int) != octet_text(n),
        },
{
    let ghost s = t@.subrange(from as int, to as int);
    let len = to - from;
    if len == 0 || len > 3 {
        proof {
            assert forall|n: u8| s != octet_text(n) by {
                lemma_octet_text(n);
            }
        }
        return None;
    }
    let mut i: usize = from;
    while i < to
        invariant
            from <= i <= to <= t@.len(),
            s == t@.subrange(from as int, to as int),
            forall|k: int| from <= k < i ==> is_digit(#[trigger] t@[k]),
        decreases to - i,
    {
        if !('0' <= t[i] && t[i] <= '9') {
            proof {
                let k = i - from;
                assert(s[k] == t@[i as int]);
                assert(!is_digit(s[k]));
                assert forall|n: u8| s != octet_text(n) by {
                    lemma_octet_text(n);
                    if s == octet_text(n) {
                        assert(is_digit(octet_text(n)[k]));
                    }
                }
            }
            return None;
        }
        i = i + 1;
    }
    assert forall|k: int| 0 <= k < s.len() implies is_digit(#[trigger] s[k]) by {
        assert(s[k] == t@[from + k]);
    }
    if len > 1 && t[from] == '0' {
        proof {
            assert forall|n: u8| s != octet_text(n) by {
                lemma_octet_text(n);
            }
        }
        return None;
    }
    let mut v: u32 = 0;
    let mut j: usize = from;
    while j < to
        invariant
            from <= j <= to <= t@.len(),
            to - from <= 3,
            forall|k: int| 0 <= k < s.len() ==> is_digit(#[trigger] s[k]),
            s == t@.subrange(from as int, to as int),
            v as int == prefix_value(s, j - from),
            v < 1000,
        decreases to - j,
    {
        assert(s[j - from] == t@[j as int]);
        let dv = digit_of(t[j]);
        proof {
            lemma_prefix_value_step(s, j - from);
        }
        v = v * 10 + dv as u32;
        j = j + 1;
    }
    proof {
        lemma_prefix_value_full(s);
    }
    if v > 255 {
        proof {
            assert forall|n: u8| s != octet_text(n) by {
                lemma_octet_text(n);
            }
        }
        return None;
    }
    let n = v as u8;
    proof {
        lemma_octet_text(n);
        lemma_digits_determine(s, octet_text(n));
    }
    Some(n)
}

/// Value of the first `k` digits of `s`.
spec fn prefix_value(s: Seq<char>, k: int) -> int
    decreases k,
{
    if k <= 0 {
        0
    } else {
        10 * prefix_value(s, k - 1) + digit_value(s[k - 1])
    }
}

proof fn lemma_prefix_value_step(s: Seq<char>, k: int)
    requires
        0 <= k < s.len() <= 3,
        forall|i: int| 0 <= i < s.len() ==> is_digit(#[trigger] s[i]),
    ensures
        prefix_value(s, k + 1) == 10 * prefix_value(s, k) + digit_value(s[k]),
        0 <= prefix_value(s, k + 1) < 1000,
{
    assert(0 <= digit_value(s[0]) < 10);
    if s.len() > 1 {
        assert(0 <= digit_value(s[1]) < 10);
    }
    if s.len() > 2 {
        assert(0 <= digit_value(s[2]) < 10);
    }
    reveal_with_fuel(prefix_value, 4);
    assert(prefix_value(s, 1) == digit_value(s[0]));
    if k >= 1 {
        assert(prefix_value(s, 2) == 10 * digit_value(s[0]) + digit_value(s[1]));
    }
}

proof fn lemma_prefix_value_full(s: Seq<char>)
    requires
        1 <= s.len() <= 3,
    ensures
        prefix_value(s, s.len() as int) == digits_value(s),
{
    reveal_with_fuel(prefix_value, 4);
    assert(prefix_value(s, 1) == digit_value(s[0]));
    if s.len() >= 2 {
        assert(prefix_value(s, 2) == 10 * digit_value(s[0]) + digit_value(s[1]));
    }
    if s.len() >= 3 {
        assert(prefix_value(s, 3) == 100 * digit_value(s[0]) + 10 * digit_value(s[1]) + digit_value(s[2]));
    }
}

/// Two canonical digit runs with the same value are the same text.
proof fn lemma_digits_determine(s: Seq<char>, t: Seq<char>)
    requires
        1 <= s.len() <= 3,
        1 <= t.len() <= 3,
        forall|i: int| 0 <= i < s.len() ==> is_digit(#[trigger] s[i]),
        forall|i: int| 0 <= i < t.len() ==> is_digit(#[trigger] t[i]),
        s.len() > 1 ==> s[0] != '0',
        t.len() > 1 ==> t[0] != '0',
        digits_value(s) == digits_value(t),
    ensures
        s == t,
{
    assert(is_digit(s[0]) && is_digit(t[0]));
    if s.len() > 1 {
        assert(is_digit(s[1]));
    }
    if s.len() > 2 {
        assert(is_digit(s[2]));
    }
    if t.len() > 1 {
        assert(is_digit(t[1]));
    }
    if t.len() > 2 {
        assert(is_digit(t[2]));
    }
    assert(s.len() == t.len());
    assert(s =~= t);
}

/// Reads `t` as the dotted-quad text of an address.
pub fn parse_ipv4_chars(t: &Vec<char>) -> (r: Option<Ipv4Address>)
    ensures
        r == ipv4_of(t@),
{
    let r = parse_quad(t);
    proof {
        match r {
            Some(ip) => {
                lemma_ipv4_of_text(ip);
            },
            None => {},
        }
    }
    r
}

fn parse_quad(t: &Vec<char>) -> (r: Option<Ipv4Address>)
    ensures
        match r {
            Some(ip) => ipv4_text(ip) == t@,
            None => forall|ip: Ipv4Address| ipv4_text(ip) != t@,
        },
{
    let len = t.len();
    let p1 = find_dot(t, 0);
    if p1 == len {
        proof { lemma_no_text(t@); }
        return None;
    }
    let p2 = find_dot(t, p1 + 1);
    if p2 == len {
        proof { lemma_no_text(t@); }
        return None;
    }
    let p3 = find_dot(t, p2 + 1);
    if p3 == len {
        proof { lemma_no_text(t@); }
        return None;
    }
    let p4 = find_dot(t, p3 + 1);
    if p4 != len {
        proof { lemma_no_text(t@); }
        return None;
    }
    let oa = parse_octet(t, 0, p1);
    let ob = parse_octet(t, p1 + 1, p2);
    let oc = parse_octet(t, p2 + 1, p3);
    let od = parse_octet(t, p3 + 1, len);
    proof {
        assert forall|ip: Ipv4Address| ipv4_text(ip) == t@ implies {
            &&& t@.subrange(0, p1 as int) == octet_text(ip.a)
            &&& t@.subrange(p1 + 1, p2 as int) == octet_text(ip.b)
            &&& t@.subrange(p2 + 1, p3 as int) == octet_text(ip.c)
            &&& t@.subrange(p3 + 1, len as int) == octet_text(ip.d)
        } by {
            lemma_text_layout(ip);
            lemma_dots_at(t@, ip, p1 as int, p2 as int, p3 as int);
        }
    }
    match (oa, ob, oc, od) {
        (Some(a), Some(b), Some(c), Some(d)) => {
            let ip = Ipv4Address { a, b, c, d };
            assert(ipv4_text(ip) =~= t@) by {
                assert(t@ =~= t@.subrange(0, p1 as int) + seq!['.'] + t@.subrange(p1 + 1, p2 as int)
                    + seq!['.'] + t@.subrange(p2 + 1, p3 as int) + seq!['.'] + t@.subrange(
                    p3 + 1,
                    len as int,
                ));
            }
            Some(ip)
        },
        _ => None,
    }
}

/// Where a text has its first three dots and no fourth, an address whose
/// text it is has its octets between them.
proof fn lemma_dots_at(t: Seq<char>, ip: Ipv4Address, p1: int, p2: int, p3: int)
    requires
        ipv4_text(ip) == t,
        0 <= p1 < p2 < p3 < t.len(),
        t[p1] == '.' && t[p2] == '.' && t[p3] == '.',
        forall|j: int| 0 <= j < p1 ==> #[trigger] t[j] != '.',
        forall|j: int| p1 + 1 <= j < p2 ==> #[trigger] t[j] != '.',
        forall|j: int| p2 + 1 <= j < p3 ==> #[trigger] t[j] != '.',
    ensures
        p1 == octet_text(ip.a).len(),
        p2 == p1 + 1 + octet_text(ip.b).len(),
        p3 == p2 + 1 + octet_text(ip.c).len(),
{
    lemma_text_layout(ip);
    let q1 = octet_text(ip.a).len() as int;
    let q2 = q1 + 1 + octet_text(ip.b).len();
    let q3 = q2 + 1 + octet_text(ip.c).len();
    if p1 < q1 {
        assert(t[p1] != '.');
    }
    if q1 < p1 {
        assert(t[q1] != '.');
    }
    if p2 < q2 {
        assert(t[p2] != '.');
    }
    if q2 < p2 {
        assert(t[q2] != '.');
    }
    if p3 < q3 {
        assert(t[p3] != '.');
    }
    if q3 < p3 {
        assert(t[q3] != '.');
    }
}

/// Every address's text has exactly three dots; a text without that shape is
/// the text of no address.
proof fn lemma_no_text(t: Seq<char>)
    requires
        !(exists|p1: int, p2: int, p3: int|
            {
                &&& 0 <= p1 < p2 < p3 < t.len()
                &&& t[p1] == '.' && t[p2] == '.' && t[p3] == '.'
                &&& forall|j: int| 0 <= j < t.len() && j != p1 && j != p2 && j != p3 ==> #[trigger] t[j] != '.'
            }),
    ensures
        forall|ip: Ipv4Address| ipv4_text(ip) != t,
{
    assert forall|ip: Ipv4Address| ipv4_text(ip) != t by {
        if ipv4_text(ip) == t {
            lemma_text_layout(ip);
            let q1 = octet_text(ip.a).len() as int;
            let q2 = q1 + 1 + octet_text(ip.b).len();
            let q3 = q2 + 1 + octet_text(ip.c).len();
            assert forall|j: int| 0 <= j < t.len() && j != q1 && j != q2 && j != q3 implies #[trigger] t[j] != '.' by {
                if j < q1 {
                } else if j < q2 {
                } else if j < q3 {
                } else {
                }
            }
        }
    }
}

/// Reads `s` as the dotted-quad text of an address, e.g. `"10.0.0.1"`.
pub fn parse_ipv4(s: &str) -> (r: Option<Ipv4Address>)
    ensures
        r == ipv4_of(s@),
{
    let t = chars_of(s);
    parse_ipv4_chars(&t)
}

impl Ipv4Address {
    pub fn new(a: u8, b: u8, c: u8, d: u8) -> (r: Ipv4Address)
        ensures
            r == (Ipv4Address { a, b, c, d }),
    {
        Ipv4Address { a, b, c, d }
    }

    pub fn octets(&self) -> (r: [u8; 4])
        ensures
            r@ == seq![self.a, self.b, self.c, self.d],
    {
        [self.a, self.b, self.c, self.d]
    }
}

} // verus!
