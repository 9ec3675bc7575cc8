//! PROXY-protocol support: the connection four-tuple a proxy header
//! carries, and parsers for the version 1 (text) and version 2
//! (binary) headers, IPv4 only.

use vstd::prelude::*;

verus! {

/// An IPv4 address as four octets.
#[derive(Clone, Copy, PartialEq, Eq, Structural, Debug)]
pub struct Ipv4Addr {
    pub a: u8,
    pub b: u8,
    pub c: u8,
    pub d: u8,
}

/// The addressing a PROXY header preserves: where the client connected
/// from, and which address and port it originally connected to.
#[derive(Clone, Copy, PartialEq, Eq, Structural, Debug)]
pub struct ConnectionTuple {
    pub from_ip: Ipv4Addr,
    pub from_port: u16,
    pub to_ip: Ipv4Addr,
    pub to_port: u16,
}

/// Whether `b` is an ASCII decimal digit.
pub open spec fn is_digit_byte(b: u8) -> bool {
    '0' as u8 <= b <= '9' as u8
}

/// The decimal rendering of `n` as ASCII bytes, most significant digit
/// first, with no leading zeroes.
pub open spec fn spec_dec_bytes(n: nat) -> Seq<u8>
    decreases n,
{
    if n < 10 {
        seq![('0' as u8 + n) as u8]
    } else {
        spec_dec_bytes(n / 10).push(('0' as u8 + n % 10) as u8)
    }
}

/// The number an ASCII digit run denotes.
pub open spec fn seq_num_val(d: Seq<u8>) -> nat
    decreases d.len(),
{
    if d.len() == 0 {
        0
    } else {
        seq_num_val(d.drop_last()) * 10 + (d.last() - ('0' as u8)) as nat
    }
}

/// The end of the digit run starting at `i`: the first index at or
/// after `i` holding no digit.
pub open spec fn digit_run_end(s: Seq<u8>, i: int) -> int
    recommends
        0 <= i <= s.len(),
    decreases s.len() - i when 0 <= i <= s.len()
{
    if i < s.len() && is_digit_byte(s[i]) {
        digit_run_end(s, i + 1)
    } else {
        i
    }
}

/// A parsed decimal number: at most five digits, no leading zero, ended
/// by the first non-digit. Yields the value and the index after it.
pub open spec fn spec_parse_num(s: Seq<u8>, i: int) -> Option<(nat, int)> {
    let j = digit_run_end(s, i);
    if j == i || j - i > 5 {
        None
    } else if s[i] == '0' as u8 && j - i > 1 {
        None
    } else {
        Some((seq_num_val(s.subrange(i, j)), j))
    }
}

/// A parsed IPv4 octet: a decimal number up to 255.
pub open spec fn spec_parse_octet(s: Seq<u8>, i: int) -> Option<(u8, int)> {
    match spec_parse_num(s, i) {
        Some((n, j)) => if n <= 255 {
            Some((n as u8, j))
        } else {
            None
        },
        None => None,
    }
}

/// A parsed port: a decimal number up to 65535.
pub open spec fn spec_parse_port(s: Seq<u8>, i: int) -> Option<(u16, int)> {
    match spec_parse_num(s, i) {
        Some((n, j)) => if n <= 65535 {
            Some((n as u16, j))
        } else {
            None
        },
        None => None,
    }
}

/// Whether `pat` occurs in `s` at position `i`.
pub open spec fn spec_expect(s: Seq<u8>, i: int, pat: Seq<u8>) -> bool {
    0 <= i && i + pat.len() <= s.len() && s.subrange(i, i + pat.len()) == pat
}

/// The bytes `"PROXY TCP4 "` that open a version 1 header.
pub open spec fn v1_prefix() -> Seq<u8> {
    seq![
        'P' as u8,
        'R' as u8,
        'O' as u8,
        'X' as u8,
        'Y' as u8,
        ' ' as u8,
        'T' as u8,
        'C' as u8,
        'P' as u8,
        '4' as u8,
        ' ' as u8,
    ]
}

/// The dotted-quad rendering of `ip`.
pub open spec fn spec_ipv4_bytes(ip: Ipv4Addr) -> Seq<u8> {
    spec_dec_bytes(ip.a as nat) + seq!['.' as u8] + spec_dec_bytes(ip.b as nat) + seq!['.' as u8]
        + spec_dec_bytes(ip.c as nat) + seq!['.' as u8] + spec_dec_bytes(ip.d as nat)
}

/// The complete version 1 header line for `t`, CRLF included.
pub open spec fn spec_v1_bytes(t: ConnectionTuple) -> Seq<u8> {
    v1_prefix() + spec_ipv4_bytes(t.from_ip) + seq![' ' as u8] + spec_ipv4_bytes(t.to_ip) + seq![
        ' ' as u8,
    ] + spec_dec_bytes(t.from_port as nat) + seq![' ' as u8] + spec_dec_bytes(t.to_port as nat)
        + seq!['\r' as u8, '\n' as u8]
}

/// A parsed dotted quad: four octets separated by dots.
pub open spec fn spec_parse_ipv4(s: Seq<u8>, i: int) -> Option<(Ipv4Addr, int)> {
    match spec_parse_octet(s, i) {
        Some((a, i1)) => if spec_expect(s, i1, seq!['.' as u8]) {
            match spec_parse_octet(s, i1 + 1) {
                Some((b, i2)) => if spec_expect(s, i2, seq!['.' as u8]) {
                    match spec_parse_octet(s, i2 + 1) {
                        Some((c, i3)) => if spec_expect(s, i3, seq!['.' as u8]) {
                            match spec_parse_octet(s, i3 + 1) {
                                Some((d, i4)) => Some((Ipv4Addr { a, b, c, d }, i4)),
                                None => None,
                            }
                        } else {
                            None
                        },
                        None => None,
                    }
                } else {
                    None
                },
                None => None,
            }
        } else {
            None
        },
        None => None,
    }
}

/// The version 1 header grammar: the whole of `s` must be one
/// well-formed `PROXY TCP4` line, CRLF included, spelled canonically
/// (single spaces, no leading zeroes).
pub open spec fn spec_parse_v1(s: Seq<u8>) -> Option<ConnectionTuple> {
    if !spec_expect(s, 0, v1_prefix()) {
        None
    } else {
        match spec_parse_ipv4(s, 11) {
            Some((from_ip, i1)) => if spec_expect(s, i1, seq![' ' as u8]) {
                match spec_parse_ipv4(s, i1 + 1) {
                    Some((to_ip, i2)) => if spec_expect(s, i2, seq![' ' as u8]) {
                        match spec_parse_port(s, i2 + 1) {
                            Some((from_port, i3)) => if spec_expect(s, i3, seq![' ' as u8]) {
                                match spec_parse_port(s, i3 + 1) {
                                    Some((to_port, i4)) => if spec_expect(
                                        s,
                                        i4,
                                        seq!['\r' as u8, '\n' as u8],
                                    ) && i4 + 2 == s.len() {
                                        Some(ConnectionTuple { from_ip, from_port, to_ip, to_port })
                                    } else {
                                        None
                                    },
                                    None => None,
                                }
                            } else {
                                None
                            },
                            None => None,
                        }
                    } else {
                        None
                    },
                    None => None,
                }
            } else {
                None
            },
            None => None,
        }
    }
}

/// The digit run is what it says: it stays in bounds, everything before
/// its end is a digit, and it ends at the first non-digit.
pub proof fn lemma_digit_run_props(s: Seq<u8>, i: int)
    requires
        0 <= i <= s.len(),
    ensures
        i <= digit_run_end(s, i) <= s.len(),
        forall|k: int| i <= k < digit_run_end(s, i) ==> is_digit_byte(#[trigger] s[k]),
        digit_run_end(s, i) < s.len() ==> !is_digit_byte(s[digit_run_end(s, i)]),
    decreases s.len() - i,
{
    if i < s.len() && is_digit_byte(s[i]) {
        lemma_digit_run_props(s, i + 1);
    }
}

/// A run of at most five digits denotes a number below 100000; shorter
/// runs are bounded accordingly.
pub proof fn lemma_num_val_bound(d: Seq<u8>)
    requires
        forall|k: int| 0 <= k < d.len() ==> is_digit_byte(#[trigger] d[k]),
    ensures
        d.len() <= 1 ==> seq_num_val(d) <= 9,
        d.len() <= 2 ==> seq_num_val(d) <= 99,
        d.len() <= 3 ==> seq_num_val(d) <= 999,
        d.len() <= 4 ==> seq_num_val(d) <= 9999,
        d.len() <= 5 ==> seq_num_val(d) <= 99999,
    decreases d.len(),
{
    if d.len() > 0 {
        lemma_num_val_bound(d.drop_last());
    }
}

fn expect_byte(buf: &[u8], i: usize, b: u8) -> (r: bool)
    ensures
        r == spec_expect(buf@, i as int, seq![b]),
        r ==> i < buf@.len() && buf@[i as int] == b,
{
    if i < buf.len() {
        let ok = buf[i] == b;
        proof {
            assert(buf@.subrange(i as int, i as int + 1)[0] == buf@[i as int]);
            if ok {
                assert(buf@.subrange(i as int, i as int + 1) =~= seq![b]);
            }
        }
        ok
    } else {
        false
    }
}

fn expect_prefix_v1(buf: &[u8]) -> (r: bool)
    ensures
        r == spec_expect(buf@, 0, v1_prefix()),
{
    if buf.len() < 11 {
        return false;
    }
    let ok = buf[0] == 'P' as u8 && buf[1] == 'R' as u8 && buf[2] == 'O' as u8 && buf[3] == 'X'
        as u8 && buf[4] == 'Y' as u8 && buf[5] == ' ' as u8 && buf[6] == 'T' as u8 && buf[7] == 'C'
        as u8 && buf[8] == 'P' as u8 && buf[9] == '4' as u8 && buf[10] == ' ' as u8;
    proof {
        let sub = buf@.subrange(0, 11);
        assert(sub[0] == buf@[0] && sub[1] == buf@[1] && sub[2] == buf@[2] && sub[3] == buf@[3]
            && sub[4] == buf@[4] && sub[5] == buf@[5] && sub[6] == buf@[6] && sub[7] == buf@[7]
            && sub[8] == buf@[8] && sub[9] == buf@[9] && sub[10] == buf@[10]);
        if ok {
            assert(sub =~= v1_prefix());
        }
    }
    ok
}

fn find_digit_run_end(buf: &[u8], i: usize) -> (j: usize)
    requires
        i <= buf@.len(),
    ensures
        j as int == digit_run_end(buf@, i as int),
        i <= j <= buf@.len(),
{
    proof {
        lemma_digit_run_props(buf@, i as int);
    }
    let mut j = i;
    while j < buf.len() && buf[j] >= '0' as u8 && buf[j] <= '9' as u8
        invariant
            i <= j <= buf@.len(),
            digit_run_end(buf@, i as int) == digit_run_end(buf@, j as int),
        decreases buf@.len() - j,
    {
        proof {
            assert(digit_run_end(buf@, j as int) == digit_run_end(buf@, j as int + 1));
        }
        j = j + 1;
    }
    proof {
        assert(digit_run_end(buf@, j as int) == j as int);
    }
    j
}

fn parse_num_at(buf: &[u8], i: usize) -> (r: Option<(u64, usize)>)
    requires
        i <= buf@.len(),
    ensures
        match spec_parse_num(buf@, i as int) {
            Some(p) => r matches Some(q) && q.0 as nat == p.0 && q.1 as int == p.1 && q.1
                <= buf@.len(),
            None => r is None,
        },
{
    proof {
        lemma_digit_run_props(buf@, i as int);
    }
    let j = find_digit_run_end(buf, i);
    if j == i || j - i > 5 {
        return None;
    }
    if buf[i] == '0' as u8 && j - i > 1 {
        return None;
    }
    proof {
        assert(forall|k: int|
            0 <= k < buf@.subrange(i as int, j as int).len() ==> is_digit_byte(
                #[trigger] buf@.subrange(i as int, j as int)[k],
            ));
        lemma_num_val_bound(buf@.subrange(i as int, j as int));
    }
    let mut acc: u64 = 0;
    let mut k = i;
    proof {
        assert(buf@.subrange(i as int, i as int) =~= Seq::<u8>::empty());
    }
    while k < j
        invariant
            i <= k <= j <= buf@.len(),
            j as int == digit_run_end(buf@, i as int),
            j - i <= 5,
            forall|t: int| i <= t < j ==> is_digit_byte(#[trigger] buf@[t]),
            acc == seq_num_val(buf@.subrange(i as int, k as int)),
        decreases j - k,
    {
        proof {
            let part = buf@.subrange(i as int, k as int);
            assert(forall|t: int| 0 <= t < part.len() ==> is_digit_byte(#[trigger] part[t]));
            lemma_num_val_bound(part);
        }
        acc = acc * 10 + (buf[k] - '0' as u8) as u64;
        k = k + 1;
        proof {
            assert(buf@.subrange(i as int, k as int).drop_last() =~= buf@.subrange(
                i as int,
                k as int - 1,
            ));
            assert(buf@.subrange(i as int, k as int).last() == buf@[k as int - 1]);
        }
    }
    Some((acc, j))
}

fn parse_octet_at(buf: &[u8], i: usize) -> (r: Option<(u8, usize)>)
    requires
        i <= buf@.len(),
    ensures
        match spec_parse_octet(buf@, i as int) {
            Some(p) => r matches Some(q) && q.0 == p.0 && q.1 as int == p.1 && q.1 <= buf@.len(),
            None => r is None,
        },
{
    match parse_num_at(buf, i) {
        Some((n, j)) => {
            if n <= 255 {
                Some((n as u8, j))
            } else {
                None
            }
        },
        None => None,
    }
}

fn parse_port_at(buf: &[u8], i: usize) -> (r: Option<(u16, usize)>)
    requires
        i <= buf@.len(),
    ensures
        match spec_parse_port(buf@, i as int) {
            Some(p) => r matches Some(q) && q.0 == p.0 && q.1 as int == p.1 && q.1 <= buf@.len(),
            None => r is None,
        },
{
    match parse_num_at(buf, i) {
        Some((n, j)) => {
            if n <= 65535 {
                Some((n as u16, j))
            } else {
                None
            }
        },
        None => None,
    }
}

fn parse_ipv4_at(buf: &[u8], i: usize) -> (r: Option<(Ipv4Addr, usize)>)
    requires
        i <= buf@.len(),
    ensures
        match spec_parse_ipv4(buf@, i as int) {
            Some(p) => r matches Some(q) && q.0 == p.0 && q.1 as int == p.1 && q.1 <= buf@.len(),
            None => r is None,
        },
{
    let n = buf.len();
    let (a, i1) = match parse_octet_at(buf, i) {
        Some(x) => x,
        None => {
            return None;
        },
    };
    if !expect_byte(buf, i1, '.' as u8) {
        return None;
    }
    let (b, i2) = match parse_octet_at(buf, i1 + 1) {
        Some(x) => x,
        None => {
            return None;
        },
    };
    if !expect_byte(buf, i2, '.' as u8) {
        return None;
    }
    let (c, i3) = match parse_octet_at(buf, i2 + 1) {
        Some(x) => x,
        None => {
            return None;
        },
    };
    if !expect_byte(buf, i3, '.' as u8) {
        return None;
    }
    let (d, i4) = match parse_octet_at(buf, i3 + 1) {
        Some(x) => x,
        None => {
            return None;
        },
    };
    Some((Ipv4Addr { a, b, c, d }, i4))
}

/// Parses a complete version 1 PROXY header line, CRLF included: the
/// result is exactly what the grammar [`spec_parse_v1`] reads in `buf`.
#[verifier::rlimit(100)]
#[verifier::spinoff_prover]
pub fn parse_proxy_v1(buf: &[u8]) -> (r: Option<ConnectionTuple>)
    ensures
        r == spec_parse_v1(buf@),
{
    if !expect_prefix_v1(buf) {
        return None;
    }
    let (from_ip, i1) = match parse_ipv4_at(buf, 11) {
        Some(x) => x,
        None => {
            return None;
        },
    };
    if !expect_byte(buf, i1, ' ' as u8) {
        return None;
    }
    let (to_ip, i2) = match parse_ipv4_at(buf, i1 + 1) {
        Some(x) => x,
        None => {
            return None;
        },
    };
    if !expect_byte(buf, i2, ' ' as u8) {
        return None;
    }
    let (from_port, i3) = match parse_port_at(buf, i2 + 1) {
        Some(x) => x,
        None => {
            return None;
        },
    };
    if !expect_byte(buf, i3, ' ' as u8) {
        return None;
    }
    let (to_port, i4) = match parse_port_at(buf, i3 + 1) {
        Some(x) => x,
        None => {
            return None;
        },
    };
    let n = buf.len();
    let crlf_ok = n >= 2 && i4 == n - 2 && expect_byte(buf, n - 2, '\r' as u8) && expect_byte(
        buf,
        n - 1,
        '\n' as u8,
    );
    proof {
        if spec_expect(buf@, i4 as int, seq!['\r' as u8, '\n' as u8]) && i4 as int + 2
            == buf@.len() {
            let sub = buf@.subrange(i4 as int, i4 as int + 2);
            assert(sub[0] == buf@[i4 as int] && sub[1] == buf@[i4 as int + 1]);
            assert(buf@[i4 as int] == '\r' as u8 && buf@[i4 as int + 1] == '\n' as u8);
            assert(buf@.subrange(i4 as int, i4 as int + 1) =~= seq!['\r' as u8]);
            assert(buf@.subrange(i4 as int + 1, i4 as int + 2) =~= seq!['\n' as u8]);
        }
        if crlf_ok {
            assert(buf@.subrange(i4 as int, i4 as int + 2) =~= seq!['\r' as u8, '\n' as u8]);
        }
    }
    if crlf_ok {
        Some(ConnectionTuple { from_ip, from_port, to_ip, to_port })
    } else {
        None
    }
}

/// The twelve signature bytes that open a version 2 header.
pub open spec fn v2_signature() -> Seq<u8> {
    seq![13u8, 10u8, 13u8, 10u8, 0u8, 13u8, 10u8, 81u8, 85u8, 73u8, 84u8, 10u8]
}

/// The version 2 header grammar, IPv4/TCP only: the signature, the
/// version-and-command byte, the family-and-protocol byte, the
/// big-endian address-block length (at least the twelve address bytes),
/// the two address/port pairs, and any trailing vendor bytes, which are
/// skipped. Yields the tuple and how many bytes the header occupies.
pub open spec fn spec_parse_v2(s: Seq<u8>) -> Option<(ConnectionTuple, int)> {
    if s.len() < 28 {
        None
    } else if s.subrange(0, 12) != v2_signature() {
        None
    } else if s[12] != 0x21 {
        None
    } else if s[13] != 0x11 {
        None
    } else {
        let len = s[14] as int * 256 + s[15] as int;
        if len < 12 || 16 + len > s.len() {
            None
        } else {
            Some(
                (
                    ConnectionTuple {
                        from_ip: Ipv4Addr { a: s[16], b: s[17], c: s[18], d: s[19] },
                        to_ip: Ipv4Addr { a: s[20], b: s[21], c: s[22], d: s[23] },
                        from_port: (s[24] as int * 256 + s[25] as int) as u16,
                        to_port: (s[26] as int * 256 + s[27] as int) as u16,
                    },
                    16 + len,
                ),
            )
        }
    }
}

/// Parses a version 2 PROXY header from the front of `buf`: the result
/// is exactly what the grammar [`spec_parse_v2`] reads there, the
/// parsed tuple and the count of header bytes to discard.
pub fn parse_proxy_v2(buf: &[u8]) -> (r: Option<(ConnectionTuple, usize)>)
    ensures
        match spec_parse_v2(buf@) {
            Some(p) => r matches Some(q) && q.0 == p.0 && q.1 as int == p.1,
            None => r is None,
        },
{
    if buf.len() < 28 {
        return None;
    }
    let sig_ok = buf[0] == 13 && buf[1] == 10 && buf[2] == 13 && buf[3] == 10 && buf[4] == 0
        && buf[5] == 13 && buf[6] == 10 && buf[7] == 81 && buf[8] == 85 && buf[9] == 73 && buf[10]
        == 84 && buf[11] == 10;
    proof {
        let sub = buf@.subrange(0, 12);
        assert(sub[0] == buf@[0] && sub[1] == buf@[1] && sub[2] == buf@[2] && sub[3] == buf@[3]
            && sub[4] == buf@[4] && sub[5] == buf@[5] && sub[6] == buf@[6] && sub[7] == buf@[7]
            && sub[8] == buf@[8] && sub[9] == buf@[9] && sub[10] == buf@[10] && sub[11]
            == buf@[11]);
        if sig_ok {
            assert(sub =~= v2_signature());
        }
    }
    if !sig_ok {
        return None;
    }
    if buf[12] != 0x21 {
        return None;
    }
    if buf[13] != 0x11 {
        return None;
    }
    let len: usize = (buf[14] as usize) * 256 + (buf[15] as usize);
    if len < 12 || buf.len() < 16 || 16 + len > buf.len() {
        return None;
    }
    let from_port: u16 = (buf[24] as u16) * 256 + (buf[25] as u16);
    let to_port: u16 = (buf[26] as u16) * 256 + (buf[27] as u16);
    Some(
        (
            ConnectionTuple {
                from_ip: Ipv4Addr { a: buf[16], b: buf[17], c: buf[18], d: buf[19] },
                to_ip: Ipv4Addr { a: buf[20], b: buf[21], c: buf[22], d: buf[23] },
                from_port,
                to_port,
            },
            16 + len,
        ),
    )
}

/// The version 2 header for `t` with the vendor bytes `tlv` appended.
pub open spec fn spec_v2_bytes(t: ConnectionTuple, tlv: Seq<u8>) -> Seq<u8> {
    v2_signature() + seq![
        0x21u8,
        0x11u8,
        (((tlv.len() + 12) / 256) as u8),
        (((tlv.len() + 12) % 256) as u8),
        t.from_ip.a,
        t.from_ip.b,
        t.from_ip.c,
        t.from_ip.d,
        t.to_ip.a,
        t.to_ip.b,
        t.to_ip.c,
        t.to_ip.d,
        ((t.from_port / 256) as u8),
        ((t.from_port % 256) as u8),
        ((t.to_port / 256) as u8),
        ((t.to_port % 256) as u8),
    ] + tlv
}

/// Round trip for version 2 headers: the parser reads back from the
/// rendered header exactly the tuple it was rendered from, and consumes
/// exactly the header.
pub proof fn lemma_v2_round_trip(t: ConnectionTuple, tlv: Seq<u8>)
    requires
        tlv.len() + 12 <= 65535,
    ensures
        spec_parse_v2(spec_v2_bytes(t, tlv)) == Some((t, spec_v2_bytes(t, tlv).len() as int)),
{
    let s = spec_v2_bytes(t, tlv);
    assert(s.len() == 28 + tlv.len());
    assert(s.subrange(0, 12) =~= v2_signature());
    let blen = tlv.len() + 12;
    assert(s[14] == (blen / 256) as u8 && s[15] == (blen % 256) as u8);
    assert((blen / 256) * 256 + blen % 256 == blen) by {
        vstd::arithmetic::div_mod::lemma_fundamental_div_mod(blen as int, 256);
    }
    assert(blen / 256 <= 255);
    assert(s[14] as int * 256 + s[15] as int == blen);
    assert((t.from_port / 256) * 256 + t.from_port % 256 == t.from_port) by {
        vstd::arithmetic::div_mod::lemma_fundamental_div_mod(t.from_port as int, 256);
    }
    assert((t.to_port / 256) * 256 + t.to_port % 256 == t.to_port) by {
        vstd::arithmetic::div_mod::lemma_fundamental_div_mod(t.to_port as int, 256);
    }
    assert(s[24] as int * 256 + s[25] as int == t.from_port);
    assert(s[26] as int * 256 + s[27] as int == t.to_port);
    assert(s[16] == t.from_ip.a && s[17] == t.from_ip.b && s[18] == t.from_ip.c && s[19]
        == t.from_ip.d);
    assert(s[20] == t.to_ip.a && s[21] == t.to_ip.b && s[22] == t.to_ip.c && s[23] == t.to_ip.d);
}

/// Decimal renderings denote themselves: every byte is a digit, the
/// value reads back, only zero starts with `0`, and the length follows
/// the magnitude.
pub proof fn lemma_dec_bytes_props(n: nat)
    ensures
        spec_dec_bytes(n).len() >= 1,
        forall|k: int|
            0 <= k < spec_dec_bytes(n).len() ==> is_digit_byte(#[trigger] spec_dec_bytes(n)[k]),
        seq_num_val(spec_dec_bytes(n)) == n,
        (spec_dec_bytes(n)[0] == '0' as u8) <==> n == 0,
        n <= 9 ==> spec_dec_bytes(n).len() == 1,
        n <= 99 ==> spec_dec_bytes(n).len() <= 2,
        n <= 999 ==> spec_dec_bytes(n).len() <= 3,
        n <= 9999 ==> spec_dec_bytes(n).len() <= 4,
        n <= 99999 ==> spec_dec_bytes(n).len() <= 5,
    decreases n,
{
    if n < 10 {
        let d = spec_dec_bytes(n);
        assert(d.drop_last() =~= Seq::<u8>::empty());
        assert(seq_num_val(Seq::<u8>::empty()) == 0);
        assert(seq_num_val(d) == seq_num_val(d.drop_last()) * 10 + (d.last() - ('0' as u8)) as nat);
        assert(seq_num_val(d) == n);
    } else {
        lemma_dec_bytes_props(n / 10);
        let d = spec_dec_bytes(n);
        let d0 = spec_dec_bytes(n / 10);
        assert(d.drop_last() =~= d0);
        assert(d.last() == (('0' as u8) + n % 10) as u8);
        assert(seq_num_val(d) == seq_num_val(d0) * 10 + n % 10);
        assert((n / 10) * 10 + n % 10 == n) by {
            vstd::arithmetic::div_mod::lemma_fundamental_div_mod(n as int, 10);
        }
        assert(d[0] == d0[0]);
        assert(n / 10 >= 1);
    }
}

/// The digit-run end is exactly the first non-digit: a direct
/// characterization usable from outside the recursion.
pub proof fn lemma_digit_run_exact(s: Seq<u8>, i: int, j: int)
    requires
        0 <= i <= j <= s.len(),
        forall|k: int| i <= k < j ==> is_digit_byte(#[trigger] s[k]),
        j == s.len() || !is_digit_byte(s[j]),
    ensures
        digit_run_end(s, i) == j,
    decreases j - i,
{
    if i < j {
        lemma_digit_run_exact(s, i + 1, j);
    }
}

/// The number parser reads back a rendered decimal: where `s` holds
/// `spec_dec_bytes(n)` at `i`, followed by a non-digit (or the end),
/// parsing at `i` yields exactly `n` and stops right after it.
pub proof fn lemma_parse_num_of_dec(s: Seq<u8>, i: int, n: nat)
    requires
        n <= 65535,
        0 <= i,
        i + spec_dec_bytes(n).len() <= s.len(),
        s.subrange(i, i + spec_dec_bytes(n).len() as int) == spec_dec_bytes(n),
        i + spec_dec_bytes(n).len() == s.len() || !is_digit_byte(
            s[i + spec_dec_bytes(n).len() as int],
        ),
    ensures
        spec_parse_num(s, i) == Some((n, i + spec_dec_bytes(n).len() as int)),
{
    let d = spec_dec_bytes(n);
    let j = i + d.len() as int;
    lemma_dec_bytes_props(n);
    assert forall|k: int| i <= k < j implies is_digit_byte(#[trigger] s[k]) by {
        assert(s.subrange(i, j)[k - i] == s[k]);
        assert(is_digit_byte(d[k - i]));
    }
    lemma_digit_run_exact(s, i, j);
    assert(s.subrange(i, j)[0] == s[i]);
    assert(s[i] == d[0]);
    assert(seq_num_val(s.subrange(i, j)) == n);
}

/// The dotted-quad parser reads back a rendered address: where `s`
/// holds `spec_ipv4_bytes(ip)` at `i`, followed by a non-digit (or the
/// end), parsing at `i` yields exactly `ip` and stops right after it.
#[verifier::rlimit(100)]
#[verifier::spinoff_prover]
pub proof fn lemma_parse_ipv4_of_render(s: Seq<u8>, i: int, ip: Ipv4Addr)
    requires
        0 <= i,
        i + spec_ipv4_bytes(ip).len() <= s.len(),
        s.subrange(i, i + spec_ipv4_bytes(ip).len() as int) == spec_ipv4_bytes(ip),
        i + spec_ipv4_bytes(ip).len() == s.len() || !is_digit_byte(
            s[i + spec_ipv4_bytes(ip).len() as int],
        ),
    ensures
        spec_parse_ipv4(s, i) == Some((ip, i + spec_ipv4_bytes(ip).len() as int)),
{
    let da = spec_dec_bytes(ip.a as nat);
    let db = spec_dec_bytes(ip.b as nat);
    let dc = spec_dec_bytes(ip.c as nat);
    let dd = spec_dec_bytes(ip.d as nat);
    let whole = spec_ipv4_bytes(ip);
    let e = i + whole.len() as int;
    lemma_dec_bytes_props(ip.a as nat);
    lemma_dec_bytes_props(ip.b as nat);
    lemma_dec_bytes_props(ip.c as nat);
    lemma_dec_bytes_props(ip.d as nat);
    let ia = i;
    let ja = ia + da.len() as int;
    let ib = ja + 1;
    let jb = ib + db.len() as int;
    let ic = jb + 1;
    let jc = ic + dc.len() as int;
    let id = jc + 1;
    let jd = id + dd.len() as int;
    assert(jd == e);
    assert forall|k: int| i <= k < e implies s[k] == whole[k - i] by {
        assert(s.subrange(i, e)[k - i] == s[k]);
    }
    assert(s.subrange(ia, ja) =~= da);
    assert(s[ja] == '.' as u8);
    lemma_parse_num_of_dec(s, ia, ip.a as nat);
    assert(s.subrange(ja, ja + 1) =~= seq!['.' as u8]);
    assert(s.subrange(ib, jb) =~= db);
    assert(s[jb] == '.' as u8);
    lemma_parse_num_of_dec(s, ib, ip.b as nat);
    assert(s.subrange(jb, jb + 1) =~= seq!['.' as u8]);
    assert(s.subrange(ic, jc) =~= dc);
    assert(s[jc] == '.' as u8);
    lemma_parse_num_of_dec(s, ic, ip.c as nat);
    assert(s.subrange(jc, jc + 1) =~= seq!['.' as u8]);
    assert(s.subrange(id, jd) =~= dd);
    lemma_parse_num_of_dec(s, id, ip.d as nat);
}

/// Round trip for version 1 headers: the parser reads back from the
/// rendered line exactly the tuple it was rendered from.
#[verifier::rlimit(100)]
#[verifier::spinoff_prover]
pub proof fn lemma_v1_round_trip(t: ConnectionTuple)
    ensures
        spec_parse_v1(spec_v1_bytes(t)) == Some(t),
{
    let s = spec_v1_bytes(t);
    let fa = spec_ipv4_bytes(t.from_ip);
    let ta = spec_ipv4_bytes(t.to_ip);
    let fp = spec_dec_bytes(t.from_port as nat);
    let tp = spec_dec_bytes(t.to_port as nat);
    lemma_dec_bytes_props(t.from_port as nat);
    lemma_dec_bytes_props(t.to_port as nat);
    let i1 = 11 + fa.len() as int;
    let i2 = i1 + 1 + ta.len() as int;
    let i3 = i2 + 1 + fp.len() as int;
    let i4 = i3 + 1 + tp.len() as int;
    assert(s.len() == i4 + 2);
    assert(s.subrange(0, 11) =~= v1_prefix());
    assert(s.subrange(11, i1) =~= fa);
    assert(s[i1] == ' ' as u8);
    assert(s.subrange(i1, i1 + 1) =~= seq![' ' as u8]);
    assert(s.subrange(i1 + 1, i2) =~= ta);
    assert(s[i2] == ' ' as u8);
    assert(s.subrange(i2, i2 + 1) =~= seq![' ' as u8]);
    assert(s.subrange(i2 + 1, i3) =~= fp);
    assert(s[i3] == ' ' as u8);
    assert(s.subrange(i3, i3 + 1) =~= seq![' ' as u8]);
    assert(s.subrange(i3 + 1, i4) =~= tp);
    assert(s[i4] == '\r' as u8 && s[i4 + 1] == '\n' as u8);
    assert(s.subrange(i4, i4 + 2) =~= seq!['\r' as u8, '\n' as u8]);
    lemma_parse_ipv4_of_render(s, 11, t.from_ip);
    lemma_parse_ipv4_of_render(s, i1 + 1, t.to_ip);
    lemma_parse_num_of_dec(s, i2 + 1, t.from_port as nat);
    lemma_parse_num_of_dec(s, i3 + 1, t.to_port as nat);
}

/// A digit run with no leading zero denotes a positive number.
proof fn lemma_num_val_pos(d: Seq<u8>)
    requires
        d.len() >= 1,
        forall|k: int| 0 <= k < d.len() ==> is_digit_byte(#[trigger] d[k]),
        d[0] != '0' as u8,
    ensures
        seq_num_val(d) >= 1,
    decreases d.len(),
{
    if d.len() == 1 {
    } else {
        let d0 = d.drop_last();
        assert(d0[0] == d[0]);
        assert(forall|k: int| 0 <= k < d0.len() ==> is_digit_byte(#[trigger] d0[k]));
        lemma_num_val_pos(d0);
    }
}

/// Decimal representations are unique: a digit run without a leading
/// zero is exactly the rendering of the number it denotes.
pub proof fn lemma_dec_unique(d: Seq<u8>)
    requires
        d.len() >= 1,
        forall|k: int| 0 <= k < d.len() ==> is_digit_byte(#[trigger] d[k]),
        d[0] == '0' as u8 ==> d.len() == 1,
    ensures
        d == spec_dec_bytes(seq_num_val(d)),
    decreases d.len(),
{
    let n = seq_num_val(d);
    if d.len() == 1 {
        assert(d.drop_last() =~= Seq::<u8>::empty());
        assert(seq_num_val(Seq::<u8>::empty()) == 0);
        assert(n == (d[0] - '0' as u8) as nat);
        assert(n < 10);
        assert(spec_dec_bytes(n) =~= d);
    } else {
        let d0 = d.drop_last();
        assert(d0[0] == d[0]);
        assert(forall|k: int| 0 <= k < d0.len() ==> is_digit_byte(#[trigger] d0[k]));
        lemma_dec_unique(d0);
        lemma_num_val_pos(d0);
        let q = seq_num_val(d0);
        let r = (d.last() - '0' as u8) as int;
        assert(n == q * 10 + r);
        assert(0 <= r < 10);
        assert(n / 10 == q && n % 10 == r as nat) by {
            vstd::arithmetic::div_mod::lemma_fundamental_div_mod_converse(
                n as int,
                10,
                q as int,
                r,
            );
        }
        assert(n >= 10);
        assert(spec_dec_bytes(n) == spec_dec_bytes(q).push(('0' as u8 + r) as u8));
        assert(('0' as u8 + r) as u8 == d.last());
        assert(spec_dec_bytes(n) =~= d);
    }
}

/// Soundness of the number parser: what it accepts at `i` is exactly
/// the canonical rendering of the value it returns.
pub proof fn lemma_parse_num_sound(s: Seq<u8>, i: int, n: nat, j: int)
    requires
        0 <= i <= s.len(),
        spec_parse_num(s, i) == Some((n, j)),
    ensures
        i < j <= s.len(),
        s.subrange(i, j) == spec_dec_bytes(n),
        j == i + spec_dec_bytes(n).len(),
        n <= 99999,
        j == s.len() || !is_digit_byte(s[j]),
{
    lemma_digit_run_props(s, i);
    let d = s.subrange(i, j);
    assert forall|k: int| 0 <= k < d.len() implies is_digit_byte(#[trigger] d[k]) by {
        assert(d[k] == s[i + k]);
    }
    assert(d[0] == s[i]);
    lemma_num_val_bound(d);
    lemma_dec_unique(d);
}

/// Soundness of the dotted-quad parser: what it accepts at `i` is
/// exactly the canonical rendering of the address it returns.
#[verifier::rlimit(100)]
#[verifier::spinoff_prover]
pub proof fn lemma_parse_ipv4_sound(s: Seq<u8>, i: int, ip: Ipv4Addr, j: int)
    requires
        0 <= i <= s.len(),
        spec_parse_ipv4(s, i) == Some((ip, j)),
    ensures
        i < j <= s.len(),
        s.subrange(i, j) == spec_ipv4_bytes(ip),
        j == i + spec_ipv4_bytes(ip).len(),
        j == s.len() || !is_digit_byte(s[j]),
{
    let (a, ja) = spec_parse_octet(s, i)->Some_0;
    lemma_parse_num_sound(s, i, a as nat, ja);
    let (b, jb) = spec_parse_octet(s, ja + 1)->Some_0;
    lemma_parse_num_sound(s, ja + 1, b as nat, jb);
    let (c, jc) = spec_parse_octet(s, jb + 1)->Some_0;
    lemma_parse_num_sound(s, jb + 1, c as nat, jc);
    let (d, jd) = spec_parse_octet(s, jc + 1)->Some_0;
    lemma_parse_num_sound(s, jc + 1, d as nat, jd);
    assert(s.subrange(ja, ja + 1) == seq!['.' as u8]);
    assert(s.subrange(jb, jb + 1) == seq!['.' as u8]);
    assert(s.subrange(jc, jc + 1) == seq!['.' as u8]);
    assert(s[ja] == '.' as u8) by {
        assert(s.subrange(ja, ja + 1)[0] == s[ja]);
    }
    assert(s[jb] == '.' as u8) by {
        assert(s.subrange(jb, jb + 1)[0] == s[jb]);
    }
    assert(s[jc] == '.' as u8) by {
        assert(s.subrange(jc, jc + 1)[0] == s[jc]);
    }
    assert(s.subrange(i, j) =~= spec_ipv4_bytes(ip)) by {
        assert(forall|k: int|
            i <= k < ja ==> #[trigger] s[k] == s.subrange(i, ja)[k - i]);
        assert(forall|k: int|
            ja + 1 <= k < jb ==> #[trigger] s[k] == s.subrange(ja + 1, jb)[k - (ja + 1)]);
        assert(forall|k: int|
            jb + 1 <= k < jc ==> #[trigger] s[k] == s.subrange(jb + 1, jc)[k - (jb + 1)]);
        assert(forall|k: int|
            jc + 1 <= k < jd ==> #[trigger] s[k] == s.subrange(jc + 1, jd)[k - (jc + 1)]);
    }
}

/// Soundness of the version 1 parser: the only lines it accepts are the
/// canonical renderings, so together with [`lemma_v1_round_trip`] it
/// reads exactly the grammar `spec_v1_bytes` spells.
#[verifier::rlimit(100)]
#[verifier::spinoff_prover]
pub proof fn lemma_v1_sound(s: Seq<u8>, t: ConnectionTuple)
    requires
        spec_parse_v1(s) == Some(t),
    ensures
        s == spec_v1_bytes(t),
{
    let (from_ip, i1) = spec_parse_ipv4(s, 11)->Some_0;
    lemma_parse_ipv4_sound(s, 11, from_ip, i1);
    let (to_ip, i2) = spec_parse_ipv4(s, i1 + 1)->Some_0;
    lemma_parse_ipv4_sound(s, i1 + 1, to_ip, i2);
    let (from_port, i3) = spec_parse_port(s, i2 + 1)->Some_0;
    lemma_parse_num_sound(s, i2 + 1, from_port as nat, i3);
    let (to_port, i4) = spec_parse_port(s, i3 + 1)->Some_0;
    lemma_parse_num_sound(s, i3 + 1, to_port as nat, i4);
    assert(s[i1] == ' ' as u8) by {
        assert(s.subrange(i1, i1 + 1)[0] == s[i1]);
    }
    assert(s[i2] == ' ' as u8) by {
        assert(s.subrange(i2, i2 + 1)[0] == s[i2]);
    }
    assert(s[i3] == ' ' as u8) by {
        assert(s.subrange(i3, i3 + 1)[0] == s[i3]);
    }
    assert(s[i4] == '\r' as u8 && s[i4 + 1] == '\n' as u8) by {
        assert(s.subrange(i4, i4 + 2)[0] == s[i4]);
        assert(s.subrange(i4, i4 + 2)[1] == s[i4 + 1]);
    }
    assert(s =~= spec_v1_bytes(t)) by {
        assert(forall|k: int| 0 <= k < 11 ==> #[trigger] s[k] == s.subrange(0, 11)[k]);
        assert(forall|k: int|
            11 <= k < i1 ==> #[trigger] s[k] == s.subrange(11, i1)[k - 11]);
        assert(forall|k: int|
            i1 + 1 <= k < i2 ==> #[trigger] s[k] == s.subrange(i1 + 1, i2)[k - (i1 + 1)]);
        assert(forall|k: int|
            i2 + 1 <= k < i3 ==> #[trigger] s[k] == s.subrange(i2 + 1, i3)[k - (i2 + 1)]);
        assert(forall|k: int|
            i3 + 1 <= k < i4 ==> #[trigger] s[k] == s.subrange(i3 + 1, i4)[k - (i3 + 1)]);
    }
}

} // verus!
