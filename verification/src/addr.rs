//! Network addresses: MAC addresses, IP addresses and subnets.
//!
//! MAC address text is parsed by the `macaddr` crate behind a trusted
//! wrapper; the parsed bytes, and everything computed from them, are
//! verified. IP addresses are modelled as plain values (a 32-bit or a
//! 128-bit number) with a verified parser and formatter; subnet text is
//! parsed by the `ipnet` crate behind a trusted wrapper.

use std::str::FromStr;
use vstd::prelude::*;

verus! {

broadcast use vstd::std_specs::vec::group_vec_axioms, vstd::seq::group_seq_axioms;

use crate::json::{digit_char, is_digit, is_hex_digit, hex_val, sp_digits_end, sp_digits_val,
    sp_digits_of, x_digits_end, x_digits_val, lemma_digits_val_bound};

/// A 48-bit MAC address.
pub struct MacAddr {
    pub octets: [u8; 6],
}

impl View for MacAddr {
    type V = Seq<u8>;

    open spec fn view(&self) -> Seq<u8> {
        self.octets@
    }
}

/// What `macaddr` parses a string to, when the string is one of the
/// textual 48-bit MAC address forms it accepts.
pub uninterp spec fn mac_of(s: Seq<char>) -> Option<Seq<u8>>;

/// Relies on `macaddr::MacAddr::from_str`: parses the textual MAC
/// address forms — hex octet pairs, each pair optionally preceded by
/// one consistent delimiter (`:`, `-` or `.`) — and a 48-bit result
/// carries the six address bytes in order. A 64-bit address or a
/// parse failure yields `None` here.
#[verifier::external_body]
fn parse_mac_raw(s: &str) -> (r: Option<[u8; 6]>)
    ensures
        r is Some <==> mac_of(s@) is Some,
        r matches Some(b) ==> mac_of(s@) == Some(b@),
{
    match macaddr::MacAddr::from_str(s) {
        Ok(macaddr::MacAddr::V6(m)) => Some(m.into_array()),
        _ => None,
    }
}

impl MacAddr {
    /// Parses a textual MAC address.
    pub fn parse(s: &str) -> (r: Option<MacAddr>)
        ensures
            r is Some <==> mac_of(s@) is Some,
            r matches Some(m) ==> mac_of(s@) == Some(m@),
    {
        match parse_mac_raw(s) {
            Some(octets) => Some(MacAddr { octets }),
            None => None,
        }
    }

    /// Byte-wise equality.
    pub fn same(&self, other: &MacAddr) -> (r: bool)
        ensures
            r == (self@ == other@),
    {
        let r = self.octets[0] == other.octets[0] && self.octets[1] == other.octets[1]
            && self.octets[2] == other.octets[2] && self.octets[3] == other.octets[3]
            && self.octets[4] == other.octets[4] && self.octets[5] == other.octets[5];
        proof {
            if r {
                assert(self@ =~= other@);
            }
        }
        r
    }

    /// Upper-case, colon-separated text of the address.
    pub fn to_text(&self) -> (r: String)
        ensures
            r@ == mac_chars(self@),
    {
        let mut out: Vec<char> = Vec::new();
        x_push_octet(self.octets[0], &mut out);
        out.push(':');
        x_push_octet(self.octets[1], &mut out);
        out.push(':');
        x_push_octet(self.octets[2], &mut out);
        out.push(':');
        x_push_octet(self.octets[3], &mut out);
        out.push(':');
        x_push_octet(self.octets[4], &mut out);
        out.push(':');
        x_push_octet(self.octets[5], &mut out);
        proof {
            assert(out@ =~= mac_chars(self@));
        }
        crate::text::chars_string(&out)
    }

    /// Copy of the address.
    pub fn duplicate(&self) -> (r: MacAddr)
        ensures
            r@ == self@,
    {
        MacAddr { octets: [self.octets[0], self.octets[1], self.octets[2], self.octets[3], self.octets[4], self.octets[5]] }
    }
}

/// The character for one hexadecimal digit value, upper case.
pub open spec fn hex_digit_char_upper(d: int) -> char {
    if d < 10 {
        digit_char(d)
    } else {
        (('A' as u32 + (d - 10)) as u32) as char
    }
}

/// Two upper-case hex digits of one byte.
pub open spec fn octet_chars(x: u8) -> Seq<char> {
    seq![hex_digit_char_upper(x as int / 16), hex_digit_char_upper(x as int % 16)]
}

/// Upper-case, colon-separated text of a six-byte address.
pub open spec fn mac_chars(b: Seq<u8>) -> Seq<char> {
    octet_chars(b[0]) + seq![':'] + octet_chars(b[1]) + seq![':'] + octet_chars(b[2]) + seq![':']
        + octet_chars(b[3]) + seq![':'] + octet_chars(b[4]) + seq![':'] + octet_chars(b[5])
}

/// The character for one digit value, upper-case hex.
fn x_hex_digit_char_upper(d: u32) -> (r: char)
    requires
        d < 16,
    ensures
        r == hex_digit_char_upper(d as int),
{
    let v = if d < 10 {
        '0' as u32 + d
    } else {
        'A' as u32 + (d - 10)
    };
    match crate::text::char_from_u32_checked(v) {
        Some(c) => c,
        None => vstd::pervasive::unreached(),
    }
}

/// Pushes one byte as two upper-case hex digits.
fn x_push_octet(x: u8, out: &mut Vec<char>)
    ensures
        final(out)@ == old(out)@ + octet_chars(x),
{
    out.push(x_hex_digit_char_upper(x as u32 / 16));
    out.push(x_hex_digit_char_upper(x as u32 % 16));
    proof {
        assert(out@ =~= old(out)@ + octet_chars(x));
    }
}

// ------------------------------------------------------------------
// IP addresses.
// ------------------------------------------------------------------

/// An IP address, as a plain value.
#[derive(Clone, Copy, Debug, PartialEq, Eq, Structural)]
pub enum IpAddr {
    V4(u32),
    V6(u128),
}

/// One decimal octet at `i`: one to three digits, no superfluous leading
/// zero, value at most 255; yields the value and the index after it.
pub open spec fn sp_octet(s: Seq<char>, i: int) -> Option<(int, int)> {
    let e = sp_digits_end(s, i);
    if e - i < 1 || e - i > 3 {
        None
    } else if s[i] == '0' && e - i > 1 {
        None
    } else {
        let v = sp_digits_val(s, i, e);
        if v > 255 {
            None
        } else {
            Some((v, e))
        }
    }
}

/// Four dot-separated octets starting at `i`; yields the 32-bit value
/// and the index after the last octet.
pub open spec fn sp_parse_ipv4_end(s: Seq<char>, i: int) -> Option<(int, int)> {
    match sp_octet(s, i) {
        None => None,
        Some((a, e1)) => if e1 < s.len() && s[e1] == '.' {
            match sp_octet(s, e1 + 1) {
                None => None,
                Some((b, e2)) => if e2 < s.len() && s[e2] == '.' {
                    match sp_octet(s, e2 + 1) {
                        None => None,
                        Some((c, e3)) => if e3 < s.len() && s[e3] == '.' {
                            match sp_octet(s, e3 + 1) {
                                None => None,
                                Some((d, e4)) => Some((((a * 256 + b) * 256 + c) * 256 + d, e4)),
                            }
                        } else {
                            None
                        },
                    }
                } else {
                    None
                },
            }
        } else {
            None
        },
    }
}

/// A whole string as a dotted-quad IPv4 address.
pub open spec fn sp_parse_ipv4(s: Seq<char>) -> Option<int> {
    match sp_parse_ipv4_end(s, 0) {
        Some((v, e)) => if e == s.len() {
            Some(v)
        } else {
            None
        },
        None => None,
    }
}

/// Position of the first `::`, if any.
pub open spec fn sp_dcolon(s: Seq<char>, i: int) -> Option<int>
    decreases s.len() - i,
{
    if !(0 <= i && i + 2 <= s.len()) {
        None
    } else if s[i] == ':' && s[i + 1] == ':' {
        Some(i)
    } else {
        sp_dcolon(s, i + 1)
    }
}

/// First index in `[i, end)` holding `:`, or `end`.
pub open spec fn sp_piece_end(s: Seq<char>, i: int, end: int) -> int
    decreases end - i,
{
    if 0 <= i && i < end && i < s.len() && s[i] != ':' {
        sp_piece_end(s, i + 1, end)
    } else {
        i
    }
}

pub open spec fn sp_has_dot(s: Seq<char>, i: int, j: int) -> bool {
    exists|k: int| i <= k < j && s[k] == '.'
}

pub open spec fn all_hex(s: Seq<char>, i: int, j: int) -> bool {
    forall|k: int| i <= k < j ==> is_hex_digit(#[trigger] s[k])
}

/// Value of the hexadecimal run `s[i..j)`.
pub open spec fn sp_hex_run_val(s: Seq<char>, i: int, j: int) -> int
    decreases j - i,
{
    if i < j {
        sp_hex_run_val(s, i, j - 1) * 16 + hex_val(s[j - 1])
    } else {
        0
    }
}

/// Colon-separated 16-bit groups filling `[i, end)`; at most four hex
/// digits each; a final dotted-quad part (when `v4ok` and the piece runs
/// to the end of the whole string) counts as two groups.
pub open spec fn sp_groups(s: Seq<char>, i: int, end: int, v4ok: bool) -> Option<Seq<int>>
    decreases end - i,
{
    let pe = sp_piece_end(s, i, end);
    if pe <= i {
        None
    } else if sp_has_dot(s, i, pe) {
        if v4ok && pe == end && end == s.len() {
            match sp_parse_ipv4_end(s, i) {
                Some((v, e)) => if e == end {
                    Some(seq![v / 0x10000, v % 0x10000])
                } else {
                    None
                },
                None => None,
            }
        } else {
            None
        }
    } else if pe - i > 4 || !all_hex(s, i, pe) {
        None
    } else {
        let g = sp_hex_run_val(s, i, pe);
        if pe >= end {
            Some(seq![g])
        } else {
            match sp_groups(s, pe + 1, end, v4ok) {
                None => None,
                Some(rest) => Some(seq![g] + rest),
            }
        }
    }
}

/// `n` zero groups.
pub open spec fn sp_zero_groups(n: int) -> Seq<int> {
    Seq::new(if n < 0 {
        0
    } else {
        n as nat
    }, |_i: int| 0)
}

/// Big-endian combination of 16-bit groups.
pub open spec fn sp_combine(gs: Seq<int>) -> int
    decreases gs.len(),
{
    if gs.len() == 0 {
        0
    } else {
        sp_combine(gs.drop_last()) * 0x10000 + gs.last()
    }
}

/// A whole string as an IPv6 address: eight groups, or a single `::`
/// standing for one or more zero groups.
pub open spec fn sp_parse_ipv6(s: Seq<char>) -> Option<int> {
    match sp_dcolon(s, 0) {
        None => match sp_groups(s, 0, s.len() as int, true) {
            Some(gs) => if gs.len() == 8 {
                Some(sp_combine(gs))
            } else {
                None
            },
            None => None,
        },
        Some(d) => {
            let left = if d == 0 {
                Some(Seq::<int>::empty())
            } else {
                sp_groups(s, 0, d, false)
            };
            let right = if d + 2 == s.len() {
                Some(Seq::<int>::empty())
            } else {
                sp_groups(s, d + 2, s.len() as int, true)
            };
            match (left, right) {
                (Some(lg), Some(rg)) => if lg.len() + rg.len() <= 7 {
                    Some(sp_combine(lg + sp_zero_groups(8 - lg.len() - rg.len()) + rg))
                } else {
                    None
                },
                _ => None,
            }
        },
    }
}

/// A whole string as an IP address: the dotted-quad form, else the
/// colon-separated form.
pub open spec fn sp_parse_ip(s: Seq<char>) -> Option<IpAddr> {
    match sp_parse_ipv4(s) {
        Some(v) => Some(IpAddr::V4(v as u32)),
        None => match sp_parse_ipv6(s) {
            Some(v) => Some(IpAddr::V6(v as u128)),
            None => None,
        },
    }
}

// ------------------------------------------------------------------
// IP parsing, executable level.
// ------------------------------------------------------------------

fn x_octet(s: &Vec<char>, i: usize) -> (r: Option<(u32, usize)>)
    requires
        i <= s@.len(),
    ensures
        match sp_octet(s@, i as int) {
            None => r is None,
            Some((v, e)) => r matches Some((x, xe)) && x as int == v && xe as int == e && xe
                <= s@.len() && x <= 255,
        },
{
    let e = x_digits_end(s, i);
    if e - i < 1 || e - i > 3 {
        return None;
    }
    if s[i] == '0' && e - i > 1 {
        return None;
    }
    let v = x_digits_val(s, i, e);
    proof {
        lemma_digits_val_bound(s@, i as int, e as int);
    }
    if v > 255 {
        None
    } else {
        Some((v as u32, e))
    }
}

fn x_parse_ipv4_end(s: &Vec<char>, i: usize) -> (r: Option<(u32, usize)>)
    requires
        i <= s@.len(),
    ensures
        match sp_parse_ipv4_end(s@, i as int) {
            None => r is None,
            Some((v, e)) => r matches Some((x, xe)) && x as int == v && xe as int == e && xe
                <= s@.len(),
        },
{
    let (a, e1) = match x_octet(s, i) {
        None => {
            return None;
        },
        Some(p) => p,
    };
    if !(e1 < s.len() && s[e1] == '.') {
        return None;
    }
    let (b, e2) = match x_octet(s, e1 + 1) {
        None => {
            return None;
        },
        Some(p) => p,
    };
    if !(e2 < s.len() && s[e2] == '.') {
        return None;
    }
    let (c, e3) = match x_octet(s, e2 + 1) {
        None => {
            return None;
        },
        Some(p) => p,
    };
    if !(e3 < s.len() && s[e3] == '.') {
        return None;
    }
    let (d, e4) = match x_octet(s, e3 + 1) {
        None => {
            return None;
        },
        Some(p) => p,
    };
    Some((((a * 256 + b) * 256 + c) * 256 + d, e4))
}

#[verifier::loop_isolation(false)]
fn x_dcolon(s: &Vec<char>, i: usize) -> (r: Option<usize>)
    requires
        i <= s@.len(),
    ensures
        match sp_dcolon(s@, i as int) {
            None => r is None,
            Some(d) => r matches Some(x) && x as int == d && x + 2 <= s@.len(),
        },
{
    let mut k = i;
    while !(s.len() - k < 2 || (s[k] == ':' && s[k + 1] == ':'))
        invariant
            i <= k <= s@.len(),
            sp_dcolon(s@, i as int) == sp_dcolon(s@, k as int),
        decreases s@.len() - k,
    {
        proof {
            assert(sp_dcolon(s@, k as int) == sp_dcolon(s@, k as int + 1));
        }
        k = k + 1;
    }
    if s.len() - k < 2 {
        None
    } else {
        Some(k)
    }
}

#[verifier::loop_isolation(false)]
fn x_piece_end(s: &Vec<char>, i: usize, end: usize) -> (r: usize)
    requires
        i <= end <= s@.len(),
    ensures
        r as int == sp_piece_end(s@, i as int, end as int),
        i <= r <= end,
{
    let mut k = i;
    while k < end && s[k] != ':'
        invariant
            i <= k <= end,
            sp_piece_end(s@, i as int, end as int) == sp_piece_end(s@, k as int, end as int),
        decreases end - k,
    {
        proof {
            assert(sp_piece_end(s@, k as int, end as int) == sp_piece_end(
                s@,
                k as int + 1,
                end as int,
            ));
        }
        k = k + 1;
    }
    k
}

#[verifier::loop_isolation(false)]
fn x_has_dot(s: &Vec<char>, i: usize, j: usize) -> (r: bool)
    requires
        i <= j <= s@.len(),
    ensures
        r == sp_has_dot(s@, i as int, j as int),
{
    let mut k = i;
    while k < j
        invariant
            i <= k <= j,
            forall|m: int| i <= m < k ==> s@[m] != '.',
        decreases j - k,
    {
        if s[k] == '.' {
            return true;
        }
        k = k + 1;
    }
    false
}

#[verifier::loop_isolation(false)]
fn x_all_hex(s: &Vec<char>, i: usize, j: usize) -> (r: bool)
    requires
        i <= j <= s@.len(),
    ensures
        r == all_hex(s@, i as int, j as int),
{
    let mut k = i;
    while k < j
        invariant
            i <= k <= j,
            forall|m: int| i <= m < k ==> is_hex_digit(#[trigger] s@[m]),
        decreases j - k,
    {
        if !(('0' <= s[k] && s[k] <= '9') || ('a' <= s[k] && s[k] <= 'f') || ('A' <= s[k] && s[k]
            <= 'F')) {
            return false;
        }
        k = k + 1;
    }
    true
}

proof fn lemma_hex_run_val_bound(s: Seq<char>, i: int, j: int)
    requires
        i <= j,
        j - i <= 4,
        all_hex(s, i, j),
    ensures
        0 <= sp_hex_run_val(s, i, j) < 0x10000,
    decreases j - i,
{
    if i < j {
        lemma_hex_run_val_bound_n(s, i, j);
    }
}

proof fn lemma_hex_run_val_bound_n(s: Seq<char>, i: int, j: int)
    requires
        i <= j,
        j - i <= 4,
        all_hex(s, i, j),
    ensures
        0 <= sp_hex_run_val(s, i, j),
        sp_hex_run_val(s, i, j) < if j - i == 0 {
            1int
        } else if j - i == 1 {
            0x10int
        } else if j - i == 2 {
            0x100int
        } else if j - i == 3 {
            0x1000int
        } else {
            0x10000int
        },
    decreases j - i,
{
    if i < j {
        lemma_hex_run_val_bound_n(s, i, j - 1);
        assert(is_hex_digit(s[j - 1]));
        assert(hex_val(s[j - 1]) <= 15);
    }
}

#[verifier::loop_isolation(false)]
fn x_hex_run_val(s: &Vec<char>, i: usize, j: usize) -> (r: u16)
    requires
        i <= j <= s@.len(),
        j - i <= 4,
        all_hex(s@, i as int, j as int),
    ensures
        r as int == sp_hex_run_val(s@, i as int, j as int),
{
    let mut acc: u32 = 0;
    let mut k = i;
    while k < j
        invariant
            i <= k <= j <= s@.len(),
            j - i <= 4,
            all_hex(s@, i as int, j as int),
            acc as int == sp_hex_run_val(s@, i as int, k as int),
            acc < 0x10000,
        decreases j - k,
    {
        proof {
            lemma_hex_run_val_bound_n(s@, i as int, k as int + 1);
        }
        let d = c_hex_val_loc(s[k]);
        acc = acc * 16 + d;
        k = k + 1;
    }
    proof {
        lemma_hex_run_val_bound(s@, i as int, j as int);
    }
    acc as u16
}

fn c_hex_val_loc(c: char) -> (r: u32)
    requires
        is_hex_digit(c),
    ensures
        r as int == hex_val(c),
        r <= 15,
{
    let u = c as u32;
    if u <= '9' as u32 {
        u - '0' as u32
    } else if u >= 'a' as u32 {
        u - 'a' as u32 + 10
    } else {
        u - 'A' as u32 + 10
    }
}

/// The integer values of a vector of 16-bit groups.
pub open spec fn ints_of(v: Seq<u16>) -> Seq<int> {
    Seq::new(v.len(), |i: int| v[i] as int)
}

#[verifier::loop_isolation(false)]
fn x_groups(s: &Vec<char>, i: usize, end: usize, v4ok: bool) -> (r: Option<Vec<u16>>)
    requires
        i <= end <= s@.len(),
    ensures
        match sp_groups(s@, i as int, end as int, v4ok) {
            None => r is None,
            Some(gs) => r matches Some(v) && ints_of(v@) == gs,
        },
    decreases end - i,
{
    let pe = x_piece_end(s, i, end);
    if pe <= i {
        return None;
    }
    if x_has_dot(s, i, pe) {
        if v4ok && pe == end && end == s.len() {
            match x_parse_ipv4_end(s, i) {
                Some((v, e)) => {
                    if e == end {
                        let mut out: Vec<u16> = Vec::new();
                        out.push((v / 0x10000) as u16);
                        out.push((v % 0x10000) as u16);
                        proof {
                            let gs = sp_groups(s@, i as int, end as int, v4ok)->Some_0;
                            assert(ints_of(out@) =~= gs);
                        }
                        Some(out)
                    } else {
                        None
                    }
                },
                None => None,
            }
        } else {
            None
        }
    } else if pe - i > 4 || !x_all_hex(s, i, pe) {
        None
    } else {
        let g = x_hex_run_val(s, i, pe);
        if pe >= end {
            let mut out: Vec<u16> = Vec::new();
            out.push(g);
            proof {
                let gs = sp_groups(s@, i as int, end as int, v4ok)->Some_0;
                assert(ints_of(out@) =~= gs);
            }
            Some(out)
        } else {
            match x_groups(s, pe + 1, end, v4ok) {
                None => None,
                Some(mut rest) => {
                    let mut out: Vec<u16> = Vec::new();
                    out.push(g);
                    out.append(&mut rest);
                    proof {
                        let gs = sp_groups(s@, i as int, end as int, v4ok)->Some_0;
                        assert(ints_of(out@) =~= gs);
                    }
                    Some(out)
                },
            }
        }
    }
}

/// Bound for combining `k` groups.
pub open spec fn pow_group(n: int) -> int
    decreases n,
{
    if n <= 0 {
        1
    } else {
        0x10000 * pow_group(n - 1)
    }
}

proof fn lemma_combine_bound(gs: Seq<int>)
    requires
        forall|k: int| 0 <= k < gs.len() ==> 0 <= #[trigger] gs[k] < 0x10000,
    ensures
        0 <= sp_combine(gs) < pow_group(gs.len() as int),
    decreases gs.len(),
{
    if gs.len() > 0 {
        lemma_combine_bound(gs.drop_last());
        vstd::arithmetic::mul::lemma_mul_inequality(
            sp_combine(gs.drop_last()),
            pow_group(gs.len() - 1) - 1,
            0x10000,
        );
    }
}

#[verifier::loop_isolation(false)]
fn x_combine(gs: &Vec<u16>) -> (r: u128)
    requires
        gs@.len() == 8,
    ensures
        r as int == sp_combine(ints_of(gs@)),
{
    let ghost t = ints_of(gs@);
    proof {
        assert(t.take(0) =~= Seq::<int>::empty());
    }
    let mut acc: u128 = 0;
    let mut k: usize = 0;
    while k < 8
        invariant
            k <= 8,
            gs@.len() == 8,
            t == ints_of(gs@),
            acc as int == sp_combine(t.take(k as int)),
        decreases 8 - k,
    {
        proof {
            assert forall|m: int| 0 <= m < t.len() implies 0 <= #[trigger] t[m] < 0x10000 by {}
            lemma_combine_bound(t.take(k as int));
            lemma_pow_group_le(k as int, 7);
            reveal_with_fuel(pow_group, 9);
            assert(pow_group(8) == 0x100000000000000000000000000000000int);
            assert(pow_group(8) == pow_group(7) * 0x10000);
            vstd::arithmetic::mul::lemma_mul_inequality(
                acc as int,
                pow_group(7) - 1,
                0x10000,
            );
            assert(t.take(k as int + 1).drop_last() =~= t.take(k as int));
            assert(t.take(k as int + 1).last() == t[k as int]);
        }
        acc = acc * 0x10000 + (gs[k] as u128);
        k = k + 1;
    }
    proof {
        assert(t.take(8) =~= t);
    }
    acc
}

proof fn lemma_pow_group_le(a: int, b: int)
    requires
        a <= b,
    ensures
        pow_group(a) <= pow_group(b),
        pow_group(a) >= 1,
    decreases b,
{
    if b > 0 {
        if a == b {
            lemma_pow_group_le(b - 1, b - 1);
        } else {
            lemma_pow_group_le(a, b - 1);
        }
    }
}

#[verifier::loop_isolation(false)]
fn x_parse_ipv6(s: &Vec<char>) -> (r: Option<u128>)
    ensures
        match sp_parse_ipv6(s@) {
            None => r is None,
            Some(v) => r matches Some(x) && x as int == v,
        },
{
    match x_dcolon(s, 0) {
        None => {
            match x_groups(s, 0, s.len(), true) {
                Some(gs) => {
                    if gs.len() == 8 {
                        Some(x_combine(&gs))
                    } else {
                        None
                    }
                },
                None => None,
            }
        },
        Some(d) => {
            let left: Vec<u16> = if d == 0 {
                Vec::new()
            } else {
                match x_groups(s, 0, d, false) {
                    Some(v) => v,
                    None => {
                        return None;
                    },
                }
            };
            let right: Vec<u16> = if d + 2 == s.len() {
                Vec::new()
            } else {
                match x_groups(s, d + 2, s.len(), true) {
                    Some(v) => v,
                    None => {
                        return None;
                    },
                }
            };
            proof {
                if d == 0 {
                    assert(ints_of(left@) =~= Seq::<int>::empty());
                }
                if d + 2 == s@.len() {
                    assert(ints_of(right@) =~= Seq::<int>::empty());
                }
            }
            if left.len() <= 7 && right.len() <= 7 - left.len() {
                let mut all: Vec<u16> = Vec::new();
                let mut l = left;
                let mut rg = right;
                let ghost lv = ints_of(l@);
                let ghost rv = ints_of(rg@);
                let zn = 8 - l.len() - rg.len();
                all.append(&mut l);
                proof {
                    assert(ints_of(all@) =~= lv + sp_zero_groups(0));
                }
                let mut z: usize = 0;
                while z < zn
                    invariant
                        z <= zn,
                        all@.len() == lv.len() + z,
                        ints_of(all@) =~= lv + sp_zero_groups(z as int),
                    decreases zn - z,
                {
                    let ghost prev = all@;
                    all.push(0u16);
                    proof {
                        assert(all@.len() == prev.len() + 1);
                        assert forall|m: int|
                            0 <= m < all@.len() implies ints_of(all@)[m] == (lv + sp_zero_groups(
                            z as int + 1,
                        ))[m] by {
                            assert(ints_of(all@)[m] == all@[m] as int);
                            if m < prev.len() {
                                assert(all@[m] == prev[m]);
                                assert(ints_of(prev)[m] == (lv + sp_zero_groups(z as int))[m]);
                                if m >= lv.len() {
                                    assert((lv + sp_zero_groups(z as int))[m] == sp_zero_groups(
                                        z as int,
                                    )[m - lv.len() as int]);
                                    assert(sp_zero_groups(z as int)[m - lv.len() as int] == 0);
                                    assert((lv + sp_zero_groups(z as int + 1))[m] == 0);
                                } else {
                                    assert((lv + sp_zero_groups(z as int + 1))[m] == lv[m]);
                                }
                            } else {
                                assert(all@[m] == 0u16);
                                assert((lv + sp_zero_groups(z as int + 1))[m] == 0);
                            }
                        }
                        assert(ints_of(all@) =~= lv + sp_zero_groups(z as int + 1));
                    }
                    z = z + 1;
                }
                let ghost mid = all@;
                let ghost rgv = rg@;
                all.append(&mut rg);
                proof {
                    assert forall|m: int|
                        0 <= m < all@.len() implies ints_of(all@)[m] == (lv + sp_zero_groups(
                        zn as int,
                    ) + rv)[m] by {
                        assert(ints_of(all@)[m] == all@[m] as int);
                        if m < mid.len() {
                            assert(all@[m] == mid[m]);
                            assert(ints_of(mid)[m] == (lv + sp_zero_groups(zn as int))[m]);
                        } else {
                            assert(all@[m] == rgv[m - mid.len() as int]);
                            assert(ints_of(rgv)[m - mid.len() as int] == rv[m - mid.len() as int]);
                        }
                    }
                    assert(ints_of(all@) =~= lv + sp_zero_groups(zn as int) + rv);
                }
                Some(x_combine(&all))
            } else {
                None
            }
        },
    }
}

/// Hexadecimal digits of a non-negative integer, lower case, most
/// significant first.
pub open spec fn sp_hex_chars_of(n: int) -> Seq<char>
    decreases n,
{
    if n < 16 {
        seq![crate::json::hex_digit_char(n)]
    } else {
        sp_hex_chars_of(n / 16).push(crate::json::hex_digit_char(n % 16))
    }
}

/// Dotted-quad text of a 32-bit address.
pub open spec fn ipv4_chars(v: int) -> Seq<char> {
    sp_digits_of(v / 0x1000000 % 0x100) + seq!['.'] + sp_digits_of(v / 0x10000 % 0x100)
        + seq!['.'] + sp_digits_of(v / 0x100 % 0x100) + seq!['.'] + sp_digits_of(v % 0x100)
}

/// Eight colon-separated hexadecimal groups of a 128-bit address
/// (shortest digits per group, no `::` compression).
pub open spec fn ipv6_chars(v: int) -> Seq<char> {
    sp_hex_chars_of(v / 0x1000000000000000000000000000 % 0x10000) + seq![':'] + sp_hex_chars_of(
        v / 0x100000000000000000000000 % 0x10000,
    ) + seq![':'] + sp_hex_chars_of(v / 0x10000000000000000000 % 0x10000) + seq![':']
        + sp_hex_chars_of(v / 0x1000000000000000 % 0x10000) + seq![':'] + sp_hex_chars_of(
        v / 0x100000000000 % 0x10000,
    ) + seq![':'] + sp_hex_chars_of(v / 0x10000000 % 0x10000) + seq![':'] + sp_hex_chars_of(
        v / 0x10000 % 0x10000,
    ) + seq![':'] + sp_hex_chars_of(v % 0x10000)
}

/// Text of an IP address.
pub open spec fn ip_chars(a: IpAddr) -> Seq<char> {
    match a {
        IpAddr::V4(v) => ipv4_chars(v as int),
        IpAddr::V6(v) => ipv6_chars(v as int),
    }
}

/// Pushes the lower-case hexadecimal digits of `m` onto `out`.
fn x_hex_into(m: u32, out: &mut Vec<char>)
    ensures
        final(out)@ == old(out)@ + sp_hex_chars_of(m as int),
    decreases m,
{
    if m < 16 {
        out.push(crate::json::x_hex_digit_char(m));
    } else {
        proof {
            vstd::arithmetic::div_mod::lemma_div_decreases(m as int, 16);
            vstd::arithmetic::div_mod::lemma_div_pos_is_pos(m as int, 16);
        }
        let ghost pre = out@;
        x_hex_into(m / 16, out);
        out.push(crate::json::x_hex_digit_char(m % 16));
        proof {
            assert(out@ =~= pre + sp_hex_chars_of(m as int));
        }
    }
}

impl IpAddr {
    /// Text of the address: the dotted-quad form, or eight
    /// colon-separated hexadecimal groups.
    pub fn to_text(&self) -> (r: String)
        ensures
            r@ == ip_chars(*self),
    {
        let mut out: Vec<char> = Vec::new();
        match self {
            IpAddr::V4(v) => {
                let v = *v;
                crate::json::x_digits_into((v / 0x1000000 % 0x100) as u128, &mut out);
                out.push('.');
                crate::json::x_digits_into((v / 0x10000 % 0x100) as u128, &mut out);
                out.push('.');
                crate::json::x_digits_into((v / 0x100 % 0x100) as u128, &mut out);
                out.push('.');
                crate::json::x_digits_into((v % 0x100) as u128, &mut out);
                proof {
                    assert(out@ =~= ip_chars(*self));
                }
            },
            IpAddr::V6(v) => {
                let v = *v;
                x_hex_into((v / 0x1000000000000000000000000000 % 0x10000) as u32, &mut out);
                out.push(':');
                x_hex_into((v / 0x100000000000000000000000 % 0x10000) as u32, &mut out);
                out.push(':');
                x_hex_into((v / 0x10000000000000000000 % 0x10000) as u32, &mut out);
                out.push(':');
                x_hex_into((v / 0x1000000000000000 % 0x10000) as u32, &mut out);
                out.push(':');
                x_hex_into((v / 0x100000000000 % 0x10000) as u32, &mut out);
                out.push(':');
                x_hex_into((v / 0x10000000 % 0x10000) as u32, &mut out);
                out.push(':');
                x_hex_into((v / 0x10000 % 0x10000) as u32, &mut out);
                out.push(':');
                x_hex_into((v % 0x10000) as u32, &mut out);
                proof {
                    assert(out@ =~= ip_chars(*self));
                }
            },
        }
        crate::text::chars_string(&out)
    }
}

// ------------------------------------------------------------------
// Subnets.
// ------------------------------------------------------------------

/// A subnet: an address (host bits kept as given) and a prefix length.
#[derive(Clone, Copy, Debug, PartialEq, Eq, Structural)]
pub struct IpCidr {
    pub addr: IpAddr,
    pub prefix: u8,
}

/// What `ipnet` parses a string to, when the string is a valid
/// `address/prefix` form: whether the address part was IPv4, its
/// numeric value, and the prefix length.
pub uninterp spec fn ipnet_of(s: Seq<char>) -> Option<(bool, u128, u8)>;

/// Relies on `ipnet::IpNet::from_str`: parses `address/prefix` with the
/// standard textual address forms and a prefix no longer than the
/// address width; an IPv4 value fits 32 bits.
#[verifier::external_body]
fn parse_ipnet_raw(s: &str) -> (r: Option<(bool, u128, u8)>)
    ensures
        r == ipnet_of(s@),
        r matches Some(t) ==> (t.0 ==> t.1 < 0x100000000),
{
    match ipnet::IpNet::from_str(s) {
        Ok(ipnet::IpNet::V4(n)) => Some((true, u32::from(n.addr()) as u128, n.prefix_len())),
        Ok(ipnet::IpNet::V6(n)) => Some((false, u128::from(n.addr()), n.prefix_len())),
        Err(_) => None,
    }
}

/// The subnet value for one parse result of the `ipnet` crate.
pub open spec fn cidr_of_parts(t: (bool, u128, u8)) -> IpCidr {
    IpCidr {
        addr: if t.0 {
            IpAddr::V4(t.1 as u32)
        } else {
            IpAddr::V6(t.1)
        },
        prefix: t.2,
    }
}

impl IpCidr {
    /// Parses a textual `address/prefix` subnet.
    pub fn parse(s: &str) -> (r: Option<IpCidr>)
        ensures
            r == match ipnet_of(s@) {
                None => None::<IpCidr>,
                Some(t) => Some(cidr_of_parts(t)),
            },
    {
        match parse_ipnet_raw(s) {
            Some((v4, a, p)) => Some(
                IpCidr {
                    addr: if v4 {
                        IpAddr::V4(a as u32)
                    } else {
                        IpAddr::V6(a)
                    },
                    prefix: p,
                },
            ),
            None => None,
        }
    }

    /// Text of the subnet: the address, a slash, the prefix length.
    pub fn to_text(&self) -> (r: String)
        ensures
            r@ == cidr_chars(*self),
    {
        let mut out: Vec<char> = crate::text::str_chars(self.addr.to_text().as_str());
        out.push('/');
        crate::json::x_digits_into(self.prefix as u128, &mut out);
        proof {
            assert(out@ =~= cidr_chars(*self));
        }
        crate::text::chars_string(&out)
    }
}

/// Text of a subnet.
pub open spec fn cidr_chars(c: IpCidr) -> Seq<char> {
    ip_chars(c.addr) + seq!['/'] + sp_digits_of(c.prefix as int)
}

/// Parses a textual IP address, exactly as [`sp_parse_ip`] describes.
pub fn parse_ip(s: &str) -> (r: Option<IpAddr>)
    ensures
        r == sp_parse_ip(s@),
{
    let cs = crate::text::str_chars(s);
    match x_parse_ipv4_end(&cs, 0) {
        Some((v, e)) if e == cs.len() => Some(IpAddr::V4(v)),
        _ => {
            match x_parse_ipv6(&cs) {
                Some(v) => Some(IpAddr::V6(v)),
                None => None,
            }
        },
    }
}

} // verus!
