//! JSON values, a verified parser and a verified serialiser.
//!
//! Every response body of the controller is JSON; every request body the
//! library produces is JSON. The wire format is modelled by [`Json`] (an
//! executable tree) and [`JsonV`] (its mathematical model). Parsing and
//! serialising are specified by spec functions over `Seq<char>` and the
//! executable code is proved to agree with them exactly.
//!
//! Numbers are kept exactly when they are integers that fit an `i128`;
//! any other number (fractional, exponent form, or out of range) parses
//! to [`Json::Inexact`], whose value the library never reads — the
//! controller's envelopes only carry integers where the library looks.

use vstd::prelude::*;

verus! {

broadcast use vstd::std_specs::vec::group_vec_axioms, vstd::seq::group_seq_axioms;

/// A JSON document, as the library sees one.
pub enum Json {
    Null,
    Bool(bool),
    /// An integer number.
    Num(i128),
    /// A number that is not an integer representable in an `i128`; its
    /// value is not kept.
    Inexact,
    Str(String),
    Arr(Vec<Json>),
    Obj(Vec<(String, Json)>),
}

/// Mathematical model of a [`Json`] tree: strings become `Seq<char>`,
/// vectors become `Seq`, numbers become unbounded integers.
pub enum JsonV {
    Null,
    Bool(bool),
    Num(int),
    Inexact,
    Str(Seq<char>),
    Arr(Seq<JsonV>),
    Obj(Seq<(Seq<char>, JsonV)>),
}

/// Model of a sequence of JSON values: each element viewed.
pub open spec fn json_seq_view(s: Seq<Json>) -> Seq<JsonV>
    decreases s,
{
    if s.len() == 0 {
        Seq::empty()
    } else {
        seq![s[0]@] + json_seq_view(s.subrange(1, s.len() as int))
    }
}

/// Model of an object's entry list: each key viewed as a `Seq<char>`,
/// each value viewed as a [`JsonV`].
pub open spec fn json_entry_seq_view(s: Seq<(String, Json)>) -> Seq<(Seq<char>, JsonV)>
    decreases s,
{
    if s.len() == 0 {
        Seq::empty()
    } else {
        seq![(s[0].0@, s[0].1@)] + json_entry_seq_view(s.subrange(1, s.len() as int))
    }
}

impl View for Json {
    type V = JsonV;

    open spec fn view(&self) -> JsonV
        decreases self,
    {
        match self {
            Json::Null => JsonV::Null,
            Json::Bool(b) => JsonV::Bool(*b),
            Json::Num(n) => JsonV::Num(*n as int),
            Json::Inexact => JsonV::Inexact,
            Json::Str(s) => JsonV::Str(s@),
            Json::Arr(items) => JsonV::Arr(json_seq_view(items@)),
            Json::Obj(entries) => JsonV::Obj(json_entry_seq_view(entries@)),
        }
    }
}

/// Pointwise description of [`json_seq_view`].
pub broadcast proof fn lemma_json_seq_view(s: Seq<Json>)
    ensures
        #[trigger] json_seq_view(s).len() == s.len(),
        forall|i: int| 0 <= i < s.len() ==> json_seq_view(s)[i] == #[trigger] s[i]@,
    decreases s.len(),
{
    if s.len() > 0 {
        let rest = s.subrange(1, s.len() as int);
        lemma_json_seq_view(rest);
        assert(json_seq_view(s) == seq![s[0]@] + json_seq_view(rest));
        assert(json_seq_view(s).len() == s.len());
        assert forall|i: int| 0 <= i < s.len() implies json_seq_view(s)[i] == #[trigger] s[i]@ by {
            if i > 0 {
                assert(json_seq_view(s)[i] == json_seq_view(rest)[i - 1]);
                assert(rest[i - 1] == s[i]);
            }
        }
    }
}

/// Pointwise description of [`json_entry_seq_view`].
pub broadcast proof fn lemma_json_entry_seq_view(s: Seq<(String, Json)>)
    ensures
        #[trigger] json_entry_seq_view(s).len() == s.len(),
        forall|i: int| 0 <= i < s.len() ==> json_entry_seq_view(s)[i] == (
        #[trigger] s[i].0@,
        s[i].1@,
        ),
    decreases s.len(),
{
    if s.len() > 0 {
        let rest = s.subrange(1, s.len() as int);
        lemma_json_entry_seq_view(rest);
        assert(json_entry_seq_view(s) == seq![(s[0].0@, s[0].1@)] + json_entry_seq_view(rest));
        assert(json_entry_seq_view(s).len() == s.len());
        assert forall|i: int|
            0 <= i < s.len() implies json_entry_seq_view(s)[i] == (#[trigger] s[i].0@, s[i].1@) by {
            if i > 0 {
                assert(json_entry_seq_view(s)[i] == json_entry_seq_view(rest)[i - 1]);
                assert(rest[i - 1] == s[i]);
            }
        }
    }
}

/// First value bound to `key` in an object's entry list, if any.
pub open spec fn obj_get(entries: Seq<(Seq<char>, JsonV)>, key: Seq<char>) -> Option<JsonV>
    decreases entries.len(),
{
    if entries.len() == 0 {
        None
    } else if entries[0].0 == key {
        Some(entries[0].1)
    } else {
        obj_get(entries.drop_first(), key)
    }
}

/// Looks a key up in a JSON value: `None` when the value is not an object
/// or the key is absent.
pub open spec fn jv_get(v: JsonV, key: Seq<char>) -> Option<JsonV> {
    match v {
        JsonV::Obj(entries) => obj_get(entries, key),
        _ => None,
    }
}

// ------------------------------------------------------------------
// Parsing, specification level.
//
// The grammar is standard JSON. Positions are indices into the input
// character sequence; every function returns the parsed entity together
// with the index of the first character it did not consume, or `None`
// on a syntax error. The value/element/member functions thread a gas
// counter so that they are total; the top-level entry point supplies
// more gas than any input can consume.
// ------------------------------------------------------------------

/// JSON insignificant whitespace.
pub open spec fn is_ws(c: char) -> bool {
    c == ' ' || c == '\t' || c == '\n' || c == '\r'
}

pub open spec fn is_digit(c: char) -> bool {
    '0' <= c && c <= '9'
}

pub open spec fn is_hex_digit(c: char) -> bool {
    is_digit(c) || ('a' <= c && c <= 'f') || ('A' <= c && c <= 'F')
}

pub open spec fn digit_val(c: char) -> int {
    c as u32 - '0' as u32
}

pub open spec fn hex_val(c: char) -> int {
    if is_digit(c) {
        c as u32 - '0' as u32
    } else if 'a' <= c && c <= 'f' {
        c as u32 - 'a' as u32 + 10
    } else {
        c as u32 - 'A' as u32 + 10
    }
}

/// Index of the first non-whitespace character at or after `i`.
pub open spec fn sp_ws(s: Seq<char>, i: int) -> int
    decreases s.len() - i,
{
    if 0 <= i && i < s.len() && is_ws(s[i]) {
        sp_ws(s, i + 1)
    } else {
        i
    }
}

/// Index of the first non-digit character at or after `i`.
pub open spec fn sp_digits_end(s: Seq<char>, i: int) -> int
    decreases s.len() - i,
{
    if 0 <= i && i < s.len() && is_digit(s[i]) {
        sp_digits_end(s, i + 1)
    } else {
        i
    }
}

/// Value of the digit run `s[i..j)`, most significant digit first.
pub open spec fn sp_digits_val(s: Seq<char>, i: int, j: int) -> int
    decreases j - i,
{
    if i < j {
        sp_digits_val(s, i, j - 1) * 10 + digit_val(s[j - 1])
    } else {
        0
    }
}

/// End of an optional fraction part starting at `i` (`None`: a dot not
/// followed by a digit).
pub open spec fn sp_frac_end(s: Seq<char>, i: int) -> Option<int> {
    if 0 <= i && i < s.len() && s[i] == '.' {
        if i + 1 < s.len() && is_digit(s[i + 1]) {
            Some(sp_digits_end(s, i + 1))
        } else {
            None
        }
    } else {
        Some(i)
    }
}

/// End of an optional exponent part starting at `i` (`None`: an `e`/`E`
/// not followed by optionally signed digits).
pub open spec fn sp_exp_end(s: Seq<char>, i: int) -> Option<int> {
    if 0 <= i && i < s.len() && (s[i] == 'e' || s[i] == 'E') {
        let k = if i + 1 < s.len() && (s[i + 1] == '+' || s[i + 1] == '-') {
            i + 2
        } else {
            i + 1
        };
        if k < s.len() && is_digit(s[k]) {
            Some(sp_digits_end(s, k))
        } else {
            None
        }
    } else {
        Some(i)
    }
}

/// How many digits of an integer literal the library keeps exactly;
/// longer literals (and all fractional or exponent literals) parse to
/// [`JsonV::Inexact`].
pub open spec fn max_exact_digits() -> int {
    30
}

/// A number starting at `i`: optional minus, an integer part without
/// superfluous leading zero, optional fraction and exponent.
pub open spec fn sp_number(s: Seq<char>, i: int) -> Option<(JsonV, int)> {
    let neg = 0 <= i && i < s.len() && s[i] == '-';
    let d0 = if neg {
        i + 1
    } else {
        i
    };
    if !(0 <= d0 && d0 < s.len() && is_digit(s[d0])) {
        None
    } else {
        let dend = sp_digits_end(s, d0);
        if s[d0] == '0' && dend > d0 + 1 {
            None
        } else {
            match sp_frac_end(s, dend) {
                None => None,
                Some(fend) => match sp_exp_end(s, fend) {
                    None => None,
                    Some(eend) => {
                        if eend == dend {
                            if dend - d0 > max_exact_digits() {
                                Some((JsonV::Inexact, eend))
                            } else {
                                let v = sp_digits_val(s, d0, dend);
                                Some(
                                    (
                                        JsonV::Num(
                                            if neg {
                                                -v
                                            } else {
                                                v
                                            },
                                        ),
                                        eend,
                                    ),
                                )
                            }
                        } else {
                            Some((JsonV::Inexact, eend))
                        }
                    },
                },
            }
        }
    }
}

/// Prepends a character to the result of a string-body parse.
pub open spec fn sp_cons(c: char, r: Option<(Seq<char>, int)>) -> Option<(Seq<char>, int)> {
    match r {
        None => None,
        Some((cs, j)) => Some((seq![c] + cs, j)),
    }
}

/// Value of the four hex digits `s[i..i+4)`.
pub open spec fn sp_hex4(s: Seq<char>, i: int) -> int {
    hex_val(s[i]) * 4096 + hex_val(s[i + 1]) * 256 + hex_val(s[i + 2]) * 16 + hex_val(s[i + 3])
}

pub open spec fn all_hex4(s: Seq<char>, i: int) -> bool {
    is_hex_digit(s[i]) && is_hex_digit(s[i + 1]) && is_hex_digit(s[i + 2]) && is_hex_digit(
        s[i + 3],
    )
}

/// Body of a string literal, starting just after a `"`: ends at the
/// closing quote, processes escapes, combines surrogate pairs, and
/// rejects unescaped control characters and lone surrogates.
pub open spec fn sp_string(s: Seq<char>, i: int) -> Option<(Seq<char>, int)>
    decreases s.len() - i,
{
    if !(0 <= i && i < s.len()) {
        None
    } else if s[i] == '"' {
        Some((Seq::empty(), i + 1))
    } else if s[i] == '\\' {
        if i + 2 > s.len() {
            None
        } else {
            let e = s[i + 1];
            if e == '"' || e == '\\' || e == '/' {
                sp_cons(e, sp_string(s, i + 2))
            } else if e == 'b' {
                sp_cons('\u{0008}', sp_string(s, i + 2))
            } else if e == 'f' {
                sp_cons('\u{000C}', sp_string(s, i + 2))
            } else if e == 'n' {
                sp_cons('\n', sp_string(s, i + 2))
            } else if e == 'r' {
                sp_cons('\r', sp_string(s, i + 2))
            } else if e == 't' {
                sp_cons('\t', sp_string(s, i + 2))
            } else if e == 'u' {
                if i + 6 > s.len() || !all_hex4(s, i + 2) {
                    None
                } else {
                    let h = sp_hex4(s, i + 2);
                    if 0xD800 <= h && h < 0xDC00 {
                        if i + 12 <= s.len() && s[i + 6] == '\\' && s[i + 7] == 'u' && all_hex4(
                            s,
                            i + 8,
                        ) {
                            let l = sp_hex4(s, i + 8);
                            if 0xDC00 <= l && l < 0xE000 {
                                let cp = 0x10000 + (h - 0xD800) * 0x400 + (l - 0xDC00);
                                sp_cons(((cp as u32) as char), sp_string(s, i + 12))
                            } else {
                                None
                            }
                        } else {
                            None
                        }
                    } else if 0xDC00 <= h && h < 0xE000 {
                        None
                    } else {
                        sp_cons(((h as u32) as char), sp_string(s, i + 6))
                    }
                }
            } else {
                None
            }
        }
    } else if (s[i] as u32) < 0x20 {
        None
    } else {
        sp_cons(s[i], sp_string(s, i + 1))
    }
}

/// A keyword (`null`, `true`, `false`) spelled out at `i`.
pub open spec fn sp_keyword_at(s: Seq<char>, i: int, kw: Seq<char>) -> bool {
    &&& i + kw.len() <= s.len()
    &&& forall|k: int| 0 <= k < kw.len() ==> s[i + k] == kw[k]
}

/// A JSON value starting exactly at `i` (no surrounding whitespace).
pub open spec fn sp_value(s: Seq<char>, i: int, g: nat) -> Option<(JsonV, int)>
    decreases g,
{
    if g == 0 {
        None
    } else if !(0 <= i && i < s.len()) {
        None
    } else {
        let c = s[i];
        if c == 'n' {
            if sp_keyword_at(s, i, seq!['n', 'u', 'l', 'l']) {
                Some((JsonV::Null, i + 4))
            } else {
                None
            }
        } else if c == 't' {
            if sp_keyword_at(s, i, seq!['t', 'r', 'u', 'e']) {
                Some((JsonV::Bool(true), i + 4))
            } else {
                None
            }
        } else if c == 'f' {
            if sp_keyword_at(s, i, seq!['f', 'a', 'l', 's', 'e']) {
                Some((JsonV::Bool(false), i + 5))
            } else {
                None
            }
        } else if c == '"' {
            match sp_string(s, i + 1) {
                None => None,
                Some((cs, j)) => Some((JsonV::Str(cs), j)),
            }
        } else if c == '[' {
            let j = sp_ws(s, i + 1);
            if j < s.len() && s[j] == ']' {
                Some((JsonV::Arr(Seq::empty()), j + 1))
            } else {
                match sp_elements(s, j, (g - 1) as nat) {
                    None => None,
                    Some((items, k)) => Some((JsonV::Arr(items), k)),
                }
            }
        } else if c == '{' {
            let j = sp_ws(s, i + 1);
            if j < s.len() && s[j] == '}' {
                Some((JsonV::Obj(Seq::empty()), j + 1))
            } else {
                match sp_members(s, j, (g - 1) as nat) {
                    None => None,
                    Some((entries, k)) => Some((JsonV::Obj(entries), k)),
                }
            }
        } else {
            sp_number(s, i)
        }
    }
}

/// One or more comma-separated array elements starting at `i`, up to and
/// including the closing `]`.
pub open spec fn sp_elements(s: Seq<char>, i: int, g: nat) -> Option<(Seq<JsonV>, int)>
    decreases g,
{
    if g == 0 {
        None
    } else {
        match sp_value(s, i, (g - 1) as nat) {
            None => None,
            Some((v, j)) => {
                let k = sp_ws(s, j);
                if k < s.len() && s[k] == ',' {
                    match sp_elements(s, sp_ws(s, k + 1), (g - 1) as nat) {
                        None => None,
                        Some((rest, m)) => Some((seq![v] + rest, m)),
                    }
                } else if k < s.len() && s[k] == ']' {
                    Some((seq![v], k + 1))
                } else {
                    None
                }
            },
        }
    }
}

/// One or more comma-separated object members starting at `i`, up to and
/// including the closing `}`.
pub open spec fn sp_members(s: Seq<char>, i: int, g: nat) -> Option<
    (Seq<(Seq<char>, JsonV)>, int),
>
    decreases g,
{
    if g == 0 {
        None
    } else if !(0 <= i && i < s.len() && s[i] == '"') {
        None
    } else {
        match sp_string(s, i + 1) {
            None => None,
            Some((key, j)) => {
                let k = sp_ws(s, j);
                if !(k < s.len() && s[k] == ':') {
                    None
                } else {
                    match sp_value(s, sp_ws(s, k + 1), (g - 1) as nat) {
                        None => None,
                        Some((v, m)) => {
                            let p = sp_ws(s, m);
                            if p < s.len() && s[p] == ',' {
                                match sp_members(s, sp_ws(s, p + 1), (g - 1) as nat) {
                                    None => None,
                                    Some((rest, q)) => Some((seq![(key, v)] + rest, q)),
                                }
                            } else if p < s.len() && s[p] == '}' {
                                Some((seq![(key, v)], p + 1))
                            } else {
                                None
                            }
                        },
                    }
                }
            },
        }
    }
}

/// Gas sufficient for any input: parsing consumes at least one character
/// between consecutive gas decrements.
pub open spec fn sp_gas(s: Seq<char>) -> nat {
    (2 * s.len() + 2) as nat
}

/// The document parse: optional whitespace, one value, optional
/// whitespace, end of input.
pub open spec fn sp_parse(s: Seq<char>) -> Option<JsonV> {
    match sp_value(s, sp_ws(s, 0), sp_gas(s)) {
        None => None,
        Some((v, j)) => if sp_ws(s, j) == s.len() {
            Some(v)
        } else {
            None
        },
    }
}

// ------------------------------------------------------------------
// Parsing, executable level. Each function is proved to agree exactly
// with its specification counterpart.
// ------------------------------------------------------------------

/// Powers of ten, for bounding digit-run values.
pub open spec fn pow10(n: nat) -> int
    decreases n,
{
    if n == 0 {
        1
    } else {
        10 * pow10((n - 1) as nat)
    }
}

proof fn lemma_pow10_le(a: nat, b: nat)
    requires
        a <= b,
    ensures
        pow10(a) <= pow10(b),
        pow10(a) >= 1,
    decreases b,
{
    if b > 0 {
        if a == b {
            lemma_pow10_le((b - 1) as nat, (b - 1) as nat);
        } else {
            lemma_pow10_le(a, (b - 1) as nat);
        }
    }
}

proof fn lemma_pow10_30_bound()
    ensures
        pow10(30) < 0x8000000000000000000000000000i128 as int,
{
    reveal_with_fuel(pow10, 31);
}

pub(crate) proof fn lemma_digits_val_bound(s: Seq<char>, i: int, j: int)
    requires
        i <= j,
        forall|k: int| i <= k < j ==> is_digit(#[trigger] s[k]),
    ensures
        0 <= sp_digits_val(s, i, j) < pow10((j - i) as nat),
    decreases j - i,
{
    if i < j {
        lemma_digits_val_bound(s, i, j - 1);
        assert(is_digit(s[j - 1]));
        assert(digit_val(s[j - 1]) <= 9);
        vstd::arithmetic::mul::lemma_mul_inequality(
            sp_digits_val(s, i, j - 1),
            pow10((j - i - 1) as nat) - 1,
            10,
        );
    }
}

/// Index of the first non-whitespace character at or after `i`.
pub(crate) fn x_ws(s: &Vec<char>, i: usize) -> (r: usize)
    requires
        i <= s@.len(),
    ensures
        r as int == sp_ws(s@, i as int),
        i <= r <= s@.len(),
{
    let mut r = i;
    while r < s.len() && (s[r] == ' ' || s[r] == '\t' || s[r] == '\n' || s[r] == '\r')
        invariant
            i <= r <= s@.len(),
            sp_ws(s@, i as int) == sp_ws(s@, r as int),
        decreases s@.len() - r,
    {
        proof {
            assert(sp_ws(s@, r as int) == sp_ws(s@, r as int + 1));
        }
        r = r + 1;
    }
    proof {
        assert(sp_ws(s@, r as int) == r as int);
    }
    r
}

/// Index of the first non-digit character at or after `i`.
pub(crate) fn x_digits_end(s: &Vec<char>, i: usize) -> (r: usize)
    requires
        i <= s@.len(),
    ensures
        r as int == sp_digits_end(s@, i as int),
        i <= r <= s@.len(),
        forall|k: int| i <= k < r ==> is_digit(#[trigger] s@[k]),
{
    let mut r = i;
    while r < s.len() && '0' <= s[r] && s[r] <= '9'
        invariant
            i <= r <= s@.len(),
            sp_digits_end(s@, i as int) == sp_digits_end(s@, r as int),
            forall|k: int| i <= k < r ==> is_digit(#[trigger] s@[k]),
        decreases s@.len() - r,
    {
        proof {
            assert(sp_digits_end(s@, r as int) == sp_digits_end(s@, r as int + 1));
        }
        r = r + 1;
    }
    proof {
        assert(sp_digits_end(s@, r as int) == r as int);
    }
    r
}

/// Value of the digit run `s[i..j)`.
pub(crate) fn x_digits_val(s: &Vec<char>, i: usize, j: usize) -> (r: i128)
    requires
        i <= j <= s@.len(),
        j - i <= max_exact_digits(),
        forall|k: int| i <= k < j ==> is_digit(#[trigger] s@[k]),
    ensures
        r as int == sp_digits_val(s@, i as int, j as int),
        r >= 0,
{
    proof {
        lemma_pow10_30_bound();
    }
    let mut acc: i128 = 0;
    let mut k = i;
    while k < j
        invariant
            i <= k <= j <= s@.len(),
            j - i <= max_exact_digits(),
            forall|m: int| i <= m < j ==> is_digit(#[trigger] s@[m]),
            acc as int == sp_digits_val(s@, i as int, k as int),
            0 <= acc,
            (acc as int) < pow10((k - i) as nat),
            pow10(30) < 0x8000000000000000000000000000i128 as int,
        decreases j - k,
    {
        proof {
            lemma_digits_val_bound(s@, i as int, k as int);
            lemma_pow10_le(((k - i) as nat) + 1, 30);
            vstd::arithmetic::mul::lemma_mul_inequality(
                acc as int,
                pow10((k - i) as nat) - 1,
                10,
            );
        }
        let d = (s[k] as u32) - ('0' as u32);
        acc = acc * 10 + (d as i128);
        k = k + 1;
    }
    acc
}

/// End of an optional fraction part.
fn x_frac_end(s: &Vec<char>, i: usize) -> (r: Option<usize>)
    requires
        i <= s@.len(),
    ensures
        match sp_frac_end(s@, i as int) {
            None => r is None,
            Some(j) => r matches Some(e) && e as int == j && i <= e <= s@.len(),
        },
{
    if i < s.len() && s[i] == '.' {
        if i + 1 < s.len() && '0' <= s[i + 1] && s[i + 1] <= '9' {
            Some(x_digits_end(s, i + 1))
        } else {
            None
        }
    } else {
        Some(i)
    }
}

/// End of an optional exponent part.
fn x_exp_end(s: &Vec<char>, i: usize) -> (r: Option<usize>)
    requires
        i <= s@.len(),
    ensures
        match sp_exp_end(s@, i as int) {
            None => r is None,
            Some(j) => r matches Some(e) && e as int == j && i <= e <= s@.len(),
        },
{
    if i < s.len() && (s[i] == 'e' || s[i] == 'E') {
        let k = if i + 1 < s.len() && (s[i + 1] == '+' || s[i + 1] == '-') {
            i + 2
        } else {
            i + 1
        };
        if k < s.len() && '0' <= s[k] && s[k] <= '9' {
            Some(x_digits_end(s, k))
        } else {
            None
        }
    } else {
        Some(i)
    }
}

fn c_is_hex(c: char) -> (r: bool)
    ensures
        r == is_hex_digit(c),
{
    ('0' <= c && c <= '9') || ('a' <= c && c <= 'f') || ('A' <= c && c <= 'F')
}

fn c_hex_val(c: char) -> (r: u32)
    requires
        is_hex_digit(c),
    ensures
        r as int == hex_val(c),
        r <= 15,
{
    let u = c as u32;
    if u <= '9' as u32 {
        u - '0' as u32
    } else if u >= 'a' as u32 {
        u - 'a' as u32 + 10
    } else {
        u - 'A' as u32 + 10
    }
}

/// Value of the four hex digits `s[i..i+4)`.
fn x_hex4(s: &Vec<char>, i: usize) -> (r: u32)
    requires
        i + 4 <= s@.len(),
        all_hex4(s@, i as int),
    ensures
        r as int == sp_hex4(s@, i as int),
        r <= 0xFFFF,
{
    let n = s.len();
    c_hex_val(s[i]) * 4096 + c_hex_val(s[i + 1]) * 256 + c_hex_val(s[i + 2]) * 16 + c_hex_val(
        s[i + 3],
    )
}

/// Body of a string literal, starting just after the opening quote.
#[verifier::rlimit(100)]
fn x_string(s: &Vec<char>, i: usize) -> (r: Option<(Vec<char>, usize)>)
    requires
        i <= s@.len(),
    ensures
        match sp_string(s@, i as int) {
            None => r is None,
            Some((cs, j)) => r matches Some((v, e)) && v@ == cs && e as int == j && e <= s@.len(),
        },
{
    let mut acc: Vec<char> = Vec::new();
    let mut r = i;
    loop
        invariant
            i <= r <= s@.len(),
            (match sp_string(s@, r as int) {
                None => sp_string(s@, i as int) is None,
                Some((cs, j)) => sp_string(s@, i as int) matches Some((cs0, j0)) && cs0 == acc@
                    + cs && j0 == j,
            }),
        decreases s@.len() - r,
    {
        if r >= s.len() {
            return None;
        }
        let c = s[r];
        if c == '"' {
            proof {
                assert(acc@ + Seq::<char>::empty() =~= acc@);
            }
            return Some((acc, r + 1));
        }
        let (ch, nr): (char, usize) = if c == '\\' {
            if s.len() - r < 2 {
                return None;
            }
            let e = s[r + 1];
            if e == '"' || e == '\\' || e == '/' {
                (e, r + 2)
            } else if e == 'b' {
                ('\u{0008}', r + 2)
            } else if e == 'f' {
                ('\u{000C}', r + 2)
            } else if e == 'n' {
                ('\n', r + 2)
            } else if e == 'r' {
                ('\r', r + 2)
            } else if e == 't' {
                ('\t', r + 2)
            } else if e == 'u' {
                if s.len() - r < 6 {
                    return None;
                }
                if !(c_is_hex(s[r + 2]) && c_is_hex(s[r + 3]) && c_is_hex(s[r + 4]) && c_is_hex(
                    s[r + 5],
                )) {
                    return None;
                }
                let h = x_hex4(s, r + 2);
                if 0xD800 <= h && h < 0xDC00 {
                    if !(s.len() - r >= 12 && s[r + 6] == '\\' && s[r + 7] == 'u') {
                        return None;
                    }
                    if !(c_is_hex(s[r + 8]) && c_is_hex(s[r + 9]) && c_is_hex(s[r + 10])
                        && c_is_hex(s[r + 11])) {
                        return None;
                    }
                    let l = x_hex4(s, r + 8);
                    if !(0xDC00 <= l && l < 0xE000) {
                        return None;
                    }
                    let cp = 0x10000 + (h - 0xD800) * 0x400 + (l - 0xDC00);
                    match crate::text::char_from_u32_checked(cp) {
                        Some(u) => (u, r + 12),
                        None => vstd::pervasive::unreached(),
                    }
                } else if 0xDC00 <= h && h < 0xE000 {
                    return None;
                } else {
                    match crate::text::char_from_u32_checked(h) {
                        Some(u) => (u, r + 6),
                        None => vstd::pervasive::unreached(),
                    }
                }
            } else {
                return None;
            }
        } else if (c as u32) < 0x20 {
            return None;
        } else {
            (c, r + 1)
        };
        proof {
            assert(sp_string(s@, r as int) == sp_cons(ch, sp_string(s@, nr as int)));
            if sp_string(s@, nr as int) is Some {
                let (cs2, j2) = sp_string(s@, nr as int)->Some_0;
                assert((acc@.push(ch)) + cs2 =~= acc@ + (seq![ch] + cs2));
            }
        }
        acc.push(ch);
        r = nr;
    }
}

/// A number starting at `i`.
fn x_number(s: &Vec<char>, i: usize) -> (r: Option<(Json, usize)>)
    requires
        i <= s@.len(),
    ensures
        match sp_number(s@, i as int) {
            None => r is None,
            Some((v, j)) => r matches Some((jx, e)) && jx@ == v && e as int == j && e <= s@.len(),
        },
{
    let neg = i < s.len() && s[i] == '-';
    let d0 = if neg {
        i + 1
    } else {
        i
    };
    if !(d0 < s.len() && '0' <= s[d0] && s[d0] <= '9') {
        return None;
    }
    let dend = x_digits_end(s, d0);
    if s[d0] == '0' && dend > d0 + 1 {
        return None;
    }
    let fend = match x_frac_end(s, dend) {
        None => {
            return None;
        },
        Some(f) => f,
    };
    let eend = match x_exp_end(s, fend) {
        None => {
            return None;
        },
        Some(e) => e,
    };
    if eend == dend {
        if dend - d0 > 30 {
            Some((Json::Inexact, eend))
        } else {
            let v = x_digits_val(s, d0, dend);
            proof {
                lemma_digits_val_bound(s@, d0 as int, dend as int);
            }
            if neg {
                Some((Json::Num(-v), eend))
            } else {
                Some((Json::Num(v), eend))
            }
        }
    } else {
        Some((Json::Inexact, eend))
    }
}

/// Viewing a pushed sequence appends the pushed element's view.
proof fn lemma_json_seq_view_push(s: Seq<Json>, j: Json)
    ensures
        json_seq_view(s.push(j)) == json_seq_view(s) + seq![j@],
{
    lemma_json_seq_view(s.push(j));
    lemma_json_seq_view(s);
    assert forall|k: int| 0 <= k < s.len() + 1 implies json_seq_view(s.push(j))[k] == (
    json_seq_view(s) + seq![j@])[k] by {
        assert(json_seq_view(s.push(j))[k] == s.push(j)[k]@);
        if k < s.len() {
            assert(s.push(j)[k] == s[k]);
            assert(json_seq_view(s)[k] == s[k]@);
        } else {
            assert(s.push(j)[k] == j);
        }
    }
    assert(json_seq_view(s.push(j)) =~= json_seq_view(s) + seq![j@]);
}

proof fn lemma_json_entry_seq_view_push(s: Seq<(String, Json)>, e: (String, Json))
    ensures
        json_entry_seq_view(s.push(e)) == json_entry_seq_view(s) + seq![(e.0@, e.1@)],
{
    lemma_json_entry_seq_view(s.push(e));
    lemma_json_entry_seq_view(s);
    assert forall|k: int| 0 <= k < s.len() + 1 implies json_entry_seq_view(s.push(e))[k] == (
    json_entry_seq_view(s) + seq![(e.0@, e.1@)])[k] by {
        assert(json_entry_seq_view(s.push(e))[k] == (s.push(e)[k].0@, s.push(e)[k].1@));
        if k < s.len() {
            assert(s.push(e)[k] == s[k]);
            assert(json_entry_seq_view(s)[k] == (s[k].0@, s[k].1@));
        } else {
            assert(s.push(e)[k] == e);
        }
    }
    assert(json_entry_seq_view(s.push(e)) =~= json_entry_seq_view(s) + seq![(e.0@, e.1@)]);
}

/// A JSON value starting exactly at `i`.
#[verifier::rlimit(100)]
fn x_value(s: &Vec<char>, i: usize, g: u128) -> (r: Option<(Json, usize)>)
    requires
        i <= s@.len(),
    ensures
        match sp_value(s@, i as int, g as nat) {
            None => r is None,
            Some((v, j)) => r matches Some((jx, e)) && jx@ == v && e as int == j && e <= s@.len(),
        },
    decreases g,
{
    if g == 0 {
        return None;
    }
    if i >= s.len() {
        return None;
    }
    let c = s[i];
    if c == 'n' {
        if s.len() - i >= 4 && s[i + 1] == 'u' && s[i + 2] == 'l' && s[i + 3] == 'l' {
            proof {
                assert(sp_keyword_at(s@, i as int, seq!['n', 'u', 'l', 'l']));
            }
            Some((Json::Null, i + 4))
        } else {
            proof {
                let kw = seq!['n', 'u', 'l', 'l'];
                if i + 4 <= s@.len() {
                    assert(!(s@[i + 1] == kw[1] && s@[i + 2] == kw[2] && s@[i + 3] == kw[3]));
                }
            }
            None
        }
    } else if c == 't' {
        if s.len() - i >= 4 && s[i + 1] == 'r' && s[i + 2] == 'u' && s[i + 3] == 'e' {
            proof {
                assert(sp_keyword_at(s@, i as int, seq!['t', 'r', 'u', 'e']));
            }
            Some((Json::Bool(true), i + 4))
        } else {
            proof {
                let kw = seq!['t', 'r', 'u', 'e'];
                if i + 4 <= s@.len() {
                    assert(!(s@[i + 1] == kw[1] && s@[i + 2] == kw[2] && s@[i + 3] == kw[3]));
                }
            }
            None
        }
    } else if c == 'f' {
        if s.len() - i >= 5 && s[i + 1] == 'a' && s[i + 2] == 'l' && s[i + 3] == 's' && s[i + 4]
            == 'e' {
            proof {
                assert(sp_keyword_at(s@, i as int, seq!['f', 'a', 'l', 's', 'e']));
            }
            Some((Json::Bool(false), i + 5))
        } else {
            proof {
                let kw = seq!['f', 'a', 'l', 's', 'e'];
                if i + 5 <= s@.len() {
                    assert(!(s@[i + 1] == kw[1] && s@[i + 2] == kw[2] && s@[i + 3] == kw[3] && s@[i
                        + 4] == kw[4]));
                }
            }
            None
        }
    } else if c == '"' {
        match x_string(s, i + 1) {
            None => None,
            Some((cs, e)) => Some((Json::Str(crate::text::chars_string(&cs)), e)),
        }
    } else if c == '[' {
        let j = x_ws(s, i + 1);
        if j < s.len() && s[j] == ']' {
            proof {
                assert(json_seq_view(Seq::<Json>::empty()) == Seq::<JsonV>::empty());
            }
            Some((Json::Arr(Vec::new()), j + 1))
        } else {
            match x_elements(s, j, g - 1) {
                None => None,
                Some((items, e)) => Some((Json::Arr(items), e)),
            }
        }
    } else if c == '{' {
        let j = x_ws(s, i + 1);
        if j < s.len() && s[j] == '}' {
            proof {
                assert(json_entry_seq_view(Seq::<(String, Json)>::empty()) == Seq::<
                    (Seq<char>, JsonV),
                >::empty());
            }
            Some((Json::Obj(Vec::new()), j + 1))
        } else {
            match x_members(s, j, g - 1) {
                None => None,
                Some((entries, e)) => Some((Json::Obj(entries), e)),
            }
        }
    } else {
        x_number(s, i)
    }
}

/// Array elements after the opening `[` (first element not yet parsed).
#[verifier::rlimit(100)]
fn x_elements(s: &Vec<char>, i: usize, g: u128) -> (r: Option<(Vec<Json>, usize)>)
    requires
        i <= s@.len(),
    ensures
        match sp_elements(s@, i as int, g as nat) {
            None => r is None,
            Some((items, m)) => r matches Some((v, e)) && json_seq_view(v@) == items && e as int
                == m && e <= s@.len(),
        },
    decreases g,
{
    let mut acc: Vec<Json> = Vec::new();
    let mut r = i;
    let mut gr = g;
    proof {
        assert(json_seq_view(Seq::<Json>::empty()) == Seq::<JsonV>::empty());
    }
    loop
        invariant
            r <= s@.len(),
            gr <= g,
            (match sp_elements(s@, r as int, gr as nat) {
                None => sp_elements(s@, i as int, g as nat) is None,
                Some((rest, m)) => sp_elements(s@, i as int, g as nat) matches Some((items, m0))
                    && items == json_seq_view(acc@) + rest && m0 == m,
            }),
        decreases gr,
    {
        if gr == 0 {
            return None;
        }
        let (v, j) = match x_value(s, r, gr - 1) {
            None => {
                return None;
            },
            Some(p) => p,
        };
        let k = x_ws(s, j);
        if k < s.len() && s[k] == ',' {
            let nr = x_ws(s, k + 1);
            proof {
                lemma_json_seq_view_push(acc@, v);
                if sp_elements(s@, nr as int, (gr - 1) as nat) is Some {
                    let (rest2, m2) = sp_elements(s@, nr as int, (gr - 1) as nat)->Some_0;
                    assert((json_seq_view(acc@) + seq![v@]) + rest2 =~= json_seq_view(acc@) + (
                    seq![v@] + rest2));
                }
            }
            acc.push(v);
            r = nr;
            gr = gr - 1;
        } else if k < s.len() && s[k] == ']' {
            proof {
                lemma_json_seq_view_push(acc@, v);
                assert(json_seq_view(acc@) + seq![v@] =~= json_seq_view(acc@.push(v)));
            }
            acc.push(v);
            return Some((acc, k + 1));
        } else {
            return None;
        }
    }
}

/// Object members after the opening `{` (first key not yet parsed).
#[verifier::rlimit(100)]
fn x_members(s: &Vec<char>, i: usize, g: u128) -> (r: Option<(Vec<(String, Json)>, usize)>)
    requires
        i <= s@.len(),
    ensures
        match sp_members(s@, i as int, g as nat) {
            None => r is None,
            Some((entries, m)) => r matches Some((v, e)) && json_entry_seq_view(v@) == entries
                && e as int == m && e <= s@.len(),
        },
    decreases g,
{
    let mut acc: Vec<(String, Json)> = Vec::new();
    let mut r = i;
    let mut gr = g;
    proof {
        assert(json_entry_seq_view(Seq::<(String, Json)>::empty()) == Seq::<
            (Seq<char>, JsonV),
        >::empty());
    }
    loop
        invariant
            r <= s@.len(),
            gr <= g,
            (match sp_members(s@, r as int, gr as nat) {
                None => sp_members(s@, i as int, g as nat) is None,
                Some((rest, m)) => sp_members(s@, i as int, g as nat) matches Some((entries, m0))
                    && entries == json_entry_seq_view(acc@) + rest && m0 == m,
            }),
        decreases gr,
    {
        if gr == 0 {
            return None;
        }
        if !(r < s.len() && s[r] == '"') {
            return None;
        }
        let (key, j) = match x_string(s, r + 1) {
            None => {
                return None;
            },
            Some(p) => p,
        };
        let k = x_ws(s, j);
        if !(k < s.len() && s[k] == ':') {
            return None;
        }
        let vstart = x_ws(s, k + 1);
        let (v, m) = match x_value(s, vstart, gr - 1) {
            None => {
                return None;
            },
            Some(p) => p,
        };
        let p = x_ws(s, m);
        let entry = (crate::text::chars_string(&key), v);
        if p < s.len() && s[p] == ',' {
            let nr = x_ws(s, p + 1);
            proof {
                lemma_json_entry_seq_view_push(acc@, entry);
                if sp_members(s@, nr as int, (gr - 1) as nat) is Some {
                    let (rest2, m2) = sp_members(s@, nr as int, (gr - 1) as nat)->Some_0;
                    assert((json_entry_seq_view(acc@) + seq![(entry.0@, entry.1@)]) + rest2
                        =~= json_entry_seq_view(acc@) + (seq![(entry.0@, entry.1@)] + rest2));
                }
            }
            acc.push(entry);
            r = nr;
            gr = gr - 1;
        } else if p < s.len() && s[p] == '}' {
            proof {
                lemma_json_entry_seq_view_push(acc@, entry);
                assert(json_entry_seq_view(acc@) + seq![(entry.0@, entry.1@)] =~= json_entry_seq_view(
                    acc@.push(entry),
                ));
            }
            acc.push(entry);
            return Some((acc, p + 1));
        } else {
            return None;
        }
    }
}

/// Parses a complete JSON document.
///
/// The result is exactly [`sp_parse`] of the input's characters: `None`
/// on any syntax error, otherwise the parsed value.
pub fn json_parse(s: &str) -> (r: Option<Json>)
    ensures
        match sp_parse(s@) {
            None => r is None,
            Some(v) => r matches Some(j) && j@ == v,
        },
{
    let cs = crate::text::str_chars(s);
    let g: u128 = 2 * (cs.len() as u128) + 2;
    let i = x_ws(&cs, 0);
    match x_value(&cs, i, g) {
        None => None,
        Some((j, e)) => {
            let f = x_ws(&cs, e);
            if f == cs.len() {
                Some(j)
            } else {
                None
            }
        },
    }
}

// ------------------------------------------------------------------
// Serialising, specification level.
// ------------------------------------------------------------------

/// The character for one decimal digit value.
pub open spec fn digit_char(d: int) -> char {
    (('0' as u32 + d) as u32) as char
}

/// The character for one hexadecimal digit value, lower case.
pub open spec fn hex_digit_char(d: int) -> char {
    if d < 10 {
        digit_char(d)
    } else {
        (('a' as u32 + (d - 10)) as u32) as char
    }
}

/// Decimal digits of a non-negative integer, most significant first.
pub open spec fn sp_digits_of(n: int) -> Seq<char>
    decreases n,
{
    if n < 10 {
        seq![digit_char(n)]
    } else {
        sp_digits_of(n / 10).push(digit_char(n % 10))
    }
}

/// Decimal text of an integer.
pub open spec fn sp_int_chars(n: int) -> Seq<char> {
    if n < 0 {
        seq!['-'] + sp_digits_of(-n)
    } else {
        sp_digits_of(n)
    }
}

/// The serialisation of one character inside a string literal.
pub open spec fn sp_escaped_char(c: char) -> Seq<char> {
    if c == '"' {
        seq!['\\', '"']
    } else if c == '\\' {
        seq!['\\', '\\']
    } else if c == '\u{0008}' {
        seq!['\\', 'b']
    } else if c == '\u{000C}' {
        seq!['\\', 'f']
    } else if c == '\n' {
        seq!['\\', 'n']
    } else if c == '\r' {
        seq!['\\', 'r']
    } else if c == '\t' {
        seq!['\\', 't']
    } else if (c as u32) < 0x20 {
        seq![
            '\\',
            'u',
            '0',
            '0',
            hex_digit_char((c as u32 / 16) as int),
            hex_digit_char((c as u32 % 16) as int),
        ]
    } else {
        seq![c]
    }
}

/// The serialisation of a string literal's body.
pub open spec fn sp_escape(cs: Seq<char>) -> Seq<char>
    decreases cs.len(),
{
    if cs.len() == 0 {
        Seq::empty()
    } else {
        sp_escaped_char(cs[0]) + sp_escape(cs.subrange(1, cs.len() as int))
    }
}

/// The serialisation of a JSON value. [`JsonV::Inexact`] serialises as
/// `null`; the library never builds such a value into a request body.
pub open spec fn sp_ser(v: JsonV) -> Seq<char>
    decreases v, 0int, 0int,
{
    match v {
        JsonV::Null => seq!['n', 'u', 'l', 'l'],
        JsonV::Bool(b) => if b {
            seq!['t', 'r', 'u', 'e']
        } else {
            seq!['f', 'a', 'l', 's', 'e']
        },
        JsonV::Num(n) => sp_int_chars(n),
        JsonV::Inexact => seq!['n', 'u', 'l', 'l'],
        JsonV::Str(cs) => seq!['"'] + sp_escape(cs) + seq!['"'],
        JsonV::Arr(items) => seq!['['] + sp_ser_items(items) + seq![']'],
        JsonV::Obj(entries) => seq!['{'] + sp_ser_entries(entries) + seq!['}'],
    }
}

/// Comma-joined serialisations of an array's elements.
pub open spec fn sp_ser_items(items: Seq<JsonV>) -> Seq<char>
    decreases items, 1int, items.len() + 1,
{
    if items.len() == 0 {
        Seq::empty()
    } else {
        sp_ser(items[0]) + sp_ser_items_rest(items, 1)
    }
}

/// `,`-prefixed serialisations of the elements from index `k` on.
pub open spec fn sp_ser_items_rest(items: Seq<JsonV>, k: int) -> Seq<char>
    decreases items, 1int, items.len() - k,
{
    if k < 0 || k >= items.len() {
        Seq::empty()
    } else {
        seq![','] + sp_ser(items[k]) + sp_ser_items_rest(items, k + 1)
    }
}

/// The serialisation of one object member.
pub open spec fn sp_ser_entry(key: Seq<char>, v: JsonV) -> Seq<char>
    decreases v, 1int, 0int,
{
    seq!['"'] + sp_escape(key) + seq!['"', ':'] + sp_ser(v)
}

/// Comma-joined serialisations of an object's members.
pub open spec fn sp_ser_entries(entries: Seq<(Seq<char>, JsonV)>) -> Seq<char>
    decreases entries, 1int, entries.len() + 1,
{
    if entries.len() == 0 {
        Seq::empty()
    } else {
        sp_ser_entry(entries[0].0, entries[0].1) + sp_ser_entries_rest(entries, 1)
    }
}

/// `,`-prefixed serialisations of the members from index `k` on.
pub open spec fn sp_ser_entries_rest(entries: Seq<(Seq<char>, JsonV)>, k: int) -> Seq<char>
    decreases entries, 1int, entries.len() - k,
{
    if k < 0 || k >= entries.len() {
        Seq::empty()
    } else {
        seq![','] + sp_ser_entry(entries[k].0, entries[k].1) + sp_ser_entries_rest(entries, k + 1)
    }
}

// ------------------------------------------------------------------
// Serialising, executable level.
// ------------------------------------------------------------------

/// The character for one decimal or hexadecimal digit value.
pub(crate) fn x_hex_digit_char(d: u32) -> (r: char)
    requires
        d < 16,
    ensures
        r == hex_digit_char(d as int),
        d < 10 ==> r == digit_char(d as int),
{
    let v = if d < 10 {
        '0' as u32 + d
    } else {
        'a' as u32 + (d - 10)
    };
    match crate::text::char_from_u32_checked(v) {
        Some(c) => c,
        None => vstd::pervasive::unreached(),
    }
}

/// Pushes the decimal digits of `m` onto `out`.
pub(crate) fn x_digits_into(m: u128, out: &mut Vec<char>)
    ensures
        final(out)@ == old(out)@ + sp_digits_of(m as int),
    decreases m,
{
    if m < 10 {
        out.push(x_hex_digit_char(m as u32));
    } else {
        proof {
            vstd::arithmetic::div_mod::lemma_div_decreases(m as int, 10);
            vstd::arithmetic::div_mod::lemma_div_pos_is_pos(m as int, 10);
        }
        let ghost pre = out@;
        x_digits_into(m / 10, out);
        out.push(x_hex_digit_char((m % 10) as u32));
        proof {
            assert(out@ =~= pre + sp_digits_of(m as int));
        }
    }
}

/// Serialising a pushed character appends that character's escape.
proof fn lemma_sp_escape_push(a: Seq<char>, c: char)
    ensures
        sp_escape(a.push(c)) == sp_escape(a) + sp_escaped_char(c),
    decreases a.len(),
{
    let s1 = a.push(c);
    if a.len() == 0 {
        assert(s1[0] == c);
        assert(s1.subrange(1, 1) =~= Seq::<char>::empty());
        assert(sp_escape(s1.subrange(1, 1)) == Seq::<char>::empty());
        assert(sp_escape(s1) =~= sp_escape(a) + sp_escaped_char(c));
    } else {
        let asub = a.subrange(1, a.len() as int);
        lemma_sp_escape_push(asub, c);
        assert(s1[0] == a[0]);
        assert(s1.subrange(1, s1.len() as int) =~= asub.push(c));
        assert(sp_escape(s1) == sp_escaped_char(s1[0]) + sp_escape(s1.subrange(1, s1.len() as int)));
        assert(sp_escape(a) == sp_escaped_char(a[0]) + sp_escape(asub));
        assert(sp_escape(s1) =~= sp_escape(a) + sp_escaped_char(c));
    }
}

/// Pushes the escaped body of a string literal onto `out`.
fn x_escape_into(cs: &Vec<char>, out: &mut Vec<char>)
    ensures
        final(out)@ == old(out)@ + sp_escape(cs@),
{
    let mut k: usize = 0;
    proof {
        assert(cs@.subrange(0, 0) =~= Seq::<char>::empty());
        assert(out@ =~= out@ + sp_escape(cs@.subrange(0, 0)));
    }
    while k < cs.len()
        invariant
            k <= cs@.len(),
            out@ == old(out)@ + sp_escape(cs@.subrange(0, k as int)),
        decreases cs@.len() - k,
    {
        let ghost pre = out@;
        let c = cs[k];
        if c == '"' {
            out.push('\\');
            out.push('"');
        } else if c == '\\' {
            out.push('\\');
            out.push('\\');
        } else if c == '\u{0008}' {
            out.push('\\');
            out.push('b');
        } else if c == '\u{000C}' {
            out.push('\\');
            out.push('f');
        } else if c == '\n' {
            out.push('\\');
            out.push('n');
        } else if c == '\r' {
            out.push('\\');
            out.push('r');
        } else if c == '\t' {
            out.push('\\');
            out.push('t');
        } else if (c as u32) < 0x20 {
            out.push('\\');
            out.push('u');
            out.push('0');
            out.push('0');
            out.push(x_hex_digit_char(c as u32 / 16));
            out.push(x_hex_digit_char(c as u32 % 16));
        } else {
            out.push(c);
        }
        proof {
            assert(out@ =~= pre + sp_escaped_char(c));
            lemma_sp_escape_push(cs@.subrange(0, k as int), c);
            assert(cs@.subrange(0, k + 1) =~= cs@.subrange(0, k as int).push(c));
            assert(out@ =~= old(out)@ + sp_escape(cs@.subrange(0, k + 1)));
        }
        k = k + 1;
    }
    proof {
        assert(cs@.subrange(0, cs@.len() as int) =~= cs@);
    }
}

/// Pushes the serialisation of `j` onto `out`.
#[verifier::rlimit(100)]
#[verifier::loop_isolation(false)]
fn x_ser_into(j: &Json, out: &mut Vec<char>)
    ensures
        final(out)@ == old(out)@ + sp_ser(j@),
    decreases j,
{
    match j {
        Json::Null => {
            out.push('n');
            out.push('u');
            out.push('l');
            out.push('l');
            proof {
                assert(out@ =~= old(out)@ + sp_ser(j@));
            }
        },
        Json::Inexact => {
            out.push('n');
            out.push('u');
            out.push('l');
            out.push('l');
            proof {
                assert(out@ =~= old(out)@ + sp_ser(j@));
            }
        },
        Json::Bool(b) => {
            if *b {
                out.push('t');
                out.push('r');
                out.push('u');
                out.push('e');
            } else {
                out.push('f');
                out.push('a');
                out.push('l');
                out.push('s');
                out.push('e');
            }
            proof {
                assert(out@ =~= old(out)@ + sp_ser(j@));
            }
        },
        Json::Num(n) => {
            let n = *n;
            if n < 0 {
                out.push('-');
                let m: u128 = ((-(n + 1)) as u128) + 1;
                x_digits_into(m, out);
                proof {
                    assert(m as int == -(n as int));
                    assert(out@ =~= old(out)@ + sp_ser(j@));
                }
            } else {
                x_digits_into(n as u128, out);
            }
        },
        Json::Str(s) => {
            let cs = crate::text::str_chars(s.as_str());
            out.push('"');
            x_escape_into(&cs, out);
            out.push('"');
            proof {
                assert(out@ =~= old(out)@ + sp_ser(j@));
            }
        },
        Json::Arr(items) => {
            let ghost iv = json_seq_view(items@);
            proof {
                lemma_json_seq_view(items@);
            }
            out.push('[');
            let n = items.len();
            if n > 0 {
                x_ser_into(&items[0], out);
                proof {
                    assert(out@ =~= old(out)@ + seq!['['] + sp_ser(iv[0]));
                }
                let mut k: usize = 1;
                while k < n
                    invariant
                        1 <= k <= n == items@.len(),
                        iv == json_seq_view(items@),
                        iv.len() == n,
                        forall|i: int| 0 <= i < n ==> iv[i] == #[trigger] items@[i]@,
                        old(out)@ + seq!['['] + sp_ser_items(iv) == out@ + sp_ser_items_rest(
                            iv,
                            k as int,
                        ),
                    decreases n - k,
                {
                    let ghost pre = out@;
                    out.push(',');
                    x_ser_into(&items[k], out);
                    proof {
                        assert(out@ =~= pre + (seq![','] + sp_ser(iv[k as int])));
                        assert(pre + (seq![','] + sp_ser(iv[k as int])) + sp_ser_items_rest(
                            iv,
                            k as int + 1,
                        ) =~= pre + sp_ser_items_rest(iv, k as int));
                    }
                    k = k + 1;
                }
                out.push(']');
                proof {
                    assert(sp_ser_items_rest(iv, n as int) =~= Seq::<char>::empty());
                    assert(out@ =~= old(out)@ + sp_ser(j@));
                }
            } else {
                out.push(']');
                proof {
                    assert(out@ =~= old(out)@ + sp_ser(j@));
                }
            }
        },
        Json::Obj(entries) => {
            let ghost ev = json_entry_seq_view(entries@);
            proof {
                lemma_json_entry_seq_view(entries@);
            }
            out.push('{');
            let n = entries.len();
            if n > 0 {
                x_ser_entry_into(&entries[0], out);
                proof {
                    assert(out@ =~= old(out)@ + seq!['{'] + sp_ser_entry(ev[0].0, ev[0].1));
                }
                let mut k: usize = 1;
                while k < n
                    invariant
                        1 <= k <= n == entries@.len(),
                        ev == json_entry_seq_view(entries@),
                        ev.len() == n,
                        forall|i: int| 0 <= i < n ==> ev[i] == (
                        #[trigger] entries@[i].0@,
                        entries@[i].1@,
                        ),
                        old(out)@ + seq!['{'] + sp_ser_entries(ev) == out@ + sp_ser_entries_rest(
                            ev,
                            k as int,
                        ),
                    decreases n - k,
                {
                    let ghost pre = out@;
                    out.push(',');
                    x_ser_entry_into(&entries[k], out);
                    proof {
                        assert(out@ =~= pre + (seq![','] + sp_ser_entry(
                            ev[k as int].0,
                            ev[k as int].1,
                        )));
                        assert(pre + (seq![','] + sp_ser_entry(ev[k as int].0, ev[k as int].1))
                            + sp_ser_entries_rest(ev, k as int + 1) =~= pre + sp_ser_entries_rest(
                            ev,
                            k as int,
                        ));
                    }
                    k = k + 1;
                }
                out.push('}');
                proof {
                    assert(sp_ser_entries_rest(ev, n as int) =~= Seq::<char>::empty());
                    assert(out@ =~= old(out)@ + sp_ser(j@));
                }
            } else {
                out.push('}');
                proof {
                    assert(out@ =~= old(out)@ + sp_ser(j@));
                }
            }
        },
    }
}

/// Pushes the serialisation of one object member onto `out`.
fn x_ser_entry_into(entry: &(String, Json), out: &mut Vec<char>)
    ensures
        final(out)@ == old(out)@ + sp_ser_entry(entry.0@, entry.1@),
    decreases entry,
{
    let cs = crate::text::str_chars(entry.0.as_str());
    out.push('"');
    x_escape_into(&cs, out);
    out.push('"');
    out.push(':');
    x_ser_into(&entry.1, out);
    proof {
        assert(out@ =~= old(out)@ + sp_ser_entry(entry.0@, entry.1@));
    }
}

/// Appends one member to an object's entry list under construction.
pub fn push_entry(entries: &mut Vec<(String, Json)>, key: &str, val: Json)
    ensures
        json_entry_seq_view(final(entries)@) == json_entry_seq_view(old(entries)@) + seq![
            (key@, val@),
        ],
        final(entries)@.len() == old(entries)@.len() + 1,
{
    let ghost pre = entries@;
    let ghost vv = val@;
    entries.push((key.to_owned(), val));
    proof {
        let e = entries@.last();
        assert(entries@ == pre.push(e));
        lemma_json_entry_seq_view_push(pre, e);
        assert(json_entry_seq_view(entries@) =~= json_entry_seq_view(pre) + seq![(key@, vv)]);
    }
}

/// The decimal text of a number.
pub fn num_text(n: u64) -> (r: String)
    ensures
        r@ == sp_digits_of(n as int),
{
    let mut out: Vec<char> = Vec::new();
    x_digits_into(n as u128, &mut out);
    crate::text::chars_string(&out)
}

/// Serialises a JSON value to its text.
///
/// The result is exactly [`sp_ser`] of the value's model.
pub fn json_ser(j: &Json) -> (r: String)
    ensures
        r@ == sp_ser(j@),
{
    let mut out: Vec<char> = Vec::new();
    x_ser_into(j, &mut out);
    crate::text::chars_string(&out)
}

// ------------------------------------------------------------------
// Typed access to decoded values.
// ------------------------------------------------------------------

/// The string behind `key`, if the value is an object holding one there.
pub open spec fn sp_get_str(v: JsonV, key: Seq<char>) -> Option<Seq<char>> {
    match jv_get(v, key) {
        Some(JsonV::Str(s)) => Some(s),
        _ => None,
    }
}

/// The integer behind `key`, if the value is an object holding one there.
pub open spec fn sp_get_num(v: JsonV, key: Seq<char>) -> Option<int> {
    match jv_get(v, key) {
        Some(JsonV::Num(n)) => Some(n),
        _ => None,
    }
}

/// The boolean behind `key`, if the value is an object holding one there.
pub open spec fn sp_get_bool(v: JsonV, key: Seq<char>) -> Option<bool> {
    match jv_get(v, key) {
        Some(JsonV::Bool(b)) => Some(b),
        _ => None,
    }
}

/// The array behind `key`, if the value is an object holding one there.
pub open spec fn sp_get_arr(v: JsonV, key: Seq<char>) -> Option<Seq<JsonV>> {
    match jv_get(v, key) {
        Some(JsonV::Arr(items)) => Some(items),
        _ => None,
    }
}

impl Json {
    /// First value bound to `key`, when this value is an object.
    #[verifier::loop_isolation(false)]
    pub fn get<'a>(&'a self, key: &str) -> (r: Option<&'a Json>)
        ensures
            match jv_get(self@, key@) {
                None => r is None,
                Some(v) => r matches Some(p) && p@ == v,
            },
    {
        match self {
            Json::Obj(entries) => {
                let ghost ev = json_entry_seq_view(entries@);
                proof {
                    lemma_json_entry_seq_view(entries@);
                    assert(ev.subrange(0, ev.len() as int) =~= ev);
                }
                let n = entries.len();
                let mut k: usize = 0;
                while k < n
                    invariant
                        k <= n == entries@.len(),
                        ev == json_entry_seq_view(entries@),
                        ev.len() == n,
                        forall|i: int| 0 <= i < n ==> ev[i] == (
                        #[trigger] entries@[i].0@,
                        entries@[i].1@,
                        ),
                        obj_get(ev, key@) == obj_get(ev.subrange(k as int, n as int), key@),
                    decreases n - k,
                {
                    let ghost suffix = ev.subrange(k as int, n as int);
                    proof {
                        assert(suffix[0] == ev[k as int]);
                        assert(suffix.drop_first() =~= ev.subrange(k as int + 1, n as int));
                    }
                    if crate::text::str_eq(entries[k].0.as_str(), key) {
                        proof {
                            assert(suffix[0].0 == key@);
                            assert(obj_get(suffix, key@) == Some(suffix[0].1));
                            assert(jv_get(self@, key@) == Some(ev[k as int].1));
                        }
                        return Some(&entries[k].1);
                    }
                    k = k + 1;
                }
                proof {
                    assert(ev.subrange(n as int, n as int) =~= Seq::<(Seq<char>, JsonV)>::empty());
                }
                None
            },
            _ => None,
        }
    }

    /// The string behind `key`.
    pub fn get_str(&self, key: &str) -> (r: Option<String>)
        ensures
            match sp_get_str(self@, key@) {
                None => r is None,
                Some(cs) => r matches Some(s) && s@ == cs,
            },
    {
        match self.get(key) {
            Some(Json::Str(s)) => Some(s.clone()),
            _ => None,
        }
    }

    /// The integer behind `key`.
    pub fn get_num(&self, key: &str) -> (r: Option<i128>)
        ensures
            match sp_get_num(self@, key@) {
                None => r is None,
                Some(n) => r matches Some(x) && x as int == n,
            },
    {
        match self.get(key) {
            Some(Json::Num(n)) => Some(*n),
            _ => None,
        }
    }

    /// The boolean behind `key`.
    pub fn get_bool(&self, key: &str) -> (r: Option<bool>)
        ensures
            r == sp_get_bool(self@, key@),
    {
        match self.get(key) {
            Some(Json::Bool(b)) => Some(*b),
            _ => None,
        }
    }

    /// Takes the value behind `key` out of an object, by value.
    #[verifier::loop_isolation(false)]
    pub fn take(self, key: &str) -> (r: Option<Json>)
        ensures
            match jv_get(self@, key@) {
                None => r is None,
                Some(v) => r matches Some(j) && j@ == v,
            },
    {
        match self {
            Json::Obj(mut entries) => {
                let ghost ev = json_entry_seq_view(entries@);
                proof {
                    lemma_json_entry_seq_view(entries@);
                    assert(ev.subrange(0, ev.len() as int) =~= ev);
                }
                let n = entries.len();
                let mut k: usize = 0;
                while k < n
                    invariant
                        k <= n == entries@.len(),
                        ev == json_entry_seq_view(entries@),
                        ev.len() == n,
                        forall|i: int| 0 <= i < n ==> ev[i] == (
                        #[trigger] entries@[i].0@,
                        entries@[i].1@,
                        ),
                        obj_get(ev, key@) == obj_get(ev.subrange(k as int, n as int), key@),
                    decreases n - k,
                {
                    let ghost suffix = ev.subrange(k as int, n as int);
                    proof {
                        assert(suffix[0] == ev[k as int]);
                        assert(suffix.drop_first() =~= ev.subrange(k as int + 1, n as int));
                    }
                    if crate::text::str_eq(entries[k].0.as_str(), key) {
                        proof {
                            assert(suffix[0].0 == key@);
                            assert(obj_get(suffix, key@) == Some(suffix[0].1));
                        }
                        let entry = entries.swap_remove(k);
                        return Some(entry.1);
                    }
                    k = k + 1;
                }
                proof {
                    assert(ev.subrange(n as int, n as int) =~= Seq::<(Seq<char>, JsonV)>::empty());
                }
                None
            },
            _ => None,
        }
    }

    /// The array behind `key`.
    pub fn get_arr<'a>(&'a self, key: &str) -> (r: Option<&'a Vec<Json>>)
        ensures
            match sp_get_arr(self@, key@) {
                None => r is None,
                Some(items) => r matches Some(v) && json_seq_view(v@) == items,
            },
    {
        match self.get(key) {
            Some(Json::Arr(items)) => Some(items),
            _ => None,
        }
    }
}

} // verus!
