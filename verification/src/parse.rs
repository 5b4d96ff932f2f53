//! Parsing of the serialized cipher configuration.
//!
//! The configuration document is a small JSON-shaped text: one object with
//! the five fields `opaqueVersion` (unsigned integer), `oprfCs`, `keGroup`,
//! `keyExchange` (enumerated strings), and `ksf` (a tagged variant), in any
//! order, each exactly once; unknown or missing fields, duplicate fields,
//! string escapes, and numbers outside the 32-bit range are rejected.  The
//! grammar is fixed by the spec functions here; the executable parser is
//! proved to decide exactly that grammar.
use vstd::prelude::*;

use crate::Error;
use crate::config::Argon2id;
use crate::config::CipherConfiguration;
use crate::config::ConfigData;
use crate::config::KeGroup;
use crate::config::KeyExchange;
use crate::config::Ksf;
use crate::config::OprfCs;
use crate::rng::rng_from_entropy;
use vstd::string::StringSliceAdditionalSpecFns;

verus! {

broadcast use crate::config::lemma_config_view;

pub const QUOTE: u8 = 34;

pub const COMMA: u8 = 44;

pub const COLON: u8 = 58;

pub const LBRACE: u8 = 123;

pub const RBRACE: u8 = 125;

pub const BACKSLASH: u8 = 92;

pub const ZERO: u8 = 48;

/// Whitespace accepted between tokens: space, tab, line feed, carriage
/// return.
pub open spec fn is_ws(b: u8) -> bool {
    b == 32 || b == 9 || b == 10 || b == 13
}

/// A decimal digit byte.
pub open spec fn is_digit(b: u8) -> bool {
    48 <= b <= 57
}

/// The first index at or after `i` holding no whitespace.
pub open spec fn skip_ws(s: Seq<u8>, i: int) -> int
    decreases s.len() - i,
{
    if 0 <= i < s.len() && is_ws(s[i]) {
        skip_ws(s, i + 1)
    } else {
        i
    }
}

/// One expected punctuation byte: the position after it, or nothing.
pub open spec fn expect(s: Seq<u8>, i: int, b: u8) -> Option<int> {
    if 0 <= i < s.len() && s[i] == b {
        Some(i + 1)
    } else {
        None
    }
}

/// The index of the closing quote of a string whose contents start at `i`.
/// Escapes and control bytes are not part of the grammar.
pub open spec fn scan_string(s: Seq<u8>, i: int) -> Option<int>
    decreases s.len() - i,
{
    if i < 0 || i >= s.len() {
        None
    } else if s[i] == QUOTE {
        Some(i)
    } else if s[i] == BACKSLASH || s[i] < 32 {
        None
    } else {
        scan_string(s, i + 1)
    }
}

/// A quoted string at `i`: its contents and the position after the closing
/// quote.
pub open spec fn parse_string(s: Seq<u8>, i: int) -> Option<(Seq<u8>, int)> {
    match expect(s, i, QUOTE) {
        None => None,
        Some(j) => match scan_string(s, j) {
            None => None,
            Some(k) => Some((s.subrange(j, k), k + 1)),
        },
    }
}

/// The first index at or after `i` holding no digit.
pub open spec fn scan_digits(s: Seq<u8>, i: int) -> int
    decreases s.len() - i,
{
    if 0 <= i < s.len() && is_digit(s[i]) {
        scan_digits(s, i + 1)
    } else {
        i
    }
}

/// The value of the digit run `s[i..j)`, most significant digit first.
pub open spec fn digits_val(s: Seq<u8>, i: int, j: int) -> nat
    decreases j - i,
{
    if i >= j {
        0
    } else {
        digits_val(s, i, j - 1) * 10 + (s[j - 1] - 48) as nat
    }
}

/// An unsigned 32-bit number at `i`: at least one digit, no leading zero,
/// no more than ten digits, value within range.  (A run of more than ten
/// digits without a leading zero always exceeds the range.)
pub open spec fn parse_u32(s: Seq<u8>, i: int) -> Option<(u32, int)> {
    let j = scan_digits(s, i);
    if j == i {
        None
    } else if s[i] == ZERO && j > i + 1 {
        None
    } else if j - i > 10 {
        None
    } else if digits_val(s, i, j) > u32::MAX {
        None
    } else {
        Some((digits_val(s, i, j) as u32, j))
    }
}

// The field names and enumerated values of the configuration document.
// `oprfCS`, `tripleDH` and `triple-dh` are accepted spellings kept for
// compatibility with older writers.
pub open spec fn kw_opaque_version() -> Seq<u8> {
    "opaqueVersion".spec_bytes()
}

pub open spec fn kw_oprf_cs() -> Seq<u8> {
    "oprfCs".spec_bytes()
}

pub open spec fn kw_oprf_cs_alias() -> Seq<u8> {
    "oprfCS".spec_bytes()
}

pub open spec fn kw_ke_group() -> Seq<u8> {
    "keGroup".spec_bytes()
}

pub open spec fn kw_key_exchange() -> Seq<u8> {
    "keyExchange".spec_bytes()
}

pub open spec fn kw_ksf() -> Seq<u8> {
    "ksf".spec_bytes()
}

pub open spec fn kw_ristretto255() -> Seq<u8> {
    "ristretto255".spec_bytes()
}

pub open spec fn kw_triple_dh() -> Seq<u8> {
    "tripleDh".spec_bytes()
}

pub open spec fn kw_triple_dh_upper() -> Seq<u8> {
    "tripleDH".spec_bytes()
}

pub open spec fn kw_triple_dh_dashed() -> Seq<u8> {
    "triple-dh".spec_bytes()
}

pub open spec fn kw_algorithm() -> Seq<u8> {
    "algorithm".spec_bytes()
}

pub open spec fn kw_parameters() -> Seq<u8> {
    "parameters".spec_bytes()
}

pub open spec fn kw_argon2id() -> Seq<u8> {
    "argon2id".spec_bytes()
}

pub open spec fn kw_identity() -> Seq<u8> {
    "identity".spec_bytes()
}

pub open spec fn kw_memory() -> Seq<u8> {
    "memory".spec_bytes()
}

pub open spec fn kw_iterations() -> Seq<u8> {
    "iterations".spec_bytes()
}

pub open spec fn kw_parallelism() -> Seq<u8> {
    "parallelism".spec_bytes()
}

/// The Argon2id parameter fields collected so far.
#[derive(Clone, Copy)]
pub struct ParamsAcc {
    pub memory: Option<u32>,
    pub iterations: Option<u32>,
    pub parallelism: Option<u32>,
}

/// The configuration fields collected so far.
#[derive(Clone, Copy)]
pub struct TopAcc {
    pub opaque_version: Option<u32>,
    pub oprf_cs: Option<OprfCs>,
    pub ke_group: Option<KeGroup>,
    pub key_exchange: Option<KeyExchange>,
    pub ksf: Option<Ksf>,
}

/// One `"name": number` member of the Argon2id parameter object, recorded
/// into the accumulator; a repeated or unknown name is rejected.  `i` is
/// the position of the opening quote of the name.
pub open spec fn parse_param_pair(s: Seq<u8>, i: int, acc: ParamsAcc) -> Option<(ParamsAcc, int)> {
    match parse_string(s, i) {
        None => None,
        Some((key, j)) => match expect(s, skip_ws(s, j), COLON) {
            None => None,
            Some(j) => match parse_u32(s, skip_ws(s, j)) {
                None => None,
                Some((v, j)) => if key == kw_memory() {
                    if acc.memory is Some {
                        None
                    } else {
                        Some(
                            (
                                ParamsAcc {
                                    memory: Some(v),
                                    iterations: acc.iterations,
                                    parallelism: acc.parallelism,
                                },
                                j,
                            ),
                        )
                    }
                } else if key == kw_iterations() {
                    if acc.iterations is Some {
                        None
                    } else {
                        Some(
                            (
                                ParamsAcc {
                                    memory: acc.memory,
                                    iterations: Some(v),
                                    parallelism: acc.parallelism,
                                },
                                j,
                            ),
                        )
                    }
                } else if key == kw_parallelism() {
                    if acc.parallelism is Some {
                        None
                    } else {
                        Some(
                            (
                                ParamsAcc {
                                    memory: acc.memory,
                                    iterations: acc.iterations,
                                    parallelism: Some(v),
                                },
                                j,
                            ),
                        )
                    }
                } else {
                    None
                },
            },
        },
    }
}

/// The Argon2id parameter object: exactly the three cost fields, in any
/// order.  `i` is the position of the opening brace.
pub open spec fn parse_params(s: Seq<u8>, i: int) -> Option<(Argon2id, int)> {
    match expect(s, i, LBRACE) {
        None => None,
        Some(i) => match parse_param_pair(s, skip_ws(s, i), ParamsAcc { memory: None, iterations: None, parallelism: None }) {
            None => None,
            Some((acc, i)) => match expect(s, skip_ws(s, i), COMMA) {
                None => None,
                Some(i) => match parse_param_pair(s, skip_ws(s, i), acc) {
                    None => None,
                    Some((acc, i)) => match expect(s, skip_ws(s, i), COMMA) {
                        None => None,
                        Some(i) => match parse_param_pair(s, skip_ws(s, i), acc) {
                            None => None,
                            Some((acc, i)) => match expect(s, skip_ws(s, i), RBRACE) {
                                None => None,
                                Some(i) => match (acc.memory, acc.iterations, acc.parallelism) {
                                    (Some(m), Some(t), Some(p)) => Some(
                                        (Argon2id { memory: m, iterations: t, parallelism: p }, i),
                                    ),
                                    _ => None,
                                },
                            },
                        },
                    },
                },
            },
        },
    }
}

/// The `ksf` object: `algorithm` tagged `argon2id` with a parameter object,
/// in either member order, or `identity` alone.  `i` is the position of the
/// opening brace.
pub open spec fn parse_ksf(s: Seq<u8>, i: int) -> Option<(Ksf, int)> {
    match expect(s, i, LBRACE) {
        None => None,
        Some(i) => match parse_string(s, skip_ws(s, i)) {
            None => None,
            Some((key, i)) => match expect(s, skip_ws(s, i), COLON) {
                None => None,
                Some(i) => if key == kw_algorithm() {
                    parse_ksf_tag_first(s, skip_ws(s, i))
                } else if key == kw_parameters() {
                    parse_ksf_params_first(s, skip_ws(s, i))
                } else {
                    None
                },
            },
        },
    }
}

/// A `ksf` object whose `algorithm` member comes first: `identity` closes
/// the object; `argon2id` is followed by its `parameters` member.
pub open spec fn parse_ksf_tag_first(s: Seq<u8>, i: int) -> Option<(Ksf, int)> {
    match parse_string(s, i) {
        None => None,
        Some((alg, i)) => if alg == kw_identity() {
            match expect(s, skip_ws(s, i), RBRACE) {
                None => None,
                Some(i) => Some((Ksf::Identity, i)),
            }
        } else if alg == kw_argon2id() {
            match expect(s, skip_ws(s, i), COMMA) {
                None => None,
                Some(i) => match parse_string(s, skip_ws(s, i)) {
                    None => None,
                    Some((key, i)) => if key == kw_parameters() {
                        match expect(s, skip_ws(s, i), COLON) {
                            None => None,
                            Some(i) => match parse_params(s, skip_ws(s, i)) {
                                None => None,
                                Some((params, i)) => match expect(s, skip_ws(s, i), RBRACE) {
                                    None => None,
                                    Some(i) => Some((Ksf::Argon2id(params), i)),
                                },
                            },
                        }
                    } else {
                        None
                    },
                },
            }
        } else {
            None
        },
    }
}

/// A `ksf` object whose `parameters` member comes first; only `argon2id`
/// can follow.
pub open spec fn parse_ksf_params_first(s: Seq<u8>, i: int) -> Option<(Ksf, int)> {
    match parse_params(s, i) {
        None => None,
        Some((params, i)) => match expect(s, skip_ws(s, i), COMMA) {
            None => None,
            Some(i) => match parse_string(s, skip_ws(s, i)) {
                None => None,
                Some((key, i)) => if key == kw_algorithm() {
                    match expect(s, skip_ws(s, i), COLON) {
                        None => None,
                        Some(i) => match parse_string(s, skip_ws(s, i)) {
                            None => None,
                            Some((alg, i)) => if alg == kw_argon2id() {
                                match expect(s, skip_ws(s, i), RBRACE) {
                                    None => None,
                                    Some(i) => Some((Ksf::Argon2id(params), i)),
                                }
                            } else {
                                None
                            },
                        },
                    }
                } else {
                    None
                },
            },
        },
    }
}

/// One `"name": value` member of the configuration object, recorded into
/// the accumulator; a repeated or unknown name, or a value outside the
/// field's range, is rejected.  `i` is the position of the opening quote of
/// the name.
pub open spec fn parse_pair(s: Seq<u8>, i: int, acc: TopAcc) -> Option<(TopAcc, int)> {
    match parse_string(s, i) {
        None => None,
        Some((key, j)) => match expect(s, skip_ws(s, j), COLON) {
            None => None,
            Some(j) => parse_top_value(s, skip_ws(s, j), key, acc),
        },
    }
}

/// The value of one configuration member, selected by its field name.
pub open spec fn parse_top_value(s: Seq<u8>, i: int, key: Seq<u8>, acc: TopAcc) -> Option<
    (TopAcc, int),
> {
    if key == kw_opaque_version() {
        match parse_u32(s, i) {
            None => None,
            Some((v, j)) => if acc.opaque_version is Some {
                None
            } else {
                Some(
                    (
                        TopAcc {
                            opaque_version: Some(v),
                            oprf_cs: acc.oprf_cs,
                            ke_group: acc.ke_group,
                            key_exchange: acc.key_exchange,
                            ksf: acc.ksf,
                        },
                        j,
                    ),
                )
            },
        }
    } else if key == kw_oprf_cs() || key == kw_oprf_cs_alias() {
        match parse_string(s, i) {
            None => None,
            Some((v, j)) => if v == kw_ristretto255() && acc.oprf_cs is None {
                Some(
                    (
                        TopAcc {
                            opaque_version: acc.opaque_version,
                            oprf_cs: Some(OprfCs::Ristretto255),
                            ke_group: acc.ke_group,
                            key_exchange: acc.key_exchange,
                            ksf: acc.ksf,
                        },
                        j,
                    ),
                )
            } else {
                None
            },
        }
    } else if key == kw_ke_group() {
        match parse_string(s, i) {
            None => None,
            Some((v, j)) => if v == kw_ristretto255() && acc.ke_group is None {
                Some(
                    (
                        TopAcc {
                            opaque_version: acc.opaque_version,
                            oprf_cs: acc.oprf_cs,
                            ke_group: Some(KeGroup::Ristretto255),
                            key_exchange: acc.key_exchange,
                            ksf: acc.ksf,
                        },
                        j,
                    ),
                )
            } else {
                None
            },
        }
    } else if key == kw_key_exchange() {
        match parse_string(s, i) {
            None => None,
            Some((v, j)) => if (v == kw_triple_dh() || v == kw_triple_dh_upper() || v
                == kw_triple_dh_dashed()) && acc.key_exchange is None {
                Some(
                    (
                        TopAcc {
                            opaque_version: acc.opaque_version,
                            oprf_cs: acc.oprf_cs,
                            ke_group: acc.ke_group,
                            key_exchange: Some(KeyExchange::TripleDh),
                            ksf: acc.ksf,
                        },
                        j,
                    ),
                )
            } else {
                None
            },
        }
    } else if key == kw_ksf() {
        match parse_ksf(s, i) {
            None => None,
            Some((v, j)) => if acc.ksf is Some {
                None
            } else {
                Some(
                    (
                        TopAcc {
                            opaque_version: acc.opaque_version,
                            oprf_cs: acc.oprf_cs,
                            ke_group: acc.ke_group,
                            key_exchange: acc.key_exchange,
                            ksf: Some(v),
                        },
                        j,
                    ),
                )
            },
        }
    } else {
        None
    }
}

/// A comma followed by the next configuration member.
pub open spec fn parse_sep_pair(s: Seq<u8>, i: int, acc: TopAcc) -> Option<(TopAcc, int)> {
    match expect(s, skip_ws(s, i), COMMA) {
        None => None,
        Some(i) => parse_pair(s, skip_ws(s, i), acc),
    }
}

/// The closing brace, trailing whitespace, the end of the document, and the
/// completed field set.
pub open spec fn finish_top(s: Seq<u8>, i: int, acc: TopAcc) -> Option<ConfigData> {
    match expect(s, skip_ws(s, i), RBRACE) {
        None => None,
        Some(i) => if skip_ws(s, i) == s.len() {
            match (acc.opaque_version, acc.oprf_cs, acc.ke_group, acc.key_exchange, acc.ksf) {
                (Some(v), Some(o), Some(g), Some(x), Some(f)) => Some(
                    ConfigData {
                        opaque_version: v,
                        oprf_cs: o,
                        ke_group: g,
                        key_exchange: x,
                        ksf: f,
                    },
                ),
                _ => None,
            }
        } else {
            None
        },
    }
}

/// The whole configuration document: one object holding the five fields,
/// each exactly once, in any order.
pub open spec fn parse_config_bytes(s: Seq<u8>) -> Option<ConfigData> {
    match expect(s, skip_ws(s, 0), LBRACE) {
        None => None,
        Some(i) => match parse_pair(
            s,
            skip_ws(s, i),
            TopAcc {
                opaque_version: None,
                oprf_cs: None,
                ke_group: None,
                key_exchange: None,
                ksf: None,
            },
        ) {
            None => None,
            Some((acc, i)) => match parse_sep_pair(s, i, acc) {
                None => None,
                Some((acc, i)) => match parse_sep_pair(s, i, acc) {
                    None => None,
                    Some((acc, i)) => match parse_sep_pair(s, i, acc) {
                        None => None,
                        Some((acc, i)) => match parse_sep_pair(s, i, acc) {
                            None => None,
                            Some((acc, i)) => finish_top(s, i, acc),
                        },
                    },
                },
            },
        },
    }
}

/// Ten to the power `n`.
pub open spec fn pow10(n: nat) -> nat
    decreases n,
{
    if n == 0 {
        1
    } else {
        10 * pow10((n - 1) as nat)
    }
}

proof fn lemma_pow10_mono(a: nat, b: nat)
    requires
        a <= b,
    ensures
        pow10(a) <= pow10(b),
    decreases b,
{
    if a < b {
        lemma_pow10_mono(a, (b - 1) as nat);
        assert(pow10(b) == 10 * pow10((b - 1) as nat));
    }
}

proof fn lemma_pow10_9()
    ensures
        pow10(9) == 1000000000,
{
    assert(pow10(0) == 1);
    assert(pow10(1) == 10);
    assert(pow10(2) == 100);
    assert(pow10(3) == 1000);
    assert(pow10(4) == 10000);
    assert(pow10(5) == 100000);
    assert(pow10(6) == 1000000);
    assert(pow10(7) == 10000000);
    assert(pow10(8) == 100000000);
    assert(pow10(9) == 1000000000);
}

fn is_ws_x(b: u8) -> (r: bool)
    ensures
        r == is_ws(b),
{
    b == 32 || b == 9 || b == 10 || b == 13
}

fn is_digit_x(b: u8) -> (r: bool)
    ensures
        r == is_digit(b),
{
    48 <= b && b <= 57
}

/// The first index at or after `i` holding no whitespace.
fn ws_end(s: &[u8], i: usize) -> (r: usize)
    requires
        i <= s@.len(),
    ensures
        i <= r <= s@.len(),
        r == skip_ws(s@, i as int),
{
    let mut k: usize = i;
    while k < s.len()
        invariant
            i <= k <= s@.len(),
            skip_ws(s@, i as int) == skip_ws(s@, k as int),
        decreases s@.len() - k,
    {
        if !is_ws_x(s[k]) {
            proof {
                assert(skip_ws(s@, k as int) == k as int);
            }
            return k;
        }
        proof {
            assert(skip_ws(s@, k as int) == skip_ws(s@, k as int + 1));
        }
        k = k + 1;
    }
    proof {
        assert(skip_ws(s@, k as int) == k as int);
    }
    k
}

/// The expected punctuation byte at `i`, stepped over.
fn expect_x(s: &[u8], i: usize, b: u8) -> (r: Option<usize>)
    requires
        i <= s@.len(),
    ensures
        match r {
            Some(n) => expect(s@, i as int, b) == Some(n as int) && n == i + 1 && n <= s@.len(),
            None => expect(s@, i as int, b) is None,
        },
{
    if i < s.len() && s[i] == b {
        Some(i + 1)
    } else {
        None
    }
}

/// The index of the closing quote of a string whose contents start at `i`.
fn string_end(s: &[u8], i: usize) -> (r: Option<usize>)
    requires
        i <= s@.len(),
    ensures
        match r {
            Some(j) => scan_string(s@, i as int) == Some(j as int) && i <= j < s@.len()
                && s@.len() <= usize::MAX,
            None => scan_string(s@, i as int) is None,
        },
{
    let mut k: usize = i;
    while k < s.len()
        invariant
            i <= k <= s@.len(),
            scan_string(s@, i as int) == scan_string(s@, k as int),
        decreases s@.len() - k,
    {
        let b: u8 = s[k];
        if b == QUOTE {
            return Some(k);
        }
        if b == BACKSLASH || b < 32 {
            return None;
        }
        proof {
            assert(scan_string(s@, k as int) == scan_string(s@, k as int + 1));
        }
        k = k + 1;
    }
    proof {
        assert(scan_string(s@, k as int) is None);
    }
    None
}

/// A quoted string at `i`: the index of its closing quote and the position
/// after it; the contents are `s[i + 1 .. j]`.
fn parse_string_x(s: &[u8], i: usize) -> (r: Option<(usize, usize)>)
    requires
        i <= s@.len(),
    ensures
        match r {
            Some(p) => parse_string(s@, i as int) == Some(
                (s@.subrange(i as int + 1, p.0 as int), p.1 as int),
            ) && i + 1 <= p.0 < s@.len() && p.1 == p.0 + 1,
            None => parse_string(s@, i as int) is None,
        },
{
    match expect_x(s, i, QUOTE) {
        None => None,
        Some(j) => match string_end(s, j) {
            None => None,
            Some(k) => Some((k, k + 1)),
        },
    }
}

/// Whether `s[a .. b]` spells exactly the keyword `kw`.
fn bytes_eq(s: &[u8], a: usize, b: usize, kw: &[u8]) -> (r: bool)
    requires
        a <= b <= s@.len(),
    ensures
        r <==> s@.subrange(a as int, b as int) == kw@,
{
    proof {
        assert(s@.subrange(a as int, b as int).len() == b - a);
    }
    if b - a != kw.len() {
        return false;
    }
    let mut k: usize = 0;
    while k < kw.len()
        invariant
            a + kw@.len() == b,
            b <= s@.len(),
            k <= kw@.len(),
            forall|t: int| 0 <= t < k ==> s@[a + t] == kw@[t],
        decreases kw@.len() - k,
    {
        if s[a + k] != kw[k] {
            proof {
                assert(s@.subrange(a as int, b as int)[k as int] == s@[a + k]);
            }
            return false;
        }
        k = k + 1;
    }
    proof {
        assert(s@.subrange(a as int, b as int) =~= kw@);
    }
    true
}

/// The first index at or after `i` holding no digit.
fn digits_end(s: &[u8], i: usize) -> (r: usize)
    requires
        i <= s@.len(),
    ensures
        i <= r <= s@.len(),
        r == scan_digits(s@, i as int),
        forall|t: int| i <= t < r ==> is_digit(s@[t]),
{
    let mut k: usize = i;
    while k < s.len()
        invariant
            i <= k <= s@.len(),
            scan_digits(s@, i as int) == scan_digits(s@, k as int),
            forall|t: int| i <= t < k ==> is_digit(s@[t]),
        decreases s@.len() - k,
    {
        if !is_digit_x(s[k]) {
            proof {
                assert(scan_digits(s@, k as int) == k as int);
            }
            return k;
        }
        proof {
            assert(scan_digits(s@, k as int) == scan_digits(s@, k as int + 1));
        }
        k = k + 1;
    }
    proof {
        assert(scan_digits(s@, k as int) == k as int);
    }
    k
}

/// An unsigned 32-bit number at `i`.
fn parse_u32_x(s: &[u8], i: usize) -> (r: Option<(u32, usize)>)
    requires
        i <= s@.len(),
    ensures
        match r {
            Some(p) => parse_u32(s@, i as int) == Some((p.0, p.1 as int)) && i < p.1 <= s@.len(),
            None => parse_u32(s@, i as int) is None,
        },
{
    let j: usize = digits_end(s, i);
    if j == i {
        return None;
    }
    if s[i] == ZERO && j > i + 1 {
        return None;
    }
    if j - i > 10 {
        return None;
    }
    let mut acc: u64 = 0;
    let mut k: usize = i;
    while k < j
        invariant
            i <= k <= j <= s@.len(),
            j - i <= 10,
            forall|t: int| i <= t < j ==> is_digit(s@[t]),
            acc == digits_val(s@, i as int, k as int),
            acc < pow10((k - i) as nat),
        decreases j - k,
    {
        let d: u8 = s[k] - 48;
        proof {
            lemma_pow10_mono((k - i) as nat, 9);
            lemma_pow10_9();
            assert(pow10((k + 1 - i) as nat) == 10 * pow10((k - i) as nat));
            assert(digits_val(s@, i as int, k as int + 1) == digits_val(s@, i as int, k as int)
                * 10 + (s@[k as int] - 48) as nat);
        }
        acc = acc * 10 + (d as u64);
        k = k + 1;
    }
    if acc > 0xFFFF_FFFF {
        return None;
    }
    Some((acc as u32, j))
}

/// One `"name": number` member of the Argon2id parameter object.
fn parse_param_pair_x(s: &[u8], i: usize, acc: ParamsAcc) -> (r: Option<(ParamsAcc, usize)>)
    requires
        i <= s@.len(),
    ensures
        match r {
            Some(p) => parse_param_pair(s@, i as int, acc) == Some((p.0, p.1 as int)) && p.1
                <= s@.len(),
            None => parse_param_pair(s@, i as int, acc) is None,
        },
{
    let (j, n) = match parse_string_x(s, i) {
        None => {
            return None;
        },
        Some(p) => p,
    };
    let c = match expect_x(s, ws_end(s, n), COLON) {
        None => {
            return None;
        },
        Some(c) => c,
    };
    let (v, m) = match parse_u32_x(s, ws_end(s, c)) {
        None => {
            return None;
        },
        Some(p) => p,
    };
    let a: usize = i + 1;
    if bytes_eq(s, a, j, "memory".as_bytes()) {
        if matches!(acc.memory, None) {
            return Some(
                (
                    ParamsAcc {
                        memory: Some(v),
                        iterations: acc.iterations,
                        parallelism: acc.parallelism,
                    },
                    m,
                ),
            );
        }
        return None;
    }
    if bytes_eq(s, a, j, "iterations".as_bytes()) {
        if matches!(acc.iterations, None) {
            return Some(
                (
                    ParamsAcc {
                        memory: acc.memory,
                        iterations: Some(v),
                        parallelism: acc.parallelism,
                    },
                    m,
                ),
            );
        }
        return None;
    }
    if bytes_eq(s, a, j, "parallelism".as_bytes()) {
        if matches!(acc.parallelism, None) {
            return Some(
                (
                    ParamsAcc {
                        memory: acc.memory,
                        iterations: acc.iterations,
                        parallelism: Some(v),
                    },
                    m,
                ),
            );
        }
        return None;
    }
    None
}

/// A `ksf` object whose `algorithm` member comes first.
fn parse_ksf_tag_first_x(s: &[u8], i: usize) -> (r: Option<(Ksf, usize)>)
    requires
        i <= s@.len(),
    ensures
        match r {
            Some(p) => parse_ksf_tag_first(s@, i as int) == Some((p.0, p.1 as int)) && p.1
                <= s@.len(),
            None => parse_ksf_tag_first(s@, i as int) is None,
        },
{
    let (j, n) = match parse_string_x(s, i) {
        None => {
            return None;
        },
        Some(p) => p,
    };
    let a: usize = i + 1;
    if bytes_eq(s, a, j, "identity".as_bytes()) {
        let i = match expect_x(s, ws_end(s, n), RBRACE) {
            None => {
                return None;
            },
            Some(i) => i,
        };
        return Some((Ksf::Identity, i));
    }
    if !bytes_eq(s, a, j, "argon2id".as_bytes()) {
        return None;
    }
    let i = match expect_x(s, ws_end(s, n), COMMA) {
        None => {
            return None;
        },
        Some(i) => i,
    };
    let w: usize = ws_end(s, i);
    let (j, n) = match parse_string_x(s, w) {
        None => {
            return None;
        },
        Some(p) => p,
    };
    if !bytes_eq(s, w + 1, j, "parameters".as_bytes()) {
        return None;
    }
    let i = match expect_x(s, ws_end(s, n), COLON) {
        None => {
            return None;
        },
        Some(i) => i,
    };
    let (params, i) = match parse_params_x(s, ws_end(s, i)) {
        None => {
            return None;
        },
        Some(p) => p,
    };
    let i = match expect_x(s, ws_end(s, i), RBRACE) {
        None => {
            return None;
        },
        Some(i) => i,
    };
    Some((Ksf::Argon2id(params), i))
}

/// A `ksf` object whose `parameters` member comes first.
fn parse_ksf_params_first_x(s: &[u8], i: usize) -> (r: Option<(Ksf, usize)>)
    requires
        i <= s@.len(),
    ensures
        match r {
            Some(p) => parse_ksf_params_first(s@, i as int) == Some((p.0, p.1 as int)) && p.1
                <= s@.len(),
            None => parse_ksf_params_first(s@, i as int) is None,
        },
{
    let (params, i) = match parse_params_x(s, i) {
        None => {
            return None;
        },
        Some(p) => p,
    };
    let i = match expect_x(s, ws_end(s, i), COMMA) {
        None => {
            return None;
        },
        Some(i) => i,
    };
    let w: usize = ws_end(s, i);
    let (j, n) = match parse_string_x(s, w) {
        None => {
            return None;
        },
        Some(p) => p,
    };
    if !bytes_eq(s, w + 1, j, "algorithm".as_bytes()) {
        return None;
    }
    let i = match expect_x(s, ws_end(s, n), COLON) {
        None => {
            return None;
        },
        Some(i) => i,
    };
    let w: usize = ws_end(s, i);
    let (j, n) = match parse_string_x(s, w) {
        None => {
            return None;
        },
        Some(p) => p,
    };
    if !bytes_eq(s, w + 1, j, "argon2id".as_bytes()) {
        return None;
    }
    let i = match expect_x(s, ws_end(s, n), RBRACE) {
        None => {
            return None;
        },
        Some(i) => i,
    };
    Some((Ksf::Argon2id(params), i))
}

/// The Argon2id parameter object at `i`.
fn parse_params_x(s: &[u8], i: usize) -> (r: Option<(Argon2id, usize)>)
    requires
        i <= s@.len(),
    ensures
        match r {
            Some(p) => parse_params(s@, i as int) == Some((p.0, p.1 as int)) && p.1 <= s@.len(),
            None => parse_params(s@, i as int) is None,
        },
{
    let i = match expect_x(s, i, LBRACE) {
        None => {
            return None;
        },
        Some(i) => i,
    };
    let empty = ParamsAcc { memory: None, iterations: None, parallelism: None };
    let (acc, i) = match parse_param_pair_x(s, ws_end(s, i), empty) {
        None => {
            return None;
        },
        Some(p) => p,
    };
    let i = match expect_x(s, ws_end(s, i), COMMA) {
        None => {
            return None;
        },
        Some(i) => i,
    };
    let (acc, i) = match parse_param_pair_x(s, ws_end(s, i), acc) {
        None => {
            return None;
        },
        Some(p) => p,
    };
    let i = match expect_x(s, ws_end(s, i), COMMA) {
        None => {
            return None;
        },
        Some(i) => i,
    };
    let (acc, i) = match parse_param_pair_x(s, ws_end(s, i), acc) {
        None => {
            return None;
        },
        Some(p) => p,
    };
    let i = match expect_x(s, ws_end(s, i), RBRACE) {
        None => {
            return None;
        },
        Some(i) => i,
    };
    match (acc.memory, acc.iterations, acc.parallelism) {
        (Some(m), Some(t), Some(p)) => Some(
            (Argon2id { memory: m, iterations: t, parallelism: p }, i),
        ),
        _ => None,
    }
}

/// The `ksf` object at `i`.
fn parse_ksf_x(s: &[u8], i: usize) -> (r: Option<(Ksf, usize)>)
    requires
        i <= s@.len(),
    ensures
        match r {
            Some(p) => parse_ksf(s@, i as int) == Some((p.0, p.1 as int)) && p.1 <= s@.len(),
            None => parse_ksf(s@, i as int) is None,
        },
{
    let i = match expect_x(s, i, LBRACE) {
        None => {
            return None;
        },
        Some(i) => i,
    };
    let (j, n) = match parse_string_x(s, ws_end(s, i)) {
        None => {
            return None;
        },
        Some(p) => p,
    };
    let a: usize = ws_end(s, i) + 1;
    let i = match expect_x(s, ws_end(s, n), COLON) {
        None => {
            return None;
        },
        Some(i) => i,
    };
    if bytes_eq(s, a, j, "algorithm".as_bytes()) {
        parse_ksf_tag_first_x(s, ws_end(s, i))
    } else if bytes_eq(s, a, j, "parameters".as_bytes()) {
        parse_ksf_params_first_x(s, ws_end(s, i))
    } else {
        None
    }
}

/// The value of one configuration member, selected by its field name
/// `s[a .. j]`.
fn parse_top_value_x(s: &[u8], i: usize, a: usize, j: usize, acc: TopAcc) -> (r: Option<
    (TopAcc, usize),
>)
    requires
        i <= s@.len(),
        a <= j <= s@.len(),
    ensures
        match r {
            Some(p) => parse_top_value(s@, i as int, s@.subrange(a as int, j as int), acc) == Some(
                (p.0, p.1 as int),
            ) && p.1 <= s@.len(),
            None => parse_top_value(s@, i as int, s@.subrange(a as int, j as int), acc) is None,
        },
{
    if bytes_eq(s, a, j, "opaqueVersion".as_bytes()) {
        if !matches!(acc.opaque_version, None) {
            return None;
        }
        let (v, m) = match parse_u32_x(s, i) {
            None => {
                return None;
            },
            Some(p) => p,
        };
        return Some(
            (
                TopAcc {
                    opaque_version: Some(v),
                    oprf_cs: acc.oprf_cs,
                    ke_group: acc.ke_group,
                    key_exchange: acc.key_exchange,
                    ksf: acc.ksf,
                },
                m,
            ),
        );
    }
    if bytes_eq(s, a, j, "oprfCs".as_bytes()) || bytes_eq(s, a, j, "oprfCS".as_bytes()) {
        if !matches!(acc.oprf_cs, None) {
            return None;
        }
        let (vj, m) = match parse_string_x(s, i) {
            None => {
                return None;
            },
            Some(p) => p,
        };
        if !bytes_eq(s, i + 1, vj, "ristretto255".as_bytes()) {
            return None;
        }
        return Some(
            (
                TopAcc {
                    opaque_version: acc.opaque_version,
                    oprf_cs: Some(OprfCs::Ristretto255),
                    ke_group: acc.ke_group,
                    key_exchange: acc.key_exchange,
                    ksf: acc.ksf,
                },
                m,
            ),
        );
    }
    if bytes_eq(s, a, j, "keGroup".as_bytes()) {
        if !matches!(acc.ke_group, None) {
            return None;
        }
        let (vj, m) = match parse_string_x(s, i) {
            None => {
                return None;
            },
            Some(p) => p,
        };
        if !bytes_eq(s, i + 1, vj, "ristretto255".as_bytes()) {
            return None;
        }
        return Some(
            (
                TopAcc {
                    opaque_version: acc.opaque_version,
                    oprf_cs: acc.oprf_cs,
                    ke_group: Some(KeGroup::Ristretto255),
                    key_exchange: acc.key_exchange,
                    ksf: acc.ksf,
                },
                m,
            ),
        );
    }
    if bytes_eq(s, a, j, "keyExchange".as_bytes()) {
        if !matches!(acc.key_exchange, None) {
            return None;
        }
        let (vj, m) = match parse_string_x(s, i) {
            None => {
                return None;
            },
            Some(p) => p,
        };
        if !(bytes_eq(s, i + 1, vj, "tripleDh".as_bytes()) || bytes_eq(
            s,
            i + 1,
            vj,
            "tripleDH".as_bytes(),
        ) || bytes_eq(s, i + 1, vj, "triple-dh".as_bytes())) {
            return None;
        }
        return Some(
            (
                TopAcc {
                    opaque_version: acc.opaque_version,
                    oprf_cs: acc.oprf_cs,
                    ke_group: acc.ke_group,
                    key_exchange: Some(KeyExchange::TripleDh),
                    ksf: acc.ksf,
                },
                m,
            ),
        );
    }
    if bytes_eq(s, a, j, "ksf".as_bytes()) {
        if !matches!(acc.ksf, None) {
            return None;
        }
        let (v, m) = match parse_ksf_x(s, i) {
            None => {
                return None;
            },
            Some(p) => p,
        };
        return Some(
            (
                TopAcc {
                    opaque_version: acc.opaque_version,
                    oprf_cs: acc.oprf_cs,
                    ke_group: acc.ke_group,
                    key_exchange: acc.key_exchange,
                    ksf: Some(v),
                },
                m,
            ),
        );
    }
    None
}

/// One `"name": value` member of the configuration object at `i`.
fn parse_pair_x(s: &[u8], i: usize, acc: TopAcc) -> (r: Option<(TopAcc, usize)>)
    requires
        i <= s@.len(),
    ensures
        match r {
            Some(p) => parse_pair(s@, i as int, acc) == Some((p.0, p.1 as int)) && p.1 <= s@.len(),
            None => parse_pair(s@, i as int, acc) is None,
        },
{
    let (j, n) = match parse_string_x(s, i) {
        None => {
            return None;
        },
        Some(p) => p,
    };
    let c = match expect_x(s, ws_end(s, n), COLON) {
        None => {
            return None;
        },
        Some(c) => c,
    };
    parse_top_value_x(s, ws_end(s, c), i + 1, j, acc)
}

/// A comma followed by the next configuration member.
fn parse_sep_pair_x(s: &[u8], i: usize, acc: TopAcc) -> (r: Option<(TopAcc, usize)>)
    requires
        i <= s@.len(),
    ensures
        match r {
            Some(p) => parse_sep_pair(s@, i as int, acc) == Some((p.0, p.1 as int)) && p.1
                <= s@.len(),
            None => parse_sep_pair(s@, i as int, acc) is None,
        },
{
    let i = match expect_x(s, ws_end(s, i), COMMA) {
        None => {
            return None;
        },
        Some(i) => i,
    };
    parse_pair_x(s, ws_end(s, i), acc)
}

/// The whole configuration document, as bytes.
fn parse_config_x(s: &[u8]) -> (r: Option<CipherConfiguration>)
    ensures
        match r {
            Some(c) => parse_config_bytes(s@) == Some(c@),
            None => parse_config_bytes(s@) is None,
        },
{
    let i = match expect_x(s, ws_end(s, 0), LBRACE) {
        None => {
            return None;
        },
        Some(i) => i,
    };
    let empty = TopAcc {
        opaque_version: None,
        oprf_cs: None,
        ke_group: None,
        key_exchange: None,
        ksf: None,
    };
    let (acc, i) = match parse_pair_x(s, ws_end(s, i), empty) {
        None => {
            return None;
        },
        Some(p) => p,
    };
    let (acc, i) = match parse_sep_pair_x(s, i, acc) {
        None => {
            return None;
        },
        Some(p) => p,
    };
    let (acc, i) = match parse_sep_pair_x(s, i, acc) {
        None => {
            return None;
        },
        Some(p) => p,
    };
    let (acc, i) = match parse_sep_pair_x(s, i, acc) {
        None => {
            return None;
        },
        Some(p) => p,
    };
    let (acc, i) = match parse_sep_pair_x(s, i, acc) {
        None => {
            return None;
        },
        Some(p) => p,
    };
    let i = match expect_x(s, ws_end(s, i), RBRACE) {
        None => {
            return None;
        },
        Some(i) => i,
    };
    if ws_end(s, i) != s.len() {
        return None;
    }
    match (acc.opaque_version, acc.oprf_cs, acc.ke_group, acc.key_exchange, acc.ksf) {
        (Some(v), Some(o), Some(g), Some(x), Some(f)) => Some(
            CipherConfiguration {
                opaque_version: v,
                oprf_cs: o,
                ke_group: g,
                key_exchange: x,
                ksf: f,
                rng: rng_from_entropy(),
            },
        ),
        _ => None,
    }
}

impl CipherConfiguration {
    /// Parses a serialized configuration.  Exactly the documents of the
    /// grammar [`parse_config_bytes`] are accepted; any other input is an
    /// invalid-configuration error carrying the offending text.
    pub fn from_str(s: &str) -> (r: Result<CipherConfiguration, Error>)
        ensures
            match parse_config_bytes(s.spec_bytes()) {
                Some(d) => r matches Ok(c) && c@ == d,
                None => r matches Err(e) && (e matches Error::InvalidConfig(m) && m@ == s@),
            },
    {
        let bytes: &[u8] = s.as_bytes();
        match parse_config_x(bytes) {
            Some(c) => Ok(c),
            None => Err(Error::InvalidConfig(s.to_owned())),
        }
    }
}

} // verus!
