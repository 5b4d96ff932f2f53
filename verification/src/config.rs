//! The cipher configuration: which primitives a caller selects, and how the
//! selection is parsed, printed and dispatched.
//!
//! A configuration is pure data, parsed fresh from a caller-supplied string
//! on every operation (see [`crate::parse`]).  Dispatch maps it to the one
//! supported primitive combination — OPRF and key-exchange group
//! `ristretto255` with triple Diffie-Hellman — plus a key-stretching
//! selector; every other combination is recognized but unsupported.
use vstd::prelude::*;

use crate::Error;
use crate::rng::rng_from_entropy;
use crate::rng::rng_from_seed;

verus! {

/// The OPRF cipher suite choices a configuration can name.
#[derive(Clone, Copy, Debug)]
pub enum OprfCs {
    Ristretto255,
}

/// The key-exchange group choices a configuration can name.
#[derive(Clone, Copy, Debug)]
pub enum KeGroup {
    Ristretto255,
}

/// The key-exchange method choices a configuration can name.
#[derive(Clone, Copy, Debug)]
pub enum KeyExchange {
    TripleDh,
}

/// The key-stretching treatments a configuration can select: memory-hard
/// Argon2id with explicit cost parameters, or the no-op treatment used where
/// a deployment needs deterministic test vectors on one side.
#[derive(Clone, Copy, Debug)]
pub enum Ksf {
    Argon2id(Argon2id),
    Identity,
}

/// Argon2id cost parameters: memory in KiB, iteration count, lane count.
#[derive(Clone, Copy, Debug)]
pub struct Argon2id {
    pub memory: u32,
    pub iterations: u32,
    pub parallelism: u32,
}

/// The plain data of a configuration; the mathematical value contracts
/// speak of.
pub struct ConfigData {
    pub opaque_version: u32,
    pub oprf_cs: OprfCs,
    pub ke_group: KeGroup,
    pub key_exchange: KeyExchange,
    pub ksf: Ksf,
}

/// A parsed cipher configuration together with the randomness source the
/// protocol operations draw from.
pub struct CipherConfiguration {
    pub opaque_version: u32,
    pub oprf_cs: OprfCs,
    pub ke_group: KeGroup,
    pub key_exchange: KeyExchange,
    pub ksf: Ksf,
    pub(crate) rng: rand_chacha::ChaCha20Rng,
}

impl View for CipherConfiguration {
    type V = ConfigData;

    closed spec fn view(&self) -> ConfigData {
        ConfigData {
            opaque_version: self.opaque_version,
            oprf_cs: self.oprf_cs,
            ke_group: self.ke_group,
            key_exchange: self.key_exchange,
            ksf: self.ksf,
        }
    }
}

/// The view of a configuration is exactly its plain data fields; the
/// randomness source does not enter it.
pub(crate) broadcast proof fn lemma_config_view(c: &CipherConfiguration)
    ensures
        #[trigger] c@ == (ConfigData {
            opaque_version: c.opaque_version,
            oprf_cs: c.oprf_cs,
            ke_group: c.ke_group,
            key_exchange: c.key_exchange,
            ksf: c.ksf,
        }),
{
}

/// The configuration every operation falls back to in self-tests: protocol
/// version 3, ristretto255 for both groups, triple Diffie-Hellman, and
/// Argon2id at 64 MiB memory, 4 iterations, 4 lanes.
pub open spec fn default_config() -> ConfigData {
    ConfigData {
        opaque_version: 3,
        oprf_cs: OprfCs::Ristretto255,
        ke_group: KeGroup::Ristretto255,
        key_exchange: KeyExchange::TripleDh,
        ksf: Ksf::Argon2id(Argon2id { memory: 65536, iterations: 4, parallelism: 4 }),
    }
}

/// Cipher-suite dispatch: the key-stretching selector fixed by a supported
/// configuration, or nothing for a recognized-but-unsupported combination.
pub open spec fn suite_of(c: ConfigData) -> Option<Ksf> {
    if c.opaque_version == 3 && c.oprf_cs is Ristretto255 && c.ke_group is Ristretto255
        && c.key_exchange is TripleDh {
        Some(c.ksf)
    } else {
        None
    }
}

impl Default for CipherConfiguration {
    /// The default configuration, with a generator seeded from system
    /// entropy.
    fn default() -> (r: Self)
        ensures
            r@ == default_config(),
    {
        CipherConfiguration {
            opaque_version: 3,
            oprf_cs: OprfCs::Ristretto255,
            ke_group: KeGroup::Ristretto255,
            key_exchange: KeyExchange::TripleDh,
            ksf: Ksf::Argon2id(Argon2id { memory: 65536, iterations: 4, parallelism: 4 }),
            rng: rng_from_entropy(),
        }
    }
}

impl CipherConfiguration {
    /// The default configuration with its generator seeded from the given
    /// bytes, so that a self-test run is reproducible.
    pub fn fake_from_seed(seed: [u8; 32]) -> (r: Self)
        ensures
            r@ == default_config(),
    {
        CipherConfiguration {
            opaque_version: 3,
            oprf_cs: OprfCs::Ristretto255,
            ke_group: KeGroup::Ristretto255,
            key_exchange: KeyExchange::TripleDh,
            ksf: Ksf::Argon2id(Argon2id { memory: 65536, iterations: 4, parallelism: 4 }),
            rng: rng_from_seed(seed),
        }
    }

    /// Cipher-suite dispatch, as exhaustive pattern matching: every
    /// supported combination is its own arm, so a new combination can never
    /// silently reuse the wrong primitive.
    pub fn select_suite(&self) -> (r: Option<Ksf>)
        ensures
            r == suite_of(self@),
    {
        match (self.opaque_version, self.oprf_cs, self.ke_group, self.key_exchange, self.ksf) {
            (3, OprfCs::Ristretto255, KeGroup::Ristretto255, KeyExchange::TripleDh, ksf) => Some(
                ksf,
            ),
            _ => None,
        }
    }

    /// The configuration printed back in its serialized form, as carried in
    /// an unsupported-configuration error.
    pub fn to_string(&self) -> (r: String)
        ensures
            r@ == config_chars(self@),
    {
        let mut out = String::new();
        out.append("{\"opaqueVersion\":");
        push_dec(&mut out, self.opaque_version);
        out.append(
            ",\"oprfCs\":\"ristretto255\",\"keGroup\":\"ristretto255\",\"keyExchange\":\"tripleDh\",\"ksf\":",
        );
        match &self.ksf {
            Ksf::Argon2id(p) => {
                out.append("{\"algorithm\":\"argon2id\",\"parameters\":{\"memory\":");
                push_dec(&mut out, p.memory);
                out.append(",\"iterations\":");
                push_dec(&mut out, p.iterations);
                out.append(",\"parallelism\":");
                push_dec(&mut out, p.parallelism);
                out.append("}}");
            },
            Ksf::Identity => {
                out.append("{\"algorithm\":\"identity\"}");
            },
        }
        out.append("}");
        proof {
            assert(out@ =~= config_chars(self@));
        }
        out
    }
}

/// The unsupported-configuration error, carrying the configuration in its
/// serialized form.
pub(crate) fn invalid_config(config: &CipherConfiguration) -> (e: Error)
    ensures
        e matches Error::InvalidConfig(m) && m@ == config_chars(config@),
{
    Error::InvalidConfig(config.to_string())
}

/// The decimal digit `d` as a character.
pub open spec fn digit_char(d: nat) -> char {
    (((48 + d) as u8) as char)
}

/// The decimal rendering of `n`, most significant digit first.
pub open spec fn dec_chars(n: nat) -> Seq<char>
    decreases n,
{
    if n < 10 {
        seq![digit_char(n)]
    } else {
        dec_chars(n / 10).push(digit_char(n % 10))
    }
}

/// The serialized form of a key-stretching selector.
pub open spec fn ksf_chars(k: Ksf) -> Seq<char> {
    match k {
        Ksf::Argon2id(p) => "{\"algorithm\":\"argon2id\",\"parameters\":{\"memory\":"@
            + dec_chars(p.memory as nat) + ",\"iterations\":"@ + dec_chars(p.iterations as nat)
            + ",\"parallelism\":"@ + dec_chars(p.parallelism as nat) + "}}"@,
        Ksf::Identity => "{\"algorithm\":\"identity\"}"@,
    }
}

/// The serialized form of a configuration.
pub open spec fn config_chars(c: ConfigData) -> Seq<char> {
    "{\"opaqueVersion\":"@ + dec_chars(c.opaque_version as nat)
        + ",\"oprfCs\":\"ristretto255\",\"keGroup\":\"ristretto255\",\"keyExchange\":\"tripleDh\",\"ksf\":"@
        + ksf_chars(c.ksf) + "}"@
}

/// Appends the decimal rendering of `n`.
fn push_dec(out: &mut String, n: u32)
    ensures
        final(out)@ == old(out)@ + dec_chars(n as nat),
    decreases n,
{
    if n >= 10 {
        push_dec(out, n / 10);
    }
    let d = n % 10;
    let s: &str = if d == 0 {
        "0"
    } else if d == 1 {
        "1"
    } else if d == 2 {
        "2"
    } else if d == 3 {
        "3"
    } else if d == 4 {
        "4"
    } else if d == 5 {
        "5"
    } else if d == 6 {
        "6"
    } else if d == 7 {
        "7"
    } else if d == 8 {
        "8"
    } else {
        "9"
    };
    proof {
        reveal_strlit("0");
        reveal_strlit("1");
        reveal_strlit("2");
        reveal_strlit("3");
        reveal_strlit("4");
        reveal_strlit("5");
        reveal_strlit("6");
        reveal_strlit("7");
        reveal_strlit("8");
        reveal_strlit("9");
        assert(s@ =~= seq![digit_char((n % 10) as nat)]);
    }
    out.append(s);
    proof {
        assert(out@ =~= old(out)@ + dec_chars(n as nat));
    }
}

} // verus!
