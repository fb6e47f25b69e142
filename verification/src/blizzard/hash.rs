//! Password hashing with Argon2.

use vstd::prelude::*;
use vstd::utf8::encode_utf8;
use crate::text::decimal;
use argon2::{PasswordHasher, PasswordVerifier};

verus! {

/// Argon2 variants.
#[derive(Debug, Clone, Copy, PartialEq, Eq, Structural)]
pub enum Algorithm {
    Argon2d,
    Argon2i,
    Argon2id,
}

/// Argon2 versions.
#[derive(Debug, Clone, Copy, PartialEq, Eq, Structural)]
pub enum Version {
    V0x10,
    V0x13,
}

/// Parameters of the password hash.
#[derive(Debug, Clone, Copy, PartialEq, Eq, Structural)]
pub struct HashConfig {
    pub algorithm: Algorithm,
    pub version: Version,
    /// Memory in KiB.
    pub m_cost: u32,
    /// Passes.
    pub t_cost: u32,
    /// Lanes.
    pub p_cost: u32,
}

/// Whether `argon2::Params::new` accepts the costs: at least 8 KiB of
/// memory and 8 KiB per lane, at least one pass, and 1 to 0xFFFFFF lanes.
pub open spec fn params_ok(m_cost: u32, t_cost: u32, p_cost: u32) -> bool {
    &&& 1 <= p_cost <= 0xFFFFFF
    &&& m_cost >= 8
    &&& m_cost >= p_cost * 8
    &&& t_cost >= 1
}

/// Whether `hash` is a PHC string that `argon2::PasswordHash::new` reads.
pub uninterp spec fn phc_parses(hash: Seq<char>) -> bool;

/// Whether the password bytes `pwd` verify against the PHC string `hash`
/// under an Argon2 instance without a secret key.
pub uninterp spec fn argon2_verifies(hash: Seq<char>, pwd: Seq<u8>) -> bool;

/// Whether the password text `pwd` matches the stored hash `hash`.
pub open spec fn pwd_matches(hash: Seq<char>, pwd: Seq<char>) -> bool {
    argon2_verifies(hash, encode_utf8(pwd))
}

/// Whether `argon2::PasswordHash::new` reads `hash`.
#[verifier::external_body]
pub(crate) fn phc_valid(hash: &str) -> (r: bool)
    ensures
        r == phc_parses(hash@),
{
    argon2::PasswordHash::new(hash).is_ok()
}

#[verifier::external_type_specification]
#[verifier::external_body]
pub struct ExArgon2<'k>(argon2::Argon2<'k>);

#[verifier::external_type_specification]
#[verifier::external_body]
pub struct ExParams(argon2::Params);

/// Argon2 costs accepted by `argon2::Params::new`, together with the
/// costs they were made from. Only `argon2_params` builds one.
struct Costs {
    m_cost: u32,
    t_cost: u32,
    p_cost: u32,
    params: argon2::Params,
}

/// Argon2 costs (`argon2::Params::new` with the default output length).
/// The costs are checked as `params_ok` says, so the call succeeds; the
/// result records the costs it was made from.
#[verifier::external_body]
fn argon2_params(m_cost: u32, t_cost: u32, p_cost: u32) -> (r: Costs)
    requires
        params_ok(m_cost, t_cost, p_cost),
    ensures
        r.m_cost == m_cost,
        r.t_cost == t_cost,
        r.p_cost == p_cost,
{
    let params = match argon2::Params::new(m_cost, t_cost, p_cost, None) {
        Ok(p) => p,
        Err(_) => argon2::Params::DEFAULT,
    };
    Costs { m_cost, t_cost, p_cost, params }
}

/// An Argon2 instance without a secret key, together with the
/// configuration it was made with. Only `argon2_instance` builds one.
struct Hasher {
    conf: HashConfig,
    argon: argon2::Argon2<'static>,
}

/// An Argon2 instance without a secret key (`argon2::Argon2::new`).
/// Claimed: the instance is recorded with the algorithm, version and costs
/// it was made with.
#[verifier::external_body]
fn argon2_instance(algorithm: Algorithm, version: Version, costs: Costs) -> (r: Hasher)
    ensures
        r.conf == (HashConfig {
            algorithm,
            version,
            m_cost: costs.m_cost,
            t_cost: costs.t_cost,
            p_cost: costs.p_cost,
        }),
{
    let a = match algorithm {
        Algorithm::Argon2d => argon2::Algorithm::Argon2d,
        Algorithm::Argon2i => argon2::Algorithm::Argon2i,
        Algorithm::Argon2id => argon2::Algorithm::Argon2id,
    };
    let v = match version {
        Version::V0x10 => argon2::Version::V0x10,
        Version::V0x13 => argon2::Version::V0x13,
    };
    let conf = HashConfig { algorithm, version, m_cost: costs.m_cost, t_cost: costs.t_cost, p_cost: costs.p_cost };
    Hasher { conf, argon: argon2::Argon2::new(a, v, costs.params) }
}

/// The identifier of an Argon2 variant in a PHC string.
pub open spec fn algorithm_ident(a: Algorithm) -> Seq<char> {
    match a {
        Algorithm::Argon2d => "argon2d"@,
        Algorithm::Argon2i => "argon2i"@,
        Algorithm::Argon2id => "argon2id"@,
    }
}

/// The number of an Argon2 version in a PHC string (decimal).
pub open spec fn version_number(v: Version) -> nat {
    match v {
        Version::V0x10 => 16,
        Version::V0x13 => 19,
    }
}

/// The start of the PHC string of a hash made with `c`, up to the salt:
/// `$<algorithm>$v=<version>$m=<m_cost>,t=<t_cost>,p=<p_cost>$`.
pub open spec fn phc_prefix(c: HashConfig) -> Seq<char> {
    "$"@ + algorithm_ident(c.algorithm) + "$v="@ + decimal(version_number(c.version))
        + "$m="@ + decimal(c.m_cost as nat) + ",t="@ + decimal(c.t_cost as nat)
        + ",p="@ + decimal(c.p_cost as nat) + "$"@
}

/// Hashes a password with a fresh random salt (`SaltString::generate` from
/// the OS generator, `PasswordHasher::hash_password`, and the PHC string
/// of the result). Claimed: the PHC string parses, the password verifies
/// against it, and it starts with the instance's algorithm, version and
/// costs as `phc_prefix` writes them; hashing fails only for a password
/// longer than 0xFFFFFFFF bytes. The salt, and so the rest of the string,
/// is random: nothing more is said of it.
#[verifier::external_body]
fn argon2_hash(hasher: &Hasher, pwd: &str) -> (r: String)
    requires
        encode_utf8(pwd@).len() <= 0xFFFF_FFFF,
    ensures
        phc_parses(r@),
        argon2_verifies(r@, encode_utf8(pwd@)),
        phc_prefix(hasher.conf).is_prefix_of(r@),
{
    let salt = argon2::password_hash::SaltString::generate(&mut argon2::password_hash::rand_core::OsRng);
    match hasher.argon.hash_password(pwd.as_bytes(), &salt) {
        Ok(h) => h.to_string(),
        Err(_) => String::new(),
    }
}

/// Verifies a password against a PHC string (`argon2::PasswordHash::new`,
/// then `PasswordVerifier::verify_password`). Claimed: the result is
/// `argon2_verifies` of the hash and the password's bytes. Verification
/// reads the costs from the PHC string; of the verifier it uses only the
/// secret key, which no instance made here has.
#[verifier::external_body]
fn argon2_verify(verifier: &Hasher, hash: &str, pwd: &str) -> (r: bool)
    requires
        phc_parses(hash@),
    ensures
        r == argon2_verifies(hash@, encode_utf8(pwd@)),
{
    match argon2::PasswordHash::new(hash) {
        Ok(ph) => verifier.argon.verify_password(pwd.as_bytes(), &ph).is_ok(),
        Err(_) => false,
    }
}

/// Argon2id, version 0x13, 64 MiB, 3 passes, 4 lanes.
pub open spec fn default_hash_config() -> HashConfig {
    HashConfig { algorithm: Algorithm::Argon2id, version: Version::V0x13, m_cost: 65536, t_cost: 3, p_cost: 4 }
}

/// The hashing parameters: Argon2id, version 0x13, 64 MiB, 3 passes, 4
/// lanes.
pub fn default_conf() -> (c: HashConfig)
    ensures
        c == (HashConfig {
            algorithm: Algorithm::Argon2id,
            version: Version::V0x13,
            m_cost: 65536,
            t_cost: 3,
            p_cost: 4,
        }),
        params_ok(c.m_cost, c.t_cost, c.p_cost),
{
    let m_cost: u32 = 1u32 << 16u32;
    assert(m_cost == 65536) by (bit_vector)
        requires
            m_cost == 1u32 << 16u32,
    ;
    HashConfig {
        algorithm: Algorithm::Argon2id,
        version: Version::V0x13,
        m_cost,
        t_cost: 3,
        p_cost: 4,
    }
}

/// The Argon2 instance passwords are hashed with, built from
/// `default_conf`.
fn hasher() -> (h: Hasher)
    ensures
        h.conf == default_hash_config(),
{
    let c = default_conf();
    let params = argon2_params(c.m_cost, c.t_cost, c.p_cost);
    argon2_instance(c.algorithm, c.version, params)
}

/// Hashes a password with a random salt. Whatever salt was drawn, the
/// result is a PHC string that the same password verifies against.
pub fn hash_pwd(pwd: &str) -> (h: String)
    requires
        encode_utf8(pwd@).len() <= 0xFFFF_FFFF,
    ensures
        phc_parses(h@),
        pwd_matches(h@, pwd@),
        phc_prefix(default_hash_config()).is_prefix_of(h@),
{
    let conf = hasher();
    argon2_hash(&conf, pwd)
}

/// Whether a password matches a stored PHC string.
pub fn verify_pwd(hash: &str, pwd: &str) -> (r: bool)
    requires
        phc_parses(hash@),
    ensures
        r == pwd_matches(hash@, pwd@),
{
    let conf = hasher();
    argon2_verify(&conf, hash, pwd)
}

/// Whether a password matches a stored hash; `None` when the stored hash
/// is not a PHC string.
pub fn verify_pwd_checked(hash: &str, pwd: &str) -> (r: Option<bool>)
    ensures
        r is None <==> !phc_parses(hash@),
        r matches Some(b) ==> b == pwd_matches(hash@, pwd@),
{
    if phc_valid(hash) {
        Some(verify_pwd(hash, pwd))
    } else {
        None
    }
}

} // verus!
