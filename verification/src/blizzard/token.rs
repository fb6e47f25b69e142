//! Signed session tokens (PASETO v4 public tokens).

use vstd::prelude::*;
use pasetors::keys::Generate;

verus! {

#[verifier::external_type_specification]
#[verifier::external_body]
pub struct ExClaims(pasetors::claims::Claims);

#[verifier::external_type_specification]
#[verifier::external_body]
pub struct ExPasetoError(pasetors::errors::Error);

#[verifier::external_type_specification]
#[verifier::external_body]
pub struct ExV4(pasetors::version4::V4);

#[verifier::external_type_specification]
#[verifier::external_body]
#[verifier::reject_recursive_types(T)]
pub struct ExAsymmetricKeyPair<T>(pasetors::keys::AsymmetricKeyPair<T>);

/// The claims that PASETO reserves, which cannot be added as extra claims.
pub open spec fn registered_claim(key: Seq<char>) -> bool {
    ||| key == "iss"@
    ||| key == "sub"@
    ||| key == "aud"@
    ||| key == "exp"@
    ||| key == "nbf"@
    ||| key == "iat"@
    ||| key == "jti"@
}

/// The string-valued claims that `c` holds, claim name to value (what
/// `pasetors::claims::Claims` keeps in its map; every claim made here has a
/// string value).
pub uninterp spec fn claims_contents(c: pasetors::claims::Claims) -> Map<Seq<char>, Seq<char>>;

/// The string-valued claims carried in the payload of the public token `t`:
/// the JSON object that the token's message (its base64url body without
/// the signature) holds, claim name to value.
pub uninterp spec fn token_claims(t: Seq<char>) -> Map<Seq<char>, Seq<char>>;

/// The claims a fresh `Claims::new` holds: issued-at, not-before and
/// expiry.
pub open spec fn time_claims() -> Set<Seq<char>> {
    set!["iat"@, "nbf"@, "exp"@]
}

/// The claim that names a token's user.
pub const UID_CLAIM: &'static str = "uid";

/// "uid" is not one of the registered claims.
proof fn lemma_uid_not_registered()
    ensures
        !registered_claim(UID_CLAIM@),
        !time_claims().contains(UID_CLAIM@),
{
    reveal_strlit("uid");
    reveal_strlit("iss");
    reveal_strlit("sub");
    reveal_strlit("aud");
    reveal_strlit("exp");
    reveal_strlit("nbf");
    reveal_strlit("iat");
    reveal_strlit("jti");
    assert(UID_CLAIM@ == "uid"@);
    assert(UID_CLAIM@[0] == 'u');
    assert("iss"@[0] != 'u' && "sub"@[0] != 'u' && "aud"@[0] != 'u' && "exp"@[0] != 'u');
    assert("nbf"@[0] != 'u' && "iat"@[0] != 'u' && "jti"@[0] != 'u');
}

/// Whether `t` has the form of a PASETO v4 public token.
pub open spec fn is_public_token(t: Seq<char>) -> bool {
    t.len() >= 10 && t.take(10) == "v4.public."@
}

/// New claims issued now and expiring in an hour (`Claims::new`). Claimed:
/// they hold exactly the "iat", "nbf" and "exp" claims. Their values, and
/// whether the call succeeds, depend on the clock; nothing is said of them.
#[verifier::external_body]
fn claims_new() -> (r: Result<pasetors::claims::Claims, pasetors::errors::Error>)
    ensures
        r matches Ok(c) ==> claims_contents(c).dom() == time_claims(),
{
    pasetors::claims::Claims::new()
}

/// Adds a claim with a string value (`Claims::add_additional`). Claimed:
/// it fails exactly for the registered claims, leaving the claims as they
/// were; otherwise the claim is added, replacing one of the same name.
#[verifier::external_body]
fn claims_add(claims: &mut pasetors::claims::Claims, key: &str, value: String) -> (r: Result<(), pasetors::errors::Error>)
    ensures
        r is Ok <==> !registered_claim(key@),
        r is Ok ==> claims_contents(*final(claims)) == claims_contents(*old(claims)).insert(key@, value@),
        r is Err ==> claims_contents(*final(claims)) == claims_contents(*old(claims)),
{
    claims.add_additional(key, value)
}

/// A fresh random key pair (`AsymmetricKeyPair::<V4>::generate`). Nothing
/// is claimed of it.
#[verifier::external_body]
fn keypair_v4() -> (r: Result<pasetors::keys::AsymmetricKeyPair<pasetors::version4::V4>, pasetors::errors::Error>) {
    pasetors::keys::AsymmetricKeyPair::<pasetors::version4::V4>::generate()
}

/// Signs the claims into a public token without a footer
/// (`pasetors::public::sign`: the claims' JSON is the message, and the
/// token is the v4 public header followed by the base64url form of the
/// message and its signature). Claimed: a token starts with the v4 public
/// header and carries exactly the claims it was given. Which failures
/// occur is not said.
#[verifier::external_body]
fn sign_v4(kp: &pasetors::keys::AsymmetricKeyPair<pasetors::version4::V4>, claims: &pasetors::claims::Claims, implicit: &[u8]) -> (r: Result<String, pasetors::errors::Error>)
    ensures
        r matches Ok(t) ==> is_public_token(t@) && token_claims(t@) == claims_contents(*claims),
{
    pasetors::public::sign(&kp.secret, claims, None, Some(implicit))
}

/// The implicit assertion bound into every token.
pub const IMPLICIT_ASSERTION: &'static str = "implicit assertion";

/// Issues a token that names the user `uid` in its "uid" claim, beside the
/// time claims, signed with a freshly generated key. Fails only where the
/// clock, the key generator or the signer fails; adding the claim cannot
/// fail.
pub fn issue_token(uid: &str) -> (r: Result<String, pasetors::errors::Error>)
    ensures
        r matches Ok(t) ==> {
            &&& is_public_token(t@)
            &&& token_claims(t@).contains_pair(UID_CLAIM@, uid@)
            &&& token_claims(t@).dom() == time_claims().insert(UID_CLAIM@)
        },
{
    let mut claims = claims_new()?;
    proof {
        lemma_uid_not_registered();
    }
    let added = claims_add(&mut claims, UID_CLAIM, uid.to_owned());
    assert(added is Ok);
    let kp = keypair_v4()?;
    let r = sign_v4(&kp, &claims, IMPLICIT_ASSERTION.as_bytes());
    proof {
        if r is Ok {
            assert(claims_contents(claims).dom() =~= time_claims().insert(UID_CLAIM@));
        }
    }
    r
}

} // verus!
