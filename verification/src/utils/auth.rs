//! Session tokens: signing, validation, and the cookie that carries them.

use vstd::prelude::*;
use crate::domain::email::Email;
use crate::services::banned_token_store::HashsetBannedTokenStore;
use crate::utils::constants::jwt_cookie_name;
use crate::utils::constants::spec_jwt_cookie_name;

verus! {

/// Number of seconds a freshly issued session token stays valid.
pub const TOKEN_TTL_SECONDS: u64 = 600;

/// Failures while issuing a token: only an expiry that leaves the timestamp
/// type is left — signing itself cannot fail.
#[derive(Clone, Copy, Debug, PartialEq, Eq, Structural)]
pub enum GenerateTokenError {
    UnexpectedError,
}

/// Failures while validating a token.
#[derive(Clone, Copy, Debug, PartialEq, Eq, Structural)]
pub enum ValidateTokenError {
    TokenError,
    ExpiredToken,
    BannedToken,
    UnexpectedError,
}

/// The claims carried inside a session token.
#[derive(Debug)]
pub struct Claims {
    pub exp: u64,
    pub sub: String,
}

/// What decoding `token` under `secret` yields: the `sub` and `exp` claims
/// when the token is three well-formed base64url segments whose HMAC-SHA256
/// signature matches, `None` otherwise. Expiry is no part of this; the
/// definition lives in the jsonwebtoken crate.
pub uninterp spec fn jwt_claims(token: Seq<char>, secret: Seq<u8>) -> Option<(Seq<char>, u64)>;

/// How many `.` characters `s` holds.
pub open spec fn spec_dot_count(s: Seq<char>) -> nat
    decreases s.len(),
{
    if s.len() == 0 {
        0
    } else {
        spec_dot_count(s.drop_last()) + if s.last() == '.' {
            1nat
        } else {
            0nat
        }
    }
}

/// Counts the `.` characters of `s`.
pub fn count_dots(s: &str) -> (r: usize)
    ensures
        r == spec_dot_count(s@),
{
    let len: usize = s.unicode_len();
    let mut count: usize = 0;
    let mut i: usize = 0;
    while i < len
        invariant
            0 <= i <= len,
            len == s@.len(),
            count <= i,
            count == spec_dot_count(s@.take(i as int)),
        decreases len - i,
    {
        proof {
            assert(s@.take(i + 1).drop_last() =~= s@.take(i as int));
            assert(s@.take(i + 1).last() == s@[i as int]);
        }
        if s.get_char(i) == '.' {
            count = count + 1;
        }
        i = i + 1;
    }
    proof {
        assert(s@.take(len as int) =~= s@);
    }

    count
}

/// Relies on jsonwebtoken's `encode` (HS256, default header): the token is
/// the three-segment compact serialization, contains exactly two dots, and
/// decodes under the same secret to exactly the signed claims. Signing
/// succeeds outright: an HMAC key from a plain secret matches the HS256
/// family, HMAC-SHA256 takes keys of any length and cannot fail to sign, and
/// serializing a two-field JSON object cannot fail.
#[verifier::external_body]
fn jwt_encode(sub: &str, exp: u64, secret: &[u8]) -> (r: Result<String, ()>)
    ensures
        r is Ok,
        r is Ok ==> jwt_claims(r.unwrap()@, secret@) == Some((sub@, exp)),
        r is Ok ==> spec_dot_count(r.unwrap()@) == 2,
        r is Ok ==> r.unwrap()@.len() > 0,
{
    let mut payload = serde_json::Map::new();
    payload.insert("sub".to_string(), serde_json::Value::String(sub.to_string()));
    payload.insert("exp".to_string(), serde_json::Value::from(exp));
    let key = jsonwebtoken::EncodingKey::from_secret(secret);
    match jsonwebtoken::encode(&jsonwebtoken::Header::default(), &serde_json::Value::Object(payload), &key) {
        Ok(token) => Ok(token),
        Err(_) => Err(()),
    }
}

/// Relies on jsonwebtoken's `decode` (HS256) with expiry validation turned
/// off: deterministic in the token text and the secret, it returns the `sub`
/// and `exp` claims exactly when the shape, signature and claim types are
/// good.
#[verifier::external_body]
fn jwt_decode(token: &str, secret: &[u8]) -> (r: Option<(String, u64)>)
    ensures
        match r {
            Some(claims) => jwt_claims(token@, secret@) == Some((claims.0@, claims.1)),
            None => jwt_claims(token@, secret@) is None,
        },
{
    let mut validation = jsonwebtoken::Validation::new(jsonwebtoken::Algorithm::HS256);
    validation.validate_exp = false;
    let key = jsonwebtoken::DecodingKey::from_secret(secret);
    let claims = match jsonwebtoken::decode::<serde_json::Value>(token, &key, &validation) {
        Ok(data) => data.claims,
        Err(_) => return None,
    };
    match (claims.get("sub").and_then(serde_json::Value::as_str), claims.get("exp").and_then(serde_json::Value::as_u64)) {
        (Some(sub), Some(exp)) => Some((sub.to_string(), exp)),
        _ => None,
    }
}

/// What validating a token yields: revocation is consulted first, then the
/// signature, then expiry; a token is good strictly before its `exp` second.
pub open spec fn spec_validate_token(
    banned: Option<Set<Seq<char>>>,
    token: Seq<char>,
    secret: Seq<u8>,
    now: u64,
) -> Result<(Seq<char>, u64), ValidateTokenError> {
    if banned is Some && banned.unwrap().contains(token) {
        Err(ValidateTokenError::BannedToken)
    } else {
        match jwt_claims(token, secret) {
            Option::None => Err(ValidateTokenError::TokenError),
            Option::Some((sub, exp)) => if now >= exp {
                Err(ValidateTokenError::ExpiredToken)
            } else {
                Ok((sub, exp))
            },
        }
    }
}

/// Validates `token` under `secret` at time `now`, consulting the revocation
/// registry first when one is given: a revoked token is rejected even if it
/// is otherwise valid.
pub fn validate_token(
    store: Option<&HashsetBannedTokenStore>,
    token: &str,
    secret: &[u8],
    now: u64,
) -> (r: Result<Claims, ValidateTokenError>)
    ensures
        ({
            let outcome = spec_validate_token(
                match store {
                    Some(s) => Some(s@),
                    None => None,
                },
                token@,
                secret@,
                now,
            );
            match r {
                Ok(claims) => outcome == Ok::<(Seq<char>, u64), ValidateTokenError>(
                    (claims.sub@, claims.exp),
                ),
                Err(e) => outcome == Err::<(Seq<char>, u64), ValidateTokenError>(e),
            }
        }),
{
    if let Some(registry) = store {
        let revoked = match registry.check(token) {
            Ok(revoked) => revoked,
            Err(_) => return Err(ValidateTokenError::UnexpectedError),
        };

        if revoked {
            return Err(ValidateTokenError::BannedToken);
        }
    }

    match jwt_decode(token, secret) {
        None => Err(ValidateTokenError::TokenError),
        Some((sub, exp)) => {
            if now >= exp {
                Err(ValidateTokenError::ExpiredToken)
            } else {
                Ok(Claims { exp, sub })
            }
        },
    }
}

/// Signs a session token for `email` that expires `TOKEN_TTL_SECONDS` after
/// `now`. Signing succeeds whenever that expiry fits in the timestamp type.
pub fn generate_auth_token(email: &Email, secret: &[u8], now: u64) -> (r: Result<
    String,
    GenerateTokenError,
>)
    ensures
        r is Ok <==> now + TOKEN_TTL_SECONDS <= u64::MAX,
        r is Err ==> r == Err::<String, GenerateTokenError>(GenerateTokenError::UnexpectedError),
        r is Ok ==> {
            &&& now + TOKEN_TTL_SECONDS <= u64::MAX
            &&& jwt_claims(r.unwrap()@, secret@) == Some((email@, (now + TOKEN_TTL_SECONDS) as u64))
            &&& spec_dot_count(r.unwrap()@) == 2
            &&& r.unwrap()@.len() > 0
        },
{
    let exp = match now.checked_add(TOKEN_TTL_SECONDS) {
        Some(exp) => exp,
        None => return Err(GenerateTokenError::UnexpectedError),
    };

    match jwt_encode(email.as_str(), exp, secret) {
        Ok(token) => Ok(token),
        Err(()) => Err(GenerateTokenError::UnexpectedError),
    }
}

/// How long a token expiring at `exp` remains valid, seen at `now`: the
/// lifetime a revocation entry for it needs — an already-expired token needs
/// no storage at all.
pub fn remaining_ttl(exp: u64, now: u64) -> (r: u64)
    ensures
        r == if exp > now {
            exp - now
        } else {
            0int
        },
{
    if exp > now {
        exp - now
    } else {
        0
    }
}

/// A token issued for `sub` under `secret` — one whose claims are `sub` and
/// the expiry `TOKEN_TTL_SECONDS` after its issue time — validates to exactly
/// `sub`, at any time strictly before that expiry, as long as it has not been
/// revoked.
pub proof fn lemma_fresh_token_validates(
    banned: Option<Set<Seq<char>>>,
    token: Seq<char>,
    secret: Seq<u8>,
    sub: Seq<char>,
    issued_at: u64,
    now: u64,
)
    requires
        issued_at + TOKEN_TTL_SECONDS <= u64::MAX,
        jwt_claims(token, secret) == Some((sub, (issued_at + TOKEN_TTL_SECONDS) as u64)),
        now < issued_at + TOKEN_TTL_SECONDS,
        banned matches Some(b) ==> !b.contains(token),
    ensures
        spec_validate_token(banned, token, secret, now) == Ok::<
            (Seq<char>, u64),
            ValidateTokenError,
        >((sub, (issued_at + TOKEN_TTL_SECONDS) as u64)),
{
}

/// Once the clock reaches a token's expiry, validation rejects it with the
/// expiry-classified error, whatever subject it carries.
pub proof fn lemma_expired_token_rejected(
    banned: Option<Set<Seq<char>>>,
    token: Seq<char>,
    secret: Seq<u8>,
    sub: Seq<char>,
    exp: u64,
    now: u64,
)
    requires
        jwt_claims(token, secret) == Some((sub, exp)),
        now >= exp,
        banned matches Some(b) ==> !b.contains(token),
    ensures
        spec_validate_token(banned, token, secret, now) == Err::<
            (Seq<char>, u64),
            ValidateTokenError,
        >(ValidateTokenError::ExpiredToken),
{
}

/// A revoked token is rejected before any cryptographic work, even one whose
/// signature and expiry would otherwise pass.
pub proof fn lemma_revoked_token_rejected(
    banned: Set<Seq<char>>,
    token: Seq<char>,
    secret: Seq<u8>,
    now: u64,
)
    requires
        banned.contains(token),
    ensures
        spec_validate_token(Some(banned), token, secret, now) == Err::<
            (Seq<char>, u64),
            ValidateTokenError,
        >(ValidateTokenError::BannedToken),
{
}

/// The session cookie: a fixed name, the token as value, rooted path,
/// HTTP-only, `SameSite=Lax`.
#[derive(Debug)]
pub struct AuthCookie {
    pub name: String,
    pub value: String,
    pub path: String,
    pub http_only: bool,
    pub same_site_lax: bool,
}

/// The shape every session cookie has: only the token varies.
pub open spec fn spec_auth_cookie(cookie: AuthCookie, token: Seq<char>) -> bool {
    &&& cookie.name@ == spec_jwt_cookie_name()
    &&& cookie.value@ == token
    &&& cookie.path@ == "/"@
    &&& cookie.http_only
    &&& cookie.same_site_lax
}

impl AuthCookie {
    /// The cookie's name.
    pub fn name(&self) -> (r: &str)
        ensures
            r@ == self.name@,
    {
        self.name.as_str()
    }

    /// The carried token.
    pub fn value(&self) -> (r: &str)
        ensures
            r@ == self.value@,
    {
        self.value.as_str()
    }

    /// The cookie's path.
    pub fn path(&self) -> (r: &str)
        ensures
            r@ == self.path@,
    {
        self.path.as_str()
    }

    /// Whether the cookie is HTTP-only.
    pub fn http_only(&self) -> (r: bool)
        ensures
            r == self.http_only,
    {
        self.http_only
    }

    /// Whether the cookie is `SameSite=Lax`.
    pub fn same_site_lax(&self) -> (r: bool)
        ensures
            r == self.same_site_lax,
    {
        self.same_site_lax
    }
}

/// Wraps an already-signed token in the session cookie.
pub fn create_auth_cookie(token: String) -> (r: AuthCookie)
    ensures
        spec_auth_cookie(r, token@),
{
    AuthCookie {
        name: String::from_str(jwt_cookie_name()),
        value: token,
        path: String::from_str("/"),
        http_only: true,
        same_site_lax: true,
    }
}

/// Signs a session token for `email` and wraps it in the session cookie.
/// Succeeds whenever the expiry fits in the timestamp type.
pub fn generate_auth_cookie(email: &Email, secret: &[u8], now: u64) -> (r: Result<
    AuthCookie,
    GenerateTokenError,
>)
    ensures
        r is Ok <==> now + TOKEN_TTL_SECONDS <= u64::MAX,
        r is Err ==> r == Err::<AuthCookie, GenerateTokenError>(GenerateTokenError::UnexpectedError),
        r is Ok ==> {
            &&& now + TOKEN_TTL_SECONDS <= u64::MAX
            &&& spec_auth_cookie(r.unwrap(), r.unwrap().value@)
            &&& jwt_claims(r.unwrap().value@, secret@) == Some(
                (email@, (now + TOKEN_TTL_SECONDS) as u64),
            )
            &&& spec_dot_count(r.unwrap().value@) == 2
            &&& r.unwrap().value@.len() > 0
        },
{
    let token = match generate_auth_token(email, secret, now) {
        Ok(token) => token,
        Err(e) => return Err(e),
    };

    Ok(create_auth_cookie(token))
}

} // verus!
