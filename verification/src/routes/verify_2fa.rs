//! The two-factor verification flow: fetch, compare, consume, issue.

use vstd::prelude::*;
use crate::app_state::AppState;
use crate::app_state::spec_state_unchanged;
use crate::domain::data_stores::LoginAttemptId;
use crate::domain::data_stores::TwoFactorCode;
use crate::domain::email::Email;
use crate::domain::error::AuthAPIError;
use crate::utils::auth::TOKEN_TTL_SECONDS;
use crate::utils::auth::AuthCookie;
use crate::utils::auth::generate_auth_cookie;
use crate::utils::auth::jwt_claims;
use crate::utils::auth::spec_auth_cookie;
use crate::utils::auth::spec_dot_count;

verus! {

/// A two-factor verification request, already parsed into the domain types.
#[derive(Debug)]
pub struct Verify2FARequest {
    pub email: Email,
    pub login_attempt_id: LoginAttemptId,
    pub two_factor_code: TwoFactorCode,
}

/// The store holds exactly this `(attempt id, code)` pair for this email.
pub open spec fn spec_challenge_matches(
    challenges: Map<Seq<char>, (Seq<char>, Seq<char>)>,
    email: Seq<char>,
    attempt_id: Seq<char>,
    code: Seq<char>,
) -> bool {
    challenges.contains_key(email) && challenges[email] == (attempt_id, code)
}

/// A challenge just stored for an email matches exactly the pair that was
/// stored, so echoing back the attempt id and the delivered code completes
/// the login.
pub proof fn lemma_fresh_challenge_matches(
    challenges: Map<Seq<char>, (Seq<char>, Seq<char>)>,
    email: Seq<char>,
    attempt_id: Seq<char>,
    code: Seq<char>,
)
    ensures
        spec_challenge_matches(challenges.insert(email, (attempt_id, code)), email, attempt_id, code),
        forall|other_id: Seq<char>, other_code: Seq<char>|
            spec_challenge_matches(
                challenges.insert(email, (attempt_id, code)),
                email,
                other_id,
                other_code,
            ) ==> other_id == attempt_id && other_code == code,
{
}

/// Overwriting a challenge makes the old pair permanently unusable: unless
/// the new pair happens to equal it, the old `(attempt id, code)` no longer
/// matches for that email.
pub proof fn lemma_overwritten_challenge_unusable(
    challenges: Map<Seq<char>, (Seq<char>, Seq<char>)>,
    email: Seq<char>,
    first_id: Seq<char>,
    first_code: Seq<char>,
    second_id: Seq<char>,
    second_code: Seq<char>,
)
    requires
        (first_id, first_code) != (second_id, second_code),
    ensures
        !spec_challenge_matches(
            challenges.insert(email, (first_id, first_code)).insert(
                email,
                (second_id, second_code),
            ),
            email,
            first_id,
            first_code,
        ),
{
}

/// A successful verification consumes the challenge: in the store it leaves
/// behind — the old store with the email's entry removed — no pair matches
/// for that email any more, so repeating the same `(attempt id, code)` is
/// answered `IncorrectCredentials`.
pub proof fn lemma_challenge_consumed(
    challenges: Map<Seq<char>, (Seq<char>, Seq<char>)>,
    email: Seq<char>,
    attempt_id: Seq<char>,
    code: Seq<char>,
)
    ensures
        !spec_challenge_matches(challenges.remove(email), email, attempt_id, code),
{
}

/// Completes a two-factor login. A missing challenge, a wrong attempt id and
/// a wrong code all answer the same `IncorrectCredentials`; on a match the
/// challenge is consumed — it is gone from the store — and a session cookie
/// is issued, promised whenever the expiry fits the timestamp type.
pub fn verify_2fa(state: &mut AppState, request: &Verify2FARequest, now: u64) -> (r: Result<
    AuthCookie,
    AuthAPIError,
>)
    ensures
        !spec_challenge_matches(
            old(state).two_factor_store@,
            request.email@,
            request.login_attempt_id@,
            request.two_factor_code@,
        ) ==> r == Err::<AuthCookie, AuthAPIError>(AuthAPIError::IncorrectCredentials)
            && spec_state_unchanged(*old(state), *final(state)),
        spec_challenge_matches(
            old(state).two_factor_store@,
            request.email@,
            request.login_attempt_id@,
            request.two_factor_code@,
        ) ==> match r {
            Ok(cookie) => {
                &&& spec_auth_cookie(cookie, cookie.value@)
                &&& jwt_claims(cookie.value@, old(state).jwt_secret@) == Some(
                    (request.email@, (now + TOKEN_TTL_SECONDS) as u64),
                )
                &&& spec_dot_count(cookie.value@) == 2
                &&& cookie.value@.len() > 0
                &&& now + TOKEN_TTL_SECONDS <= u64::MAX
                &&& final(state).two_factor_store@ == old(state).two_factor_store@.remove(
                    request.email@,
                )
                &&& !final(state).two_factor_store@.contains_key(request.email@)
                &&& final(state).user_store@ == old(state).user_store@
                &&& final(state).banned_token_store@ == old(state).banned_token_store@
                &&& final(state).email_client@ == old(state).email_client@
                &&& final(state).jwt_secret@ == old(state).jwt_secret@
            },
            Err(e) => e == AuthAPIError::UnexpectedError && now + TOKEN_TTL_SECONDS > u64::MAX
                && spec_state_unchanged(*old(state), *final(state)),
        },
{
    let (attempt_id, code) = match state.two_factor_store.get_code(&request.email) {
        Ok(pair) => pair,
        Err(_) => return Err(AuthAPIError::IncorrectCredentials),
    };

    if !(request.login_attempt_id == attempt_id) || !(request.two_factor_code == code) {
        return Err(AuthAPIError::IncorrectCredentials);
    }

    let cookie = match generate_auth_cookie(&request.email, state.jwt_secret.as_slice(), now) {
        Ok(cookie) => cookie,
        Err(_) => return Err(AuthAPIError::UnexpectedError),
    };

    // The entry is present — the match above read it — so removal succeeds.
    let _ = state.two_factor_store.remove_code(&request.email);

    Ok(cookie)
}

} // verus!
