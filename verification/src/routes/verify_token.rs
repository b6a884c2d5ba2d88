//! The token-verification flow: shape first, then signature, expiry and the
//! revocation registry.

use vstd::prelude::*;
use crate::app_state::AppState;
use crate::domain::error::AuthAPIError;
use crate::utils::auth::count_dots;
use crate::utils::auth::spec_dot_count;
use crate::utils::auth::spec_validate_token;
use crate::utils::auth::validate_token;

verus! {

/// A token-verification request as it arrives.
#[derive(Debug)]
pub struct VerifyTokenRequest {
    pub token: String,
}

/// A token is shaped like a session token: three dot-separated segments.
pub open spec fn spec_three_segments(token: Seq<char>) -> bool {
    spec_dot_count(token) == 2
}

/// Checks a bare token. One that is not three dot-separated segments is
/// `MalformedToken` before any cryptographic work; a revoked, badly signed
/// or expired token is `InvalidToken`.
pub fn verify_token(state: &AppState, request: &VerifyTokenRequest, now: u64) -> (r: Result<
    String,
    AuthAPIError,
>)
    ensures
        !spec_three_segments(request.token@) ==> r == Err::<String, AuthAPIError>(
            AuthAPIError::MalformedToken,
        ),
        spec_three_segments(request.token@) && spec_validate_token(
            Some(state.banned_token_store@),
            request.token@,
            state.jwt_secret@,
            now,
        ) is Err ==> r == Err::<String, AuthAPIError>(AuthAPIError::InvalidToken),
        spec_three_segments(request.token@) && spec_validate_token(
            Some(state.banned_token_store@),
            request.token@,
            state.jwt_secret@,
            now,
        ) is Ok ==> (r matches Ok(message) && message@ == "Token verified!"@),
{
    if count_dots(request.token.as_str()) != 2 {
        return Err(AuthAPIError::MalformedToken);
    }

    if validate_token(
        Some(&state.banned_token_store),
        request.token.as_str(),
        state.jwt_secret.as_slice(),
        now,
    ).is_err() {
        return Err(AuthAPIError::InvalidToken);
    }

    Ok(String::from_str("Token verified!"))
}

} // verus!
