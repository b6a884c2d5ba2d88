//! The logout flow: validate the session cookie, then revoke its token.

use vstd::prelude::*;
use crate::app_state::AppState;
use crate::app_state::spec_state_unchanged;
use crate::domain::error::AuthAPIError;
use crate::utils::auth::spec_validate_token;
use crate::utils::auth::validate_token;

verus! {

/// The token is absent or empty.
pub open spec fn spec_token_missing(cookie: Option<&str>) -> bool {
    match cookie {
        Option::None => true,
        Option::Some(token) => token@.len() == 0,
    }
}

/// Logs out: the session cookie must be present and non-empty, its token
/// must still validate — structure, signature, expiry, and not yet revoked —
/// and on success the token joins the revocation registry, so later
/// validations reject it.
pub fn logout(state: &mut AppState, cookie: Option<&str>, now: u64) -> (r: Result<
    (),
    AuthAPIError,
>)
    ensures
        spec_token_missing(cookie) ==> r == Err::<(), AuthAPIError>(AuthAPIError::MissingToken)
            && spec_state_unchanged(*old(state), *final(state)),
        !spec_token_missing(cookie) && spec_validate_token(
            Some(old(state).banned_token_store@),
            cookie.unwrap()@,
            old(state).jwt_secret@,
            now,
        ) is Err ==> r == Err::<(), AuthAPIError>(AuthAPIError::InvalidToken)
            && spec_state_unchanged(*old(state), *final(state)),
        !spec_token_missing(cookie) && spec_validate_token(
            Some(old(state).banned_token_store@),
            cookie.unwrap()@,
            old(state).jwt_secret@,
            now,
        ) is Ok ==> {
            &&& r is Ok
            &&& final(state).banned_token_store@ == old(state).banned_token_store@.insert(
                cookie.unwrap()@,
            )
            &&& final(state).banned_token_store@.contains(cookie.unwrap()@)
            &&& final(state).user_store@ == old(state).user_store@
            &&& final(state).two_factor_store@ == old(state).two_factor_store@
            &&& final(state).email_client@ == old(state).email_client@
            &&& final(state).jwt_secret@ == old(state).jwt_secret@
        },
{
    let token = match cookie {
        Some(token) => token,
        None => return Err(AuthAPIError::MissingToken),
    };

    if token.is_empty() {
        return Err(AuthAPIError::MissingToken);
    }

    if validate_token(Some(&state.banned_token_store), token, state.jwt_secret.as_slice(), now).is_err() {
        return Err(AuthAPIError::InvalidToken);
    }

    let tokens = vec![String::from_str(token)];
    proof {
        assert(tokens@.len() == 1);
        assert(tokens@.last()@ == token@);
        assert(tokens@.drop_last() =~= Seq::<String>::empty());
        assert(crate::services::banned_token_store::strings_to_set(tokens@.drop_last())
            == Set::<Seq<char>>::empty());
        assert(crate::services::banned_token_store::strings_to_set(tokens@)
            == Set::<Seq<char>>::empty().insert(token@));
    }
    let _ = state.banned_token_store.register(&tokens);
    proof {
        assert(old(state).banned_token_store@.union(Set::<Seq<char>>::empty().insert(token@))
            =~= old(state).banned_token_store@.insert(token@));
    }

    Ok(())
}

} // verus!
