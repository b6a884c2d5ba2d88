//! The signup flow: validate, reject duplicates, hash, store.

use vstd::prelude::*;
use crate::app_state::AppState;
use crate::domain::email::Email;
use crate::domain::email::valid_email;
use crate::domain::error::AuthAPIError;
use crate::domain::password::Password;
use crate::domain::password::password_matches;
use crate::domain::password::valid_password;
use crate::domain::user::User;

verus! {

/// A signup request as it arrives, before validation.
#[derive(Debug)]
pub struct SignupRequest {
    pub email: String,
    pub password: String,
    pub requires_2fa: bool,
}

/// The body answered on a successful signup.
#[derive(Debug)]
pub struct SignupResponse {
    pub message: String,
}

impl SignupResponse {
    /// The HTTP status a successful signup maps to.
    pub fn status_code(&self) -> (r: u16)
        ensures
            r == 201,
    {
        201
    }
}

/// A successful signup stores a record under the email, so the store a
/// second signup for the same email sees contains that key, and by `signup`'s
/// contract that second call is answered `UserAlreadyExists`.
pub proof fn lemma_duplicate_signup_rejected(
    users: Map<Seq<char>, crate::domain::user::UserRowView>,
    email: Seq<char>,
    row: crate::domain::user::UserRowView,
)
    ensures
        users.insert(email, row).contains_key(email),
{
}

/// Signs the user up: the email must contain an `@` and the password must
/// have at least eight characters, the email must be new, and the stored
/// record keeps only the password's hash.
pub fn signup(state: &mut AppState, request: &SignupRequest) -> (r: Result<
    SignupResponse,
    AuthAPIError,
>)
    ensures
        !(valid_email(request.email@) && valid_password(request.password@)) ==> r
            == Err::<SignupResponse, AuthAPIError>(AuthAPIError::InvalidCredentials)
            && crate::app_state::spec_state_unchanged(*old(state), *final(state)),
        valid_email(request.email@) && valid_password(request.password@) && old(
            state,
        ).user_store@.contains_key(request.email@) ==> r == Err::<SignupResponse, AuthAPIError>(
            AuthAPIError::UserAlreadyExists,
        ) && crate::app_state::spec_state_unchanged(*old(state), *final(state)),
        valid_email(request.email@) && valid_password(request.password@) && !old(
            state,
        ).user_store@.contains_key(request.email@) ==> match r {
            Ok(response) => {
                &&& response.message@ == "User created successfully!"@
                &&& final(state).user_store@.contains_key(request.email@)
                &&& final(state).user_store@ == old(state).user_store@.insert(
                    request.email@,
                    final(state).user_store@[request.email@],
                )
                &&& final(state).user_store@[request.email@].email == request.email@
                &&& final(state).user_store@[request.email@].requires_2fa == request.requires_2fa
                &&& password_matches(
                    request.password@,
                    final(state).user_store@[request.email@].password_hash,
                )
                &&& crate::domain::password::spec_phc_prefix().is_prefix_of(
                    final(state).user_store@[request.email@].password_hash,
                )
                &&& final(state).banned_token_store@ == old(state).banned_token_store@
                &&& final(state).two_factor_store@ == old(state).two_factor_store@
                &&& final(state).email_client@ == old(state).email_client@
                &&& final(state).jwt_secret@ == old(state).jwt_secret@
            },
            Err(e) => e == AuthAPIError::UnexpectedError && crate::app_state::spec_state_unchanged(
                *old(state),
                *final(state),
            ),
        },
{
    let email = match Email::parse(request.email.as_str()) {
        Ok(email) => email,
        Err(_) => return Err(AuthAPIError::InvalidCredentials),
    };
    let password = match Password::parse(request.password.as_str()) {
        Ok(password) => password,
        Err(_) => return Err(AuthAPIError::InvalidCredentials),
    };

    if state.user_store.get_user(&email).is_ok() {
        return Err(AuthAPIError::UserAlreadyExists);
    }

    let user = User::new(&email, &password, request.requires_2fa);

    match state.user_store.add_user(user) {
        Ok(()) => {},
        Err(_) => return Err(AuthAPIError::UnexpectedError),
    }

    Ok(SignupResponse { message: String::from_str("User created successfully!") })
}

} // verus!
