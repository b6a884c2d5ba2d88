//! The login flow: check credentials, then either issue a session cookie or
//! open a two-factor challenge.

use vstd::prelude::*;
use crate::app_state::AppState;
use crate::app_state::spec_state_unchanged;
use crate::domain::data_stores::LoginAttemptId;
use crate::domain::data_stores::TwoFactorCode;
use crate::domain::data_stores::all_decimal_digits;
use crate::domain::data_stores::uuid_canonical;
use crate::domain::email::Email;
use crate::domain::email::valid_email;
use crate::domain::error::AuthAPIError;
use crate::domain::password::Password;
use crate::domain::password::password_matches;
use crate::domain::password::valid_password;
use crate::utils::auth::TOKEN_TTL_SECONDS;
use crate::utils::auth::AuthCookie;
use crate::utils::auth::generate_auth_cookie;
use crate::utils::auth::jwt_claims;
use crate::utils::auth::spec_auth_cookie;
use crate::utils::auth::spec_dot_count;

verus! {

/// A login request as it arrives, before validation.
#[derive(Debug)]
pub struct LoginRequest {
    pub email: String,
    pub password: String,
}

/// The body answered on a plain successful login.
#[derive(Debug)]
pub struct RegularAuthResponse {
    pub message: String,
}

/// The body answered when a second factor is still owed: it carries the
/// attempt identifier but never the code.
#[derive(Debug)]
pub struct TwoFactorAuthResponse {
    pub message: String,
    pub login_attempt_id: LoginAttemptId,
}

/// What a login answers: either a completed session or a pending challenge.
#[derive(Debug)]
pub enum LoginResponse {
    RegularAuth(RegularAuthResponse),
    TwoFactorAuth(TwoFactorAuthResponse),
}

impl LoginResponse {
    /// The HTTP status each answer maps to: 200 for a session, 206 while the
    /// second factor is owed.
    pub open spec fn spec_status_code(self) -> u16 {
        match self {
            LoginResponse::RegularAuth(_) => 200,
            LoginResponse::TwoFactorAuth(_) => 206,
        }
    }

    /// The HTTP status this answer maps to.
    pub fn status_code(&self) -> (r: u16)
        ensures
            r == self.spec_status_code(),
    {
        match self {
            LoginResponse::RegularAuth(_) => 200,
            LoginResponse::TwoFactorAuth(_) => 206,
        }
    }
}

/// The request names a stored user and its password is well-formed.
pub open spec fn spec_login_known(state: AppState, request: LoginRequest) -> bool {
    &&& valid_email(request.email@)
    &&& valid_password(request.password@)
    &&& state.user_store@.contains_key(request.email@)
}

/// The request's password verifies against the stored record.
pub open spec fn spec_login_password_ok(state: AppState, request: LoginRequest) -> bool {
    password_matches(request.password@, state.user_store@[request.email@].password_hash)
}

/// Logs the user in. A malformed email or password and an unknown email all
/// answer the same `InvalidCredentials`; a known user with a wrong password
/// answers `IncorrectCredentials`; a known user with the right password gets
/// a session cookie at once — promised whenever the expiry fits the
/// timestamp type — or a stored challenge and its attempt id when a second
/// factor is required; the code itself travels only to the email
/// collaborator.
pub fn login(state: &mut AppState, request: &LoginRequest, now: u64) -> (r: Result<
    (LoginResponse, Option<AuthCookie>),
    AuthAPIError,
>)
    ensures
        !spec_login_known(*old(state), *request) ==> r == Err::<
            (LoginResponse, Option<AuthCookie>),
            AuthAPIError,
        >(AuthAPIError::InvalidCredentials) && spec_state_unchanged(*old(state), *final(state)),
        spec_login_known(*old(state), *request) && !spec_login_password_ok(*old(state), *request)
            ==> r == Err::<(LoginResponse, Option<AuthCookie>), AuthAPIError>(
            AuthAPIError::IncorrectCredentials,
        ) && spec_state_unchanged(*old(state), *final(state)),
        spec_login_known(*old(state), *request) && spec_login_password_ok(*old(state), *request)
            && !old(state).user_store@[request.email@].requires_2fa ==> match r {
            Ok((response, cookie)) => {
                &&& response matches LoginResponse::RegularAuth(body) && body.message@
                    == "User logged in successfully!"@
                &&& cookie matches Some(c) && {
                    &&& spec_auth_cookie(c, c.value@)
                    &&& jwt_claims(c.value@, old(state).jwt_secret@) == Some(
                        (request.email@, (now + TOKEN_TTL_SECONDS) as u64),
                    )
                    &&& spec_dot_count(c.value@) == 2
                    &&& c.value@.len() > 0
                }
                &&& now + TOKEN_TTL_SECONDS <= u64::MAX
                &&& spec_state_unchanged(*old(state), *final(state))
            },
            Err(e) => e == AuthAPIError::UnexpectedError && now + TOKEN_TTL_SECONDS > u64::MAX
                && spec_state_unchanged(*old(state), *final(state)),
        },
        spec_login_known(*old(state), *request) && spec_login_password_ok(*old(state), *request)
            && old(state).user_store@[request.email@].requires_2fa ==> match r {
            Ok((response, cookie)) => {
                &&& cookie is None
                &&& response matches LoginResponse::TwoFactorAuth(body) && {
                    &&& body.message@ == "2FA required"@
                    &&& uuid_canonical(body.login_attempt_id@) == Some(body.login_attempt_id@)
                    &&& exists|code: Seq<char>|
                        {
                            &&& code.len() == 6
                            &&& all_decimal_digits(code)
                            &&& final(state).two_factor_store@ == old(
                                state,
                            ).two_factor_store@.insert(
                                request.email@,
                                (body.login_attempt_id@, code),
                            )
                            &&& final(state).email_client@ == old(state).email_client@.push(
                                (request.email@, "Your 2FA"@, code),
                            )
                        }
                }
                &&& final(state).user_store@ == old(state).user_store@
                &&& final(state).banned_token_store@ == old(state).banned_token_store@
                &&& final(state).jwt_secret@ == old(state).jwt_secret@
            },
            Err(_) => false,
        },
{
    let email = match Email::parse(request.email.as_str()) {
        Ok(email) => email,
        Err(_) => return Err(AuthAPIError::InvalidCredentials),
    };
    let user = match state.user_store.get_user(&email) {
        Ok(user) => user,
        Err(_) => return Err(AuthAPIError::InvalidCredentials),
    };
    let password = match Password::parse(request.password.as_str()) {
        Ok(password) => password,
        Err(_) => return Err(AuthAPIError::InvalidCredentials),
    };

    if user.verify_password_hash(password.as_str()).is_err() {
        return Err(AuthAPIError::IncorrectCredentials);
    }

    if user.requires_2fa {
        let response = handle_2fa(&email, state);
        Ok((response, None))
    } else {
        let response = handle_no_2fa();
        let cookie = match generate_auth_cookie(&email, state.jwt_secret.as_slice(), now) {
            Ok(cookie) => cookie,
            Err(_) => return Err(AuthAPIError::UnexpectedError),
        };
        Ok((response, Some(cookie)))
    }
}

/// Opens a fresh challenge for the user: stores it, overwriting any earlier
/// one, hands the code to the email collaborator, and answers with the
/// attempt id alone.
fn handle_2fa(email: &Email, state: &mut AppState) -> (r: LoginResponse)
    ensures
        r matches LoginResponse::TwoFactorAuth(body) && {
            &&& body.message@ == "2FA required"@
            &&& uuid_canonical(body.login_attempt_id@) == Some(body.login_attempt_id@)
            &&& exists|code: Seq<char>|
                {
                    &&& code.len() == 6
                    &&& all_decimal_digits(code)
                    &&& final(state).two_factor_store@ == old(state).two_factor_store@.insert(
                        email@,
                        (body.login_attempt_id@, code),
                    )
                    &&& final(state).email_client@ == old(state).email_client@.push(
                        (email@, "Your 2FA"@, code),
                    )
                }
        },
        final(state).user_store@ == old(state).user_store@,
        final(state).banned_token_store@ == old(state).banned_token_store@,
        final(state).jwt_secret@ == old(state).jwt_secret@,
{
    let attempt_id = LoginAttemptId::default();
    let code = TwoFactorCode::default();

    // Neither call can fail: the in-memory store upserts and the mock client
    // records.
    let _ = state.two_factor_store.add_code(email.clone(), attempt_id.clone(), code.clone());
    let _ = state.email_client.send_email(email, "Your 2FA", code.as_str());

    LoginResponse::TwoFactorAuth(
        TwoFactorAuthResponse { message: String::from_str("2FA required"), login_attempt_id: attempt_id },
    )
}

/// The answer for a login that needs no second factor.
fn handle_no_2fa() -> (r: LoginResponse)
    ensures
        r matches LoginResponse::RegularAuth(body) && body.message@
            == "User logged in successfully!"@,
{
    LoginResponse::RegularAuth(
        RegularAuthResponse { message: String::from_str("User logged in successfully!") },
    )
}

} // verus!
