//! User records, before and after password hashing.

use vstd::prelude::*;
use crate::domain::email::Email;
use crate::domain::password::Password;
use crate::domain::password::argon2_verify;
use crate::domain::password::password_matches;

verus! {

/// The mathematical content of a `User`.
pub ghost struct UserView {
    pub email: Seq<char>,
    pub password: Seq<char>,
    pub requires_2fa: bool,
}

/// The mathematical content of a `UserRow`.
pub ghost struct UserRowView {
    pub email: Seq<char>,
    pub password_hash: Seq<char>,
    pub requires_2fa: bool,
}

/// A signup request: a validated email, the plaintext password and the
/// second-factor preference.
#[derive(Debug)]
pub struct User {
    pub email: Email,
    pub password: Password,
    pub requires_2fa: bool,
}

impl View for User {
    type V = UserView;

    open spec fn view(&self) -> UserView {
        UserView { email: self.email@, password: self.password@, requires_2fa: self.requires_2fa }
    }
}

impl Clone for User {
    fn clone(&self) -> (r: Self)
        ensures
            r.email@ == self.email@,
            r.password@ == self.password@,
            r.requires_2fa == self.requires_2fa,
    {
        User { email: self.email.clone(), password: self.password.clone(), requires_2fa: self.requires_2fa }
    }
}

impl PartialEq for User {
    fn eq(&self, other: &Self) -> (r: bool) {
        self.email == other.email && self.password == other.password && self.requires_2fa == other.requires_2fa
    }
}

impl vstd::std_specs::cmp::PartialEqSpecImpl for User {
    open spec fn obeys_eq_spec() -> bool {
        true
    }

    open spec fn eq_spec(&self, other: &Self) -> bool {
        self.email@ == other.email@ && self.password@ == other.password@ && self.requires_2fa
            == other.requires_2fa
    }
}

/// A stored credential record: the email, the password's Argon2id blob and
/// the second-factor preference. The plaintext password is gone.
#[derive(Debug)]
pub struct UserRow {
    pub email: String,
    pub password_hash: String,
    pub requires_2fa: bool,
}

impl View for UserRow {
    type V = UserRowView;

    open spec fn view(&self) -> UserRowView {
        UserRowView {
            email: self.email@,
            password_hash: self.password_hash@,
            requires_2fa: self.requires_2fa,
        }
    }
}

impl Clone for UserRow {
    fn clone(&self) -> (r: Self)
        ensures
            r.email@ == self.email@,
            r.password_hash@ == self.password_hash@,
            r.requires_2fa == self.requires_2fa,
    {
        UserRow {
            email: self.email.clone(),
            password_hash: self.password_hash.clone(),
            requires_2fa: self.requires_2fa,
        }
    }
}

impl PartialEq for UserRow {
    fn eq(&self, other: &Self) -> (r: bool) {
        self.email == other.email && self.password_hash == other.password_hash && self.requires_2fa
            == other.requires_2fa
    }
}

impl vstd::std_specs::cmp::PartialEqSpecImpl for UserRow {
    open spec fn obeys_eq_spec() -> bool {
        true
    }

    open spec fn eq_spec(&self, other: &Self) -> bool {
        self.email@ == other.email@ && self.password_hash@ == other.password_hash@
            && self.requires_2fa == other.requires_2fa
    }
}

impl User {
    pub fn new(email: &Email, password: &Password, requires_2fa: bool) -> (r: Self)
        ensures
            r.email@ == email@,
            r.password@ == password@,
            r.requires_2fa == requires_2fa,
    {
        Self { email: email.clone(), password: password.clone(), requires_2fa }
    }

    /// Hashes the password and builds the record that stores keep. On success
    /// the record carries the same email and second-factor preference, and its
    /// blob is a PHC string under the fixed cost parameters that verifies
    /// this user's password — never the plaintext.
    pub fn into_row(&self) -> (r: Result<UserRow, ()>)
        ensures
            r is Ok ==> r.unwrap().email@ == self.email@,
            r is Ok ==> r.unwrap().requires_2fa == self.requires_2fa,
            r is Ok ==> password_matches(self.password@, r.unwrap().password_hash@),
            r is Ok ==> crate::domain::password::spec_phc_prefix().is_prefix_of(
                r.unwrap().password_hash@,
            ),
    {
        let password_hash = match self.password.hash() {
            Ok(blob) => blob,
            Err(()) => return Err(()),
        };

        Ok(UserRow { email: String::from_str(self.email.as_str()), password_hash, requires_2fa: self.requires_2fa })
    }
}

impl UserRow {
    /// Checks the plaintext `target` against this record's stored blob.
    pub fn verify_password_hash(&self, target: &str) -> (r: Result<(), ()>)
        ensures
            r is Ok <==> password_matches(target@, self.password_hash@),
    {
        if argon2_verify(target, self.password_hash.as_str()) {
            Ok(())
        } else {
            Err(())
        }
    }
}

} // verus!
