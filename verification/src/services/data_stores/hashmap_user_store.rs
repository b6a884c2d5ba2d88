//! The in-memory credential store holding hashed records.

use vstd::prelude::*;
use crate::collections::StringMap;
use crate::domain::data_stores::UserStoreError;
use crate::domain::email::Email;
use crate::domain::password::Password;
use crate::domain::password::password_matches;
use crate::domain::user::User;
use crate::domain::user::UserRow;
use crate::domain::user::UserRowView;

verus! {

/// An in-memory credential store, viewed as a map from email to the stored
/// record. Each record keeps only the password's hash.
#[derive(Debug)]
pub struct HashmapUserStore {
    users: StringMap<UserRow>,
}

impl View for HashmapUserStore {
    type V = Map<Seq<char>, UserRowView>;

    closed spec fn view(&self) -> Map<Seq<char>, UserRowView> {
        self.users@
    }
}

impl Default for HashmapUserStore {
    /// An empty credential store.
    fn default() -> (r: Self)
        ensures
            r@ == Map::<Seq<char>, UserRowView>::empty(),
    {
        HashmapUserStore { users: StringMap::new() }
    }
}

impl HashmapUserStore {
    /// Adds the user under their email. Duplicate emails are rejected; on
    /// success the stored record hashes the user's password.
    pub fn add_user(&mut self, user: User) -> (r: Result<(), UserStoreError>)
        ensures
            old(self)@.contains_key(user.email@) ==> r == Err::<(), UserStoreError>(
                UserStoreError::UserAlreadyExists,
            ) && final(self)@ == old(self)@,
            !old(self)@.contains_key(user.email@) && r is Ok ==> {
                &&& final(self)@.contains_key(user.email@)
                &&& final(self)@ == old(self)@.insert(user.email@, final(self)@[user.email@])
                &&& final(self)@[user.email@].email == user.email@
                &&& final(self)@[user.email@].requires_2fa == user.requires_2fa
                &&& password_matches(user.password@, final(self)@[user.email@].password_hash)
                &&& crate::domain::password::spec_phc_prefix().is_prefix_of(
                    final(self)@[user.email@].password_hash,
                )
            },
            !old(self)@.contains_key(user.email@) && r is Err ==> r == Err::<(), UserStoreError>(
                UserStoreError::UnexpectedError,
            ) && final(self)@ == old(self)@,
    {
        if self.users.contains_key(user.email.as_str()) {
            return Err(UserStoreError::UserAlreadyExists);
        }

        let user_row = match user.into_row() {
            Ok(row) => row,
            Err(()) => return Err(UserStoreError::UnexpectedError),
        };

        self.users.insert(user.email.as_str(), user_row);

        Ok(())
    }

    /// The record stored under `email`, if any.
    pub fn get_user(&self, email: &Email) -> (r: Result<UserRow, UserStoreError>)
        ensures
            match r {
                Ok(row) => self@.contains_key(email@) && row@ == self@[email@],
                Err(e) => !self@.contains_key(email@) && e == UserStoreError::UserNotFound,
            },
    {
        let row = match self.users.get(email.as_str()) {
            Some(row) => row,
            None => return Err(UserStoreError::UserNotFound),
        };

        Ok(row.clone())
    }

    /// Checks the password against the record stored under `email`.
    pub fn validate_user(&self, email: &Email, password: &Password) -> (r: Result<
        (),
        UserStoreError,
    >)
        ensures
            !self@.contains_key(email@) ==> r == Err::<(), UserStoreError>(
                UserStoreError::UserNotFound,
            ),
            self@.contains_key(email@) ==> r == if password_matches(
                password@,
                self@[email@].password_hash,
            ) {
                Ok::<(), UserStoreError>(())
            } else {
                Err::<(), UserStoreError>(UserStoreError::InvalidCredentials)
            },
    {
        let user = match self.get_user(email) {
            Ok(user) => user,
            Err(e) => return Err(e),
        };

        if user.verify_password_hash(password.as_str()).is_err() {
            return Err(UserStoreError::InvalidCredentials);
        }

        Ok(())
    }
}

} // verus!
