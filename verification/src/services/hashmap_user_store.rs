//! The first in-memory credential store, which kept users with their
//! plaintext passwords and compared them directly.

use vstd::prelude::*;
use crate::collections::StringMap;
use crate::domain::data_stores::UserStoreError;
use crate::domain::email::Email;
use crate::domain::password::Password;
use crate::domain::user::User;
use crate::domain::user::UserView;

verus! {

/// An in-memory user store, viewed as a map from email to the stored user.
#[derive(Debug)]
pub struct HashmapUserStore {
    users: StringMap<User>,
}

impl View for HashmapUserStore {
    type V = Map<Seq<char>, UserView>;

    closed spec fn view(&self) -> Map<Seq<char>, UserView> {
        self.users@
    }
}

impl Default for HashmapUserStore {
    /// An empty user store.
    fn default() -> (r: Self)
        ensures
            r@ == Map::<Seq<char>, UserView>::empty(),
    {
        HashmapUserStore { users: StringMap::new() }
    }
}

impl HashmapUserStore {
    /// Adds the user under their email; duplicate emails are rejected.
    pub fn add_user(&mut self, user: User) -> (r: Result<(), UserStoreError>)
        ensures
            r == if old(self)@.contains_key(user.email@) {
                Err::<(), UserStoreError>(UserStoreError::UserAlreadyExists)
            } else {
                Ok::<(), UserStoreError>(())
            },
            final(self)@ == if old(self)@.contains_key(user.email@) {
                old(self)@
            } else {
                old(self)@.insert(user.email@, user@)
            },
    {
        if self.users.contains_key(user.email.as_str()) {
            return Err(UserStoreError::UserAlreadyExists);
        }

        let email = user.email.clone();
        self.users.insert(email.as_str(), user);

        Ok(())
    }

    /// The user stored under `email`, if any.
    pub fn get_user(&self, email: &Email) -> (r: Result<User, UserStoreError>)
        ensures
            match r {
                Ok(user) => self@.contains_key(email@) && user@ == self@[email@],
                Err(e) => !self@.contains_key(email@) && e == UserStoreError::UserNotFound,
            },
    {
        let user = match self.users.get(email.as_str()) {
            Some(user) => user,
            None => return Err(UserStoreError::UserNotFound),
        };

        Ok(user.clone())
    }

    /// Compares the password with the one stored under `email`.
    pub fn validate_user(&self, email: &Email, password: &Password) -> (r: Result<
        (),
        UserStoreError,
    >)
        ensures
            !self@.contains_key(email@) ==> r == Err::<(), UserStoreError>(
                UserStoreError::UserNotFound,
            ),
            self@.contains_key(email@) ==> r == if self@[email@].password == password@ {
                Ok::<(), UserStoreError>(())
            } else {
                Err::<(), UserStoreError>(UserStoreError::InvalidCredentials)
            },
    {
        let user = match self.get_user(email) {
            Ok(user) => user,
            Err(e) => return Err(e),
        };

        if !(user.password == *password) {
            return Err(UserStoreError::InvalidCredentials);
        }

        Ok(())
    }
}

} // verus!
