//! The in-memory two-factor challenge store.

use vstd::prelude::*;
use crate::collections::StringMap;
use crate::domain::data_stores::LoginAttemptId;
use crate::domain::data_stores::TwoFactorCode;
use crate::domain::data_stores::TwoFactorStoreError;
use crate::domain::email::Email;

verus! {

/// Storing a second challenge for the same email overwrites the first: the
/// store afterwards is exactly the one that never saw the first pair, so
/// only the second pair can be read back.
pub proof fn lemma_second_code_wins(
    challenges: Map<Seq<char>, (Seq<char>, Seq<char>)>,
    email: Seq<char>,
    first_id: Seq<char>,
    first_code: Seq<char>,
    second_id: Seq<char>,
    second_code: Seq<char>,
)
    ensures
        challenges.insert(email, (first_id, first_code)).insert(email, (second_id, second_code))
            == challenges.insert(email, (second_id, second_code)),
        ({
            let twice = challenges.insert(email, (first_id, first_code)).insert(
                email,
                (second_id, second_code),
            );
            twice[email] == (second_id, second_code)
        }),
{
    assert(challenges.insert(email, (first_id, first_code)).insert(
        email,
        (second_id, second_code),
    ) =~= challenges.insert(email, (second_id, second_code)));
}

/// An in-memory challenge store, viewed as a map from email to the one live
/// `(attempt id, code)` pair. Storing a new pair overwrites the old one.
#[derive(Debug)]
pub struct HashmapTwoFactorStore {
    codes: StringMap<(LoginAttemptId, TwoFactorCode)>,
}

impl View for HashmapTwoFactorStore {
    type V = Map<Seq<char>, (Seq<char>, Seq<char>)>;

    closed spec fn view(&self) -> Map<Seq<char>, (Seq<char>, Seq<char>)> {
        self.codes@
    }
}

impl Default for HashmapTwoFactorStore {
    /// An empty challenge store.
    fn default() -> (r: Self)
        ensures
            r@ == Map::<Seq<char>, (Seq<char>, Seq<char>)>::empty(),
    {
        HashmapTwoFactorStore { codes: StringMap::new() }
    }
}

impl HashmapTwoFactorStore {
    /// Stores the challenge for `email`, overwriting any earlier one. Never
    /// fails.
    pub fn add_code(
        &mut self,
        email: Email,
        attempt_id: LoginAttemptId,
        code: TwoFactorCode,
    ) -> (r: Result<(), TwoFactorStoreError>)
        ensures
            r is Ok,
            final(self)@ == old(self)@.insert(email@, (attempt_id@, code@)),
    {
        self.codes.insert(email.as_str(), (attempt_id, code));

        Ok(())
    }

    /// Drops the challenge for `email`; reports which emails had none.
    pub fn remove_code(&mut self, email: &Email) -> (r: Result<(), TwoFactorStoreError>)
        ensures
            final(self)@ == old(self)@.remove(email@),
            r == if old(self)@.contains_key(email@) {
                Ok::<(), TwoFactorStoreError>(())
            } else {
                Err::<(), TwoFactorStoreError>(TwoFactorStoreError::LoginAttemptIdNotFound)
            },
    {
        match self.codes.remove(email.as_str()) {
            Some(_) => Ok(()),
            None => Err(TwoFactorStoreError::LoginAttemptIdNotFound),
        }
    }

    /// The live challenge for `email`, if one is stored.
    pub fn get_code(&self, email: &Email) -> (r: Result<
        (LoginAttemptId, TwoFactorCode),
        TwoFactorStoreError,
    >)
        ensures
            match r {
                Ok(pair) => self@.contains_key(email@) && pair@ == self@[email@],
                Err(e) => !self@.contains_key(email@) && e
                    == TwoFactorStoreError::LoginAttemptIdNotFound,
            },
    {
        match self.codes.get(email.as_str()) {
            Some(pair) => Ok((pair.0.clone(), pair.1.clone())),
            None => Err(TwoFactorStoreError::LoginAttemptIdNotFound),
        }
    }
}

} // verus!
