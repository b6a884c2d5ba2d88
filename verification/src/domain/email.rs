//! Email addresses, validated to contain an `@`.

use vstd::prelude::*;

verus! {

/// An address is acceptable exactly when it contains an `@` character.
pub open spec fn valid_email(s: Seq<char>) -> bool {
    exists|i: int| 0 <= i < s.len() && s[i] == '@'
}

/// A validated email address: the wrapped string always contains an `@`.
#[derive(Debug)]
pub struct Email(String);

impl Clone for Email {
    fn clone(&self) -> (r: Self)
        ensures
            r@ == self@,
    {
        Email(self.0.clone())
    }
}

impl View for Email {
    type V = Seq<char>;

    closed spec fn view(&self) -> Seq<char> {
        self.0@
    }
}

impl PartialEq for Email {
    fn eq(&self, other: &Self) -> (r: bool) {
        self.0 == other.0
    }
}

impl vstd::std_specs::cmp::PartialEqSpecImpl for Email {
    open spec fn obeys_eq_spec() -> bool {
        true
    }

    open spec fn eq_spec(&self, other: &Self) -> bool {
        self@ == other@
    }
}

impl Email {
    /// Accepts the address exactly when it contains an `@`.
    pub fn parse(maybe_email: &str) -> (r: Result<Self, String>)
        ensures
            r is Ok <==> valid_email(maybe_email@),
            r is Ok ==> r.unwrap()@ == maybe_email@,
    {
        if !validate_email(maybe_email) {
            return Err(String::from_str("Email should contain @"));
        }

        Ok(Email(String::from_str(maybe_email)))
    }

    /// The address as a string slice.
    pub fn as_str(&self) -> (r: &str)
        ensures
            r@ == self@,
    {
        self.0.as_str()
    }
}

fn validate_email(s: &str) -> (r: bool)
    ensures
        r == valid_email(s@),
{
    let len: usize = s.unicode_len();
    let mut i: usize = 0;
    while i < len
        invariant
            0 <= i <= len,
            len == s@.len(),
            forall|j: int| 0 <= j < i ==> s@[j] != '@',
        decreases len - i,
    {
        if s.get_char(i) == '@' {
            return true;
        }
        i = i + 1;
    }

    false
}

} // verus!
