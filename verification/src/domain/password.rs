//! Passwords and the memory-hard hashing behind them.

use vstd::prelude::*;

verus! {

/// An ASCII whitespace character, the kind trimmed off a password before the
/// length policy is applied.
pub open spec fn is_space_char(c: char) -> bool {
    c == ' ' || c == '\t' || c == '\n' || c == '\r' || c == '\u{c}'
}

/// `s` without its leading and trailing whitespace.
pub open spec fn spec_trimmed(s: Seq<char>) -> Seq<char>
    decreases s.len(),
{
    if s.len() == 0 {
        s
    } else if is_space_char(s[0]) {
        spec_trimmed(s.drop_first())
    } else if is_space_char(s.last()) {
        spec_trimmed(s.drop_last())
    } else {
        s
    }
}

/// A password is acceptable exactly when, after trimming whitespace, at
/// least eight characters remain.
pub open spec fn valid_password(s: Seq<char>) -> bool {
    spec_trimmed(s).len() >= 8
}

/// The opening every blob this module derives carries: the PHC fields for
/// Argon2id, version 19, and the fixed cost parameters (memory 15000 KiB,
/// 2 iterations, 1 lane); the salt and the derived key follow it.
pub open spec fn spec_phc_prefix() -> Seq<char> {
    "$argon2id$v=19$m=15000,t=2,p=1$"@
}

/// Whether the Argon2id verifier accepts `password` against the PHC-encoded
/// blob `blob`. The verifier reads the algorithm, cost parameters and salt
/// out of the blob itself, so the outcome is a function of these two strings
/// alone; the definition lives in the argon2 crate.
pub uninterp spec fn password_matches(password: Seq<char>, blob: Seq<char>) -> bool;

/// A validated plaintext password of at least eight characters.
#[derive(Debug)]
pub struct Password(String);

impl Clone for Password {
    fn clone(&self) -> (r: Self)
        ensures
            r@ == self@,
    {
        Password(self.0.clone())
    }
}

impl View for Password {
    type V = Seq<char>;

    closed spec fn view(&self) -> Seq<char> {
        self.0@
    }
}

impl PartialEq for Password {
    fn eq(&self, other: &Self) -> (r: bool) {
        self.0 == other.0
    }
}

impl vstd::std_specs::cmp::PartialEqSpecImpl for Password {
    open spec fn obeys_eq_spec() -> bool {
        true
    }

    open spec fn eq_spec(&self, other: &Self) -> bool {
        self@ == other@
    }
}

impl Password {
    /// Accepts the password exactly when at least eight characters remain
    /// after trimming whitespace; the wrapped string is the input untrimmed.
    pub fn parse(maybe_password: &str) -> (r: Result<Self, String>)
        ensures
            r is Ok <==> valid_password(maybe_password@),
            r is Ok ==> r.unwrap()@ == maybe_password@,
    {
        if !validate_password(maybe_password) {
            return Err(String::from_str("Password should be longer than 8 characters"));
        }

        Ok(Password(String::from_str(maybe_password)))
    }

    /// The password as a string slice.
    pub fn as_str(&self) -> (r: &str)
        ensures
            r@ == self@,
    {
        self.0.as_str()
    }

    /// Derives a salted Argon2id blob for this password. Two calls salt
    /// differently and so return different blobs, but every returned blob
    /// is a self-describing PHC string under the fixed cost parameters and
    /// verifies this password.
    pub fn hash(&self) -> (r: Result<String, ()>)
        ensures
            r is Ok ==> password_matches(self@, r.unwrap()@),
            r is Ok ==> spec_phc_prefix().is_prefix_of(r.unwrap()@),
    {
        argon2_hash(self.0.as_str())
    }
}

fn is_space(c: char) -> (r: bool)
    ensures
        r == is_space_char(c),
{
    c == ' ' || c == '\t' || c == '\n' || c == '\r' || c == '\u{c}'
}

/// The length of `s` once leading and trailing whitespace is gone.
fn trimmed_len(s: &str) -> (r: usize)
    ensures
        r == spec_trimmed(s@).len(),
{
    let len: usize = s.unicode_len();
    let mut start: usize = 0;
    let mut end: usize = len;
    proof {
        assert(s@.subrange(0, len as int) =~= s@);
    }
    loop
        invariant
            0 <= start <= end <= len,
            len == s@.len(),
            spec_trimmed(s@) == spec_trimmed(s@.subrange(start as int, end as int)),
        decreases end - start,
    {
        if start == end {
            return 0;
        }
        if is_space(s.get_char(start)) {
            proof {
                assert(s@.subrange(start as int, end as int).drop_first() =~= s@.subrange(
                    start + 1,
                    end as int,
                ));
            }
            start = start + 1;
        } else if is_space(s.get_char(end - 1)) {
            proof {
                assert(s@.subrange(start as int, end as int).drop_last() =~= s@.subrange(
                    start as int,
                    end - 1,
                ));
            }
            end = end - 1;
        } else {
            return end - start;
        }
    }
}

fn validate_password(s: &str) -> (r: bool)
    ensures
        r == valid_password(s@),
{
    trimmed_len(s) >= 8
}

/// Relies on argon2's `PasswordHasher::hash_password` (Argon2id, version 0x13,
/// memory 15000 KiB, 2 iterations, 1 lane): on success the returned PHC blob
/// opens with exactly those algorithm, version and cost fields, carries a
/// fresh random salt, and verifies the password it was derived from.
#[verifier::external_body]
fn argon2_hash(password: &str) -> (r: Result<String, ()>)
    ensures
        r is Ok ==> password_matches(password@, r.unwrap()@),
        r is Ok ==> spec_phc_prefix().is_prefix_of(r.unwrap()@),
{
    let params = match argon2::Params::new(15000, 2, 1, None) {
        Ok(params) => params,
        Err(_) => return Err(()),
    };
    let hasher = argon2::Argon2::new(argon2::Algorithm::Argon2id, argon2::Version::V0x13, params);
    match argon2::PasswordHasher::hash_password(&hasher, password.as_bytes()) {
        Ok(blob) => Ok(blob.to_string()),
        Err(_) => Err(()),
    }
}

/// Relies on argon2's `PasswordVerifier::verify_password`: deterministic in
/// the password and the PHC blob (a blob that does not parse verifies
/// nothing).
#[verifier::external_body]
pub(crate) fn argon2_verify(password: &str, blob: &str) -> (r: bool)
    ensures
        r == password_matches(password@, blob@),
{
    let parsed = match argon2::password_hash::phc::PasswordHash::new(blob) {
        Ok(parsed) => parsed,
        Err(_) => return false,
    };
    argon2::PasswordVerifier::verify_password(&argon2::Argon2::default(), password.as_bytes(), &parsed).is_ok()
}

} // verus!
