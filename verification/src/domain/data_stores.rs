//! Store error taxonomies and the two-factor challenge value types.

use vstd::prelude::*;

verus! {

/// Errors a credential store can report.
#[derive(Clone, Copy, Debug, PartialEq, Eq, Structural)]
pub enum UserStoreError {
    InvalidCredentials,
    UserAlreadyExists,
    UserNotFound,
    UnexpectedError,
}

/// Errors a token-revocation store can report.
#[derive(Clone, Copy, Debug, PartialEq, Eq, Structural)]
pub enum BannedTokenStoreError {
    UnexpectedError,
}

/// Errors a two-factor challenge store can report.
#[derive(Clone, Copy, Debug, PartialEq, Eq, Structural)]
pub enum TwoFactorStoreError {
    LoginAttemptIdNotFound,
    UnexpectedError,
}

/// The canonical hyphenated rendering of a UUID parsed from `s`, or `None`
/// when `s` is not a UUID in any of the textual forms the uuid crate accepts;
/// the definition lives in the uuid crate.
pub uninterp spec fn uuid_canonical(s: Seq<char>) -> Option<Seq<char>>;

/// An identifier for one pending two-factor login, rendered as a canonical
/// UUID string.
#[derive(Debug)]
pub struct LoginAttemptId(String);

impl View for LoginAttemptId {
    type V = Seq<char>;

    closed spec fn view(&self) -> Seq<char> {
        self.0@
    }
}

impl Clone for LoginAttemptId {
    fn clone(&self) -> (r: Self)
        ensures
            r@ == self@,
    {
        LoginAttemptId(self.0.clone())
    }
}

impl PartialEq for LoginAttemptId {
    fn eq(&self, other: &Self) -> (r: bool) {
        self.0 == other.0
    }
}

impl vstd::std_specs::cmp::PartialEqSpecImpl for LoginAttemptId {
    open spec fn obeys_eq_spec() -> bool {
        true
    }

    open spec fn eq_spec(&self, other: &Self) -> bool {
        self@ == other@
    }
}

impl Default for LoginAttemptId {
    /// A fresh random identifier; it parses back to itself.
    fn default() -> (r: Self)
        ensures
            uuid_canonical(r@) == Some(r@),
    {
        LoginAttemptId(new_uuid_string())
    }
}

impl LoginAttemptId {
    /// Accepts exactly the strings the uuid crate parses, normalised to the
    /// canonical hyphenated form.
    pub fn parse(maybe_uuid: &str) -> (r: Result<Self, String>)
        ensures
            r is Ok <==> uuid_canonical(maybe_uuid@) is Some,
            r is Ok ==> Some(r.unwrap()@) == uuid_canonical(maybe_uuid@),
    {
        match parse_uuid_string(maybe_uuid) {
            Ok(canonical) => Ok(LoginAttemptId(canonical)),
            Err(message) => Err(message),
        }
    }

    /// The identifier as a string slice.
    pub fn as_str(&self) -> (r: &str)
        ensures
            r@ == self@,
    {
        self.0.as_str()
    }
}

/// One of the ten decimal digit characters.
pub open spec fn is_decimal_digit(c: char) -> bool {
    c == '0' || c == '1' || c == '2' || c == '3' || c == '4' || c == '5' || c == '6' || c == '7'
        || c == '8' || c == '9'
}

/// All characters of `s` are decimal digits.
pub open spec fn all_decimal_digits(s: Seq<char>) -> bool {
    forall|i: int| 0 <= i < s.len() ==> is_decimal_digit(s[i])
}

/// A six-character one-time code for a two-factor login.
#[derive(Debug)]
pub struct TwoFactorCode(String);

impl View for TwoFactorCode {
    type V = Seq<char>;

    closed spec fn view(&self) -> Seq<char> {
        self.0@
    }
}

impl Clone for TwoFactorCode {
    fn clone(&self) -> (r: Self)
        ensures
            r@ == self@,
    {
        TwoFactorCode(self.0.clone())
    }
}

impl PartialEq for TwoFactorCode {
    fn eq(&self, other: &Self) -> (r: bool) {
        self.0 == other.0
    }
}

impl vstd::std_specs::cmp::PartialEqSpecImpl for TwoFactorCode {
    open spec fn obeys_eq_spec() -> bool {
        true
    }

    open spec fn eq_spec(&self, other: &Self) -> bool {
        self@ == other@
    }
}

impl Default for TwoFactorCode {
    /// A fresh random six-digit code.
    fn default() -> (r: Self)
        ensures
            r@.len() == 6,
            all_decimal_digits(r@),
    {
        let n = random_six_digit_number();
        TwoFactorCode(six_digit_string(n))
    }
}

impl TwoFactorCode {
    /// Accepts exactly the strings of six decimal digits.
    pub fn parse(code: &str) -> (r: Result<Self, String>)
        ensures
            r is Ok <==> code@.len() == 6 && all_decimal_digits(code@),
            r is Ok ==> r.unwrap()@ == code@,
    {
        if code.unicode_len() != 6 || !all_digits(code) {
            return Err(String::from_str("Invalid 2FA code"));
        }

        Ok(TwoFactorCode(String::from_str(code)))
    }

    /// The code as a string slice.
    pub fn as_str(&self) -> (r: &str)
        ensures
            r@ == self@,
    {
        self.0.as_str()
    }
}

fn is_digit(c: char) -> (r: bool)
    ensures
        r == is_decimal_digit(c),
{
    c == '0' || c == '1' || c == '2' || c == '3' || c == '4' || c == '5' || c == '6' || c == '7'
        || c == '8' || c == '9'
}

fn all_digits(s: &str) -> (r: bool)
    ensures
        r == all_decimal_digits(s@),
{
    let len: usize = s.unicode_len();
    let mut i: usize = 0;
    while i < len
        invariant
            0 <= i <= len,
            len == s@.len(),
            forall|j: int| 0 <= j < i ==> is_decimal_digit(s@[j]),
        decreases len - i,
    {
        if !is_digit(s.get_char(i)) {
            return false;
        }
        i = i + 1;
    }

    true
}

/// Relies on `uuid::Uuid::parse_str` and its `Display`: parsing is
/// deterministic in the input text, and an accepted UUID renders back as its
/// canonical hyphenated form.
#[verifier::external_body]
fn parse_uuid_string(s: &str) -> (r: Result<String, String>)
    ensures
        r is Ok <==> uuid_canonical(s@) is Some,
        r is Ok ==> Some(r.unwrap()@) == uuid_canonical(s@),
{
    match uuid::Uuid::parse_str(s) {
        Ok(parsed) => Ok(parsed.to_string()),
        Err(error) => Err(error.to_string()),
    }
}

/// Relies on `uuid::Uuid::new_v4` and its `Display`: a fresh random UUID,
/// rendered in the canonical hyphenated form, which parses back to itself.
#[verifier::external_body]
fn new_uuid_string() -> (r: String)
    ensures
        uuid_canonical(r@) == Some(r@),
{
    uuid::Uuid::new_v4().to_string()
}

/// Relies on rand's `RngExt::random_range`: a number drawn uniformly from
/// `100000..999999`.
#[verifier::external_body]
fn random_six_digit_number() -> (r: u32)
    ensures
        100000 <= r < 999999,
{
    <rand::rngs::ThreadRng as rand::RngExt>::random_range(&mut rand::rng(), 100000..999999)
}

/// The decimal digit character for `d`.
pub open spec fn spec_digit(d: int) -> char {
    if d == 0 {
        '0'
    } else if d == 1 {
        '1'
    } else if d == 2 {
        '2'
    } else if d == 3 {
        '3'
    } else if d == 4 {
        '4'
    } else if d == 5 {
        '5'
    } else if d == 6 {
        '6'
    } else if d == 7 {
        '7'
    } else if d == 8 {
        '8'
    } else {
        '9'
    }
}

fn digit_str(d: u32) -> (r: &'static str)
    requires
        d < 10,
    ensures
        r@ =~= seq![spec_digit(d as int)],
{
    proof {
        reveal_strlit("0");
        reveal_strlit("1");
        reveal_strlit("2");
        reveal_strlit("3");
        reveal_strlit("4");
        reveal_strlit("5");
        reveal_strlit("6");
        reveal_strlit("7");
        reveal_strlit("8");
        reveal_strlit("9");
    }
    if d == 0 {
        "0"
    } else if d == 1 {
        "1"
    } else if d == 2 {
        "2"
    } else if d == 3 {
        "3"
    } else if d == 4 {
        "4"
    } else if d == 5 {
        "5"
    } else if d == 6 {
        "6"
    } else if d == 7 {
        "7"
    } else if d == 8 {
        "8"
    } else {
        "9"
    }
}

/// The six decimal digits of a number from the six-digit range, leftmost
/// first.
pub open spec fn spec_six_digits(n: int) -> Seq<char> {
    seq![
        spec_digit(n / 100000 % 10),
        spec_digit(n / 10000 % 10),
        spec_digit(n / 1000 % 10),
        spec_digit(n / 100 % 10),
        spec_digit(n / 10 % 10),
        spec_digit(n % 10),
    ]
}

/// Renders a number from the six-digit range as its six decimal digits.
fn six_digit_string(n: u32) -> (r: String)
    requires
        100000 <= n <= 999999,
    ensures
        r@ == spec_six_digits(n as int),
        r@.len() == 6,
        all_decimal_digits(r@),
{
    let mut s = String::new();
    s.append(digit_str(n / 100000 % 10));
    s.append(digit_str(n / 10000 % 10));
    s.append(digit_str(n / 1000 % 10));
    s.append(digit_str(n / 100 % 10));
    s.append(digit_str(n / 10 % 10));
    s.append(digit_str(n % 10));
    s
}

} // verus!
