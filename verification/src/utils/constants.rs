//! Process-wide names and limits.

use vstd::prelude::*;

verus! {

/// The name of the session cookie.
pub fn jwt_cookie_name() -> (r: &'static str)
    ensures
        r@ == spec_jwt_cookie_name(),
{
    "jwt"
}

/// The name of the session cookie, as a sequence of characters.
pub open spec fn spec_jwt_cookie_name() -> Seq<char> {
    "jwt"@
}

} // verus!
