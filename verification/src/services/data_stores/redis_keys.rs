//! Key construction for the network-backed store variants. The stores
//! themselves live with the I/O; the keys they use are built and checked
//! here.

use vstd::prelude::*;
use crate::domain::email::Email;

verus! {

/// The key under which a revoked token is stored.
pub fn get_key(token: &str) -> (r: String)
    ensures
        r@ == "banned_token:"@ + token@,
{
    let mut key = String::from_str("banned_token:");
    key.append(token);
    key
}

/// The key under which an address's two-factor challenge is stored.
pub fn two_factor_key(email: &Email) -> (r: String)
    ensures
        r@ == "two_factor:"@ + email@,
{
    let mut key = String::from_str("two_factor:");
    key.append(email.as_str());
    key
}

} // verus!
