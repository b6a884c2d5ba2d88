//! The explicit composition handed to every flow: the three stores, the
//! email collaborator and the signing secret.

use vstd::prelude::*;
use crate::services::banned_token_store::HashsetBannedTokenStore;
use crate::services::data_stores::hashmap_2fa_store::HashmapTwoFactorStore;
use crate::services::data_stores::hashmap_user_store::HashmapUserStore;
use crate::services::mock_email_client::MockEmailClient;

verus! {

/// Everything a flow works on. The signing secret is configuration fixed at
/// construction; it never appears in any message a flow returns.
#[derive(Debug)]
pub struct AppState {
    pub user_store: HashmapUserStore,
    pub banned_token_store: HashsetBannedTokenStore,
    pub two_factor_store: HashmapTwoFactorStore,
    pub email_client: MockEmailClient,
    pub jwt_secret: Vec<u8>,
}

/// Both states hold the same stores, messages and secret.
pub open spec fn spec_state_unchanged(pre: AppState, post: AppState) -> bool {
    &&& post.user_store@ == pre.user_store@
    &&& post.banned_token_store@ == pre.banned_token_store@
    &&& post.two_factor_store@ == pre.two_factor_store@
    &&& post.email_client@ == pre.email_client@
    &&& post.jwt_secret@ == pre.jwt_secret@
}

impl AppState {
    pub fn new(
        banned_token_store: HashsetBannedTokenStore,
        user_store: HashmapUserStore,
        two_factor_store: HashmapTwoFactorStore,
        email_client: MockEmailClient,
        jwt_secret: Vec<u8>,
    ) -> (r: Self)
        ensures
            r.banned_token_store@ == banned_token_store@,
            r.user_store@ == user_store@,
            r.two_factor_store@ == two_factor_store@,
            r.email_client@ == email_client@,
            r.jwt_secret@ == jwt_secret@,
    {
        Self { user_store, banned_token_store, two_factor_store, email_client, jwt_secret }
    }
}

} // verus!
