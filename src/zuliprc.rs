use vstd::prelude::*;

verus! {

/// The account credentials, as read from a zuliprc file.
pub struct ZulipRc {
    pub api: Api,
}

/// The `[api]` section of a zuliprc file.
pub struct Api {
    pub email: String,
    pub key: String,
    pub site: String,
}

} // verus!
