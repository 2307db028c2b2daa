use vstd::prelude::*;

verus! {

/// Basic auth credentials taken from a request: a username and, if the credentials held a
/// `:`, a password.
#[derive(Clone)]
pub struct UsedBasicAuth {
    pub username: String,
    pub password: Option<String>,
}

} // verus!
