use vstd::prelude::*;
use vstd::string::*;
use crate::traits::opt_str_view;

verus! {

/// Decides whether basic auth credentials are accepted.
pub trait BasicAuthProvider {
    spec fn spec_authenticates(&self, username: Seq<char>, password: Option<Seq<char>>) -> bool;

    fn authenticate(&self, username: &str, password: Option<&str>) -> (accepted: bool)
        ensures
            accepted == self.spec_authenticates(username@, opt_str_view(password)),
    ;
}

/// Accepts the user `admin`, whatever the password.
#[derive(Clone, Copy, Debug)]
pub struct DummyAuthProvider;

impl BasicAuthProvider for DummyAuthProvider {
    open spec fn spec_authenticates(&self, username: Seq<char>, password: Option<Seq<char>>) -> bool {
        username == "admin"@
    }

    fn authenticate(&self, username: &str, password: Option<&str>) -> (accepted: bool)
        ensures
            accepted == (username@ == "admin"@),
    {
        username.to_owned() == String::from_str("admin")
    }
}

/// The dummy provider accepts exactly the user `admin`, whatever the password.
pub proof fn law_dummy_provider_accepts_admin(p: DummyAuthProvider, username: Seq<char>, password: Option<Seq<char>>)
    ensures
        p.spec_authenticates(username, password) <==> username == "admin"@,
{
}

} // verus!
