//! The application state: error verbosity, the accepted credentials and the JWT settings.

use vstd::prelude::*;
use crate::error::{ErrorVerbosity, opt_view};
use crate::traits::{StateProvider, opt_str_view};
use crate::types::used_api_key::UsedApiKey;
use crate::types::used_basic_auth::UsedBasicAuth;
use crate::extractor::jwt::JwksProvider;

verus! {

/// The state shared by all routes.
pub struct ApiState {
    pub error_verbosity: ErrorVerbosity,
    pub api_key_header_name: String,
    pub api_keys: Vec<UsedApiKey>,
    pub basic_auth_users: Vec<UsedBasicAuth>,
    pub issuer: Vec<String>,
    pub audience: Vec<String>,
}

/// `key` is one of the configured API keys.
pub open spec fn is_configured_key(keys: Seq<UsedApiKey>, key: Seq<char>) -> bool {
    exists|i: int| 0 <= i < keys.len() && (#[trigger] keys[i]).api_key@ == key
}

/// The username and password are those of one configured user; a user without a password
/// matches credentials without a password only.
pub open spec fn is_configured_user(
    users: Seq<UsedBasicAuth>,
    username: Seq<char>,
    password: Option<Seq<char>>,
) -> bool {
    exists|i: int| 0 <= i < users.len() && (#[trigger] users[i]).username@ == username
        && opt_view(users[i].password) == password
}

fn str_eq(a: &str, b: &str) -> (res: bool)
    ensures
        res == (a@ == b@),
{
    let x = a.to_owned();
    let y = b.to_owned();
    x == y
}

impl ApiState {
    pub fn new(
        error_verbosity: ErrorVerbosity,
        api_key_header_name: String,
        api_keys: Vec<UsedApiKey>,
        basic_auth_users: Vec<UsedBasicAuth>,
        issuer: Vec<String>,
        audience: Vec<String>,
    ) -> (res: Self)
        ensures
            res.error_verbosity == error_verbosity,
            res.api_key_header_name == api_key_header_name,
            res.api_keys == api_keys,
            res.basic_auth_users == basic_auth_users,
            res.issuer == issuer,
            res.audience == audience,
    {
        ApiState { error_verbosity, api_key_header_name, api_keys, basic_auth_users, issuer, audience }
    }

    /// Whether `key` is one of the configured API keys.
    pub fn validate(&self, key: &str) -> (valid: bool)
        ensures
            valid == is_configured_key(self.api_keys@, key@),
    {
        let mut i: usize = 0;
        while i < self.api_keys.len()
            invariant
                i <= self.api_keys@.len(),
                forall|k: int| 0 <= k < i ==> (#[trigger] self.api_keys@[k]).api_key@ != key@,
            decreases self.api_keys@.len() - i,
        {
            if str_eq(self.api_keys[i].api_key.as_str(), key) {
                return true;
            }
            i = i + 1;
        }
        false
    }

    /// Whether the credentials are those of a configured user.
    pub fn authenticate(&self, username: &str, password: Option<&str>) -> (valid: bool)
        ensures
            valid == is_configured_user(self.basic_auth_users@, username@, opt_str_view(password)),
    {
        let mut i: usize = 0;
        while i < self.basic_auth_users.len()
            invariant
                i <= self.basic_auth_users@.len(),
                forall|k: int| 0 <= k < i ==> !((#[trigger] self.basic_auth_users@[k]).username@ == username@
                    && opt_view(self.basic_auth_users@[k].password) == opt_str_view(password)),
            decreases self.basic_auth_users@.len() - i,
        {
            let user = &self.basic_auth_users[i];
            let same_password = match (&user.password, password) {
                (Some(p), Some(q)) => str_eq(p.as_str(), q),
                (None, None) => true,
                _ => false,
            };
            if str_eq(user.username.as_str(), username) && same_password {
                return true;
            }
            i = i + 1;
        }
        false
    }
}

impl StateProvider for ApiState {
    open spec fn spec_error_verbosity(&self) -> ErrorVerbosity {
        self.error_verbosity
    }

    open spec fn spec_api_key_header_name(&self) -> Seq<char> {
        self.api_key_header_name@
    }

    open spec fn spec_api_key_valid(&self, key: Seq<char>) -> bool {
        is_configured_key(self.api_keys@, key)
    }

    open spec fn spec_basic_auth_valid(&self, username: Seq<char>, password: Option<Seq<char>>) -> bool {
        is_configured_user(self.basic_auth_users@, username, password)
    }

    fn error_verbosity(&self) -> (verbosity: ErrorVerbosity)
        ensures
            verbosity == self.error_verbosity,
    {
        self.error_verbosity
    }

    fn api_key_header_name(&self) -> (name: &str)
        ensures
            name@ == self.api_key_header_name@,
    {
        self.api_key_header_name.as_str()
    }

    fn api_key_validate(&self, key: &str) -> (valid: bool)
        ensures
            valid == is_configured_key(self.api_keys@, key@),
    {
        self.validate(key)
    }

    fn basic_auth_authenticate(&self, username: &str, password: Option<&str>) -> (valid: bool)
        ensures
            valid == is_configured_user(self.basic_auth_users@, username@, opt_str_view(password)),
    {
        self.authenticate(username, password)
    }
}

impl JwksProvider for ApiState {
    open spec fn spec_audience(&self) -> Seq<String> {
        self.audience@
    }

    open spec fn spec_issuer(&self) -> Seq<String> {
        self.issuer@
    }

    open spec fn spec_validate_nbf(&self) -> bool {
        true
    }

    fn audience(&self) -> (audience: &Vec<String>) {
        &self.audience
    }

    fn issuer(&self) -> (issuer: &Vec<String>) {
        &self.issuer
    }

    fn validate_nbf(&self) -> (validate: bool) {
        true
    }
}

/// The state answers with the settings it was built with: errors at its configured
/// verbosity, the API key read from its configured header, the keys and users it was given
/// as the accepted ones.
pub proof fn law_state_settings(s: ApiState, key: Seq<char>, username: Seq<char>, password: Option<Seq<char>>)
    ensures
        s.spec_error_verbosity() == s.error_verbosity,
        s.spec_api_key_header_name() == s.api_key_header_name@,
        s.spec_api_key_valid(key) <==> exists|i: int| 0 <= i < s.api_keys@.len() && s.api_keys@[i].api_key@ == key,
        s.spec_basic_auth_valid(username, password) <==> exists|i: int|
            0 <= i < s.basic_auth_users@.len() && s.basic_auth_users@[i].username@ == username
                && opt_view(s.basic_auth_users@[i].password) == password,
{
}

/// A state built with a header name reads the API key from that header.
pub proof fn law_new_state_header(
    s: ApiState,
    error_verbosity: ErrorVerbosity,
    api_key_header_name: String,
    api_keys: Vec<UsedApiKey>,
    basic_auth_users: Vec<UsedBasicAuth>,
    issuer: Vec<String>,
    audience: Vec<String>,
)
    requires
        s.error_verbosity == error_verbosity,
        s.api_key_header_name == api_key_header_name,
        s.api_keys == api_keys,
        s.basic_auth_users == basic_auth_users,
        s.issuer == issuer,
        s.audience == audience,
    ensures
        s.spec_api_key_header_name() == api_key_header_name@,
        s.spec_error_verbosity() == error_verbosity,
{
}

} // verus!
