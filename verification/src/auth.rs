use vstd::prelude::*;
use crate::api;
use crate::api::{ApiRequest, Method};
use crate::text;

verus! {

/// Arguments of `app-dist login`.
pub struct LoginArgs {
    pub api_key: Option<String>,
}

/// Whether `key` has the form of an API key: it starts with `apd_`.
pub open spec fn well_formed_api_key(key: Seq<char>) -> bool {
    "apd_"@.is_prefix_of(key)
}

/// Checks the form of an API key before it is sent to the platform.
pub fn check_api_key(key: &str) -> (b: bool)
    ensures
        b == well_formed_api_key(key@),
{
    let v = text::chars_vec(key);
    let p = text::chars_vec("apd_");
    let b = text::window_starts_with(&v, 0, v.len(), &p);
    assert(v@.subrange(0, v@.len() as int) =~= v@);
    b
}

/// The account behind the API key: `GET <api_url>/api/v1/auth/whoami`.
pub fn whoami_request(api_url: &str) -> (r: ApiRequest)
    ensures
        r.method is Get,
        r.url@ == api_url@ + "/api/v1/auth/whoami"@,
        r.body is None,
{
    ApiRequest { method: Method::Get, url: api::endpoint(api_url, "/api/v1/auth/whoami"), body: None }
}

/// A new API key in place of the current one: `POST <api_url>/api/v1/auth/rotate-key`.
pub fn rotate_key_request(api_url: &str) -> (r: ApiRequest)
    ensures
        r.method is Post,
        r.url@ == api_url@ + "/api/v1/auth/rotate-key"@,
        r.body is None,
{
    ApiRequest { method: Method::Post, url: api::endpoint(api_url, "/api/v1/auth/rotate-key"), body: None }
}

/// Why `app-dist login` stores no key.
#[derive(PartialEq, Eq, Structural, Clone, Copy, Debug)]
pub enum LoginError {
    /// The key does not start with `apd_`; it was not sent anywhere.
    MalformedKey,
    /// The platform did not accept the key.
    KeyRefused,
}

/// How a login ends for `key`, given whether the platform accepted it: a key of
/// the wrong form is refused before it is sent, and a well-formed key is stored
/// only once the platform has accepted it.
pub open spec fn login_outcome(key: Seq<char>, accepted: bool) -> Result<(), LoginError> {
    if !well_formed_api_key(key) {
        Err(LoginError::MalformedKey)
    } else if !accepted {
        Err(LoginError::KeyRefused)
    } else {
        Ok(())
    }
}

/// The first step of `app-dist login`: the request that checks `key` with the
/// platform, or the refusal of a key of the wrong form, which is never sent.
pub fn login_request(api_url: &str, key: &str) -> (r: Result<ApiRequest, LoginError>)
    ensures
        r is Ok <==> well_formed_api_key(key@),
        r matches Err(e) ==> e == LoginError::MalformedKey,
        r matches Ok(req) ==> req.method is Get && req.url@ == api_url@ + "/api/v1/auth/whoami"@
            && req.body is None,
{
    if check_api_key(key) {
        Ok(whoami_request(api_url))
    } else {
        Err(LoginError::MalformedKey)
    }
}

/// The last step of `app-dist login`: whether `key` is stored, given whether the
/// platform accepted it (see `login_outcome`).
pub fn login_verdict(key: &str, accepted: bool) -> (r: Result<(), LoginError>)
    ensures
        r == login_outcome(key@, accepted),
{
    if !check_api_key(key) {
        Err(LoginError::MalformedKey)
    } else if !accepted {
        Err(LoginError::KeyRefused)
    } else {
        Ok(())
    }
}

/// Law: login stores a key only when it has the form of an API key and the
/// platform accepted it; a key of the wrong form is refused whatever the platform
/// would say.
pub proof fn law_login_stores_only_validated_keys(key: Seq<char>, accepted: bool)
    ensures
        login_outcome(key, accepted) is Ok <==> well_formed_api_key(key) && accepted,
        !well_formed_api_key(key) ==> login_outcome(key, accepted) == Err::<(), LoginError>(LoginError::MalformedKey),
{
}

} // verus!
