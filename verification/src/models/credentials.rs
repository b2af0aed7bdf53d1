use vstd::prelude::*;
use vstd::std_specs::convert::FromSpecImpl;

use super::login::LoginRequest;
use crate::bindings::secrets::SecretString;

verus! {

/// A username with the password offered for it. The password stays secret:
/// it is not shown in debug output.
#[derive(Debug)]
pub struct Credentials {
    pub username: String,
    pub password: SecretString,
}

impl From<LoginRequest> for Credentials {
    /// Takes the username as it is and wraps the password as a secret.
    fn from(req: LoginRequest) -> (credentials: Credentials)
        ensures
            credentials.username@ == req.username@,
            credentials.password@ == req.password@,
    {
        Self { username: req.username, password: SecretString::new(req.password) }
    }
}

/// The contract of `from` is the one written on it: a secret is known to a
/// specification only by the text it holds.
impl FromSpecImpl<LoginRequest> for Credentials {
    open spec fn obeys_from_spec() -> bool {
        false
    }

    open spec fn from_spec(req: LoginRequest) -> Credentials {
        choose|credentials: Credentials|
            credentials.username@ == req.username@ && credentials.password@ == req.password@
    }
}

} // verus!
