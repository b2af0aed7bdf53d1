use uuid::Uuid;
use vstd::prelude::*;

use crate::bindings::secrets::SecretString;

verus! {

/// What a lookup of stored credentials gives: the user's id and password
/// hash if the username is known, `None` if it is not, or the message of a
/// storage failure.
pub type StoredCredentials = Result<Option<(Uuid, SecretString)>, String>;

/// A store of credentials, whatever stands behind it.
pub trait IUserRespository {
    /// Looks up the id and the password hash stored for `username`.
    fn get_store_credentials(&self, username: &str) -> StoredCredentials;
}

} // verus!
