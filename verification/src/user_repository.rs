use vstd::prelude::*;

use crate::user_config::Error;

verus! {

/// The credentials of a user, given the outcome of looking the user up by
/// name: the user where found, `UserNotFound` with the name where not, and
/// the store's error unchanged where the lookup failed.
pub fn get_user_credentials<U>(lookup: Result<Option<U>, Error>, username: &str) -> (r: Result<U, Error>)
    ensures
        match lookup {
            Ok(Some(u)) => r == Ok::<U, Error>(u),
            Ok(None) => r matches Err(Error::UserNotFound(name)) && name@ == username@,
            Err(e) => r == Err::<U, Error>(e),
        },
{
    match lookup {
        Ok(Some(u)) => Ok(u),
        Ok(None) => Err(Error::UserNotFound(username.to_owned())),
        Err(e) => Err(e),
    }
}

} // verus!
