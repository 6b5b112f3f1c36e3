use vstd::prelude::*;

verus! {

/// The errors of the user store. Each carries the text of the store's
/// error, or, for `UserNotFound`, the name that was looked up.
#[derive(Debug, Clone, PartialEq, Eq)]
pub enum Error {
    MongoError(String),
    UserNotFound(String),
    RegistrationStateError(String),
    LoginStateError(String),
}

} // verus!
