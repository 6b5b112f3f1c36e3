use vstd::prelude::*;

verus! {

/// The OpenAPI description of the poll endpoints; the description itself is
/// derived where the server is assembled.
pub struct ApiDoc;

} // verus!
