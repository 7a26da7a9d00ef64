//! Client status query: read-only delegation exposing the health flags
//! of a client handle. The raw opaque pointer of the boundary is
//! replaced by an owned, checkable handle record, so an invalid handle
//! is not representable.

use vstd::prelude::*;

verus! {

/// The client handle as the boundary sees it: only its health is ever
/// read, so the handle carries the last error the client recorded, if
/// any.
#[allow(non_camel_case_types)]
pub struct citadel_client_t {
    pub last_error: Option<Vec<u8>>,
}

/// True exactly when the client has recorded no error.
pub fn citadel_is_ok(client: &citadel_client_t) -> (r: bool)
    ensures
        r == (client.last_error is None),
{
    match &client.last_error {
        None => true,
        Some(_) => false,
    }
}

/// True exactly when the client has recorded an error; the negation of
/// [`citadel_is_ok`].
pub fn citadel_has_err(client: &citadel_client_t) -> (r: bool)
    ensures
        r == (client.last_error is Some),
{
    match &client.last_error {
        None => false,
        Some(_) => true,
    }
}

} // verus!
