//! Lookups that must find exactly one resource.
use vstd::prelude::*;

use crate::error::{ErrorKind, KeycloakError, ResourceType};

verus! {

/// The one resource of kind `kind` among `matches`: fails with
/// `NotFound(kind)` when there is none and with `NotUnique(kind)` when there
/// are several.
pub fn exactly_one<T>(matches: Vec<T>, kind: ResourceType) -> (r: Result<T, KeycloakError>)
    ensures
        matches@.len() == 0 ==> r is Err && r->Err_0.kind == ErrorKind::NotFound(kind)
            && r->Err_0.source is None,
        matches@.len() == 1 ==> r == Ok::<T, KeycloakError>(matches@[0]),
        matches@.len() > 1 ==> r is Err && r->Err_0.kind == ErrorKind::NotUnique(kind)
            && r->Err_0.source is None,
{
    let mut matches = matches;
    match matches.pop() {
        None => Err(KeycloakError::new_kind(ErrorKind::NotFound(kind))),
        Some(found) => {
            if matches.len() == 0 {
                Ok(found)
            } else {
                Err(KeycloakError::new_kind(ErrorKind::NotUnique(kind)))
            }
        },
    }
}

} // verus!
