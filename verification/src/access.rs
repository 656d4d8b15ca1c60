//! Who may call an operation.

use vstd::prelude::*;
use crate::error::Error;
use crate::identity::Identity;

verus! {

/// What a caller acting as `actual` is told by an operation reserved to
/// `expected`.
pub open spec fn same_account(expected: Identity, actual: Identity) -> Result<(), Error> {
    if expected == actual {
        Ok(())
    } else {
        Err(Error::MissingRequiredSignature)
    }
}

/// Lets the call go on only if the caller is the identity that the operation
/// is reserved to. Nothing is remembered from one call to the next.
pub fn is_same_account(k1: Identity, k2: Identity) -> (outcome: Result<(), Error>)
    ensures
        outcome == same_account(k1, k2),
{
    if !k1.same_as(&k2) {
        return Err(Error::MissingRequiredSignature);
    }
    Ok(())
}

} // verus!
