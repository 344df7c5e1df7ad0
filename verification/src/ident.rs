//! Fresh identifiers.

use vstd::prelude::*;

verus! {

/// The length of an identifier's text: 32 hexadecimal digits in five groups
/// separated by hyphens.
pub const ID_LENGTH: usize = 36;

/// A new random identifier: `uuid::Uuid::new_v4`, written out by its
/// `Display` impl in the hyphenated lower-case form.
///
/// Trusted: the result is random, so nothing is claimed of it but the length
/// of that form. In particular two calls are not known to differ.
#[verifier::external_body]
pub(crate) fn fresh_id() -> (id: String)
    ensures
        id@.len() == ID_LENGTH,
{
    uuid::Uuid::new_v4().to_string()
}

} // verus!
