//! Masking of the user and group of a process.

use vstd::prelude::*;

verus! {

#[verifier::external_type_specification]
#[verifier::external_body]
pub struct ExIoError(std::io::Error);

/// Masks the user and group of the current process. The ids are mapped
/// when the container is created, so nothing is left to do here.
pub fn mask_ug() -> (r: std::io::Result<()>)
    ensures
        r is Ok,
{
    Ok(())
}

} // verus!
