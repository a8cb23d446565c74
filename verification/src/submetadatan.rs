//! The decoded-state schema gate: only one metadata schema version can be
//! diffed; every other version is rejected by name.

use vstd::prelude::*;

verus! {

/// The single schema version of decoded runtime state this library can
/// work with.
pub const LATEST_METADATA_VERSION: u32 = 14;

/// A decoded blob uses a schema version this library does not support.
#[derive(Clone, Copy, Debug, PartialEq, Eq, Structural)]
pub enum SubmetadatanError {
    UnsupportedVersion(u32),
}

/// The result of the schema gate.
pub type SubmetadatanResult<T> = Result<T, SubmetadatanError>;

/// Accept a decoded blob's schema version exactly when it is the supported
/// one, rejecting any other with its version number.
pub fn metadata(version: u32) -> (r: SubmetadatanResult<u32>)
    ensures
        version == LATEST_METADATA_VERSION ==> r == Ok::<u32, SubmetadatanError>(version),
        version != LATEST_METADATA_VERSION ==> r == Err::<u32, SubmetadatanError>(
            SubmetadatanError::UnsupportedVersion(version),
        ),
{
    if version == LATEST_METADATA_VERSION {
        Ok(version)
    } else {
        Err(SubmetadatanError::UnsupportedVersion(version))
    }
}

} // verus!
