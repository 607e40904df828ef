//! Limits shared by the encodings and the call gate.
use vstd::prelude::*;

verus! {

/// Maximum byte length for file names and process names.
pub const MAX_NAME_LENGTH: usize = 128;

/// Maximum byte length for paths.
pub const MAX_PATH_LENGTH: usize = 1024;

/// Maximum byte length for drive names (not counted in [`MAX_PATH_LENGTH`]).
pub const MAX_DRIVE_NAME_LENGTH: usize = 8;

} // verus!
