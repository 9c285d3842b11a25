//! Global constant values. These capacities are part of the record layout.

use vstd::prelude::*;

verus! {

/// Capacity of an executable-name buffer.
pub const MAX_FILENAME_SIZE: usize = 32;

/// Capacity of an argument-string buffer.
pub const MAX_ARGS_SIZE: usize = 1024;

/// Capacity of a path buffer.
pub const MAX_FILE_PATH: usize = 1024;

/// Capacity of a prefix-match key.
pub const MAX_FILE_PREFIX: usize = 256;

/// Capacity of a cgroup-name buffer.
pub const DOCKER_ID_LENGTH: usize = 128;

} // verus!
