//! Small helpers around the core.

use vstd::prelude::*;

verus! {

/// Whether a file mode word marks the file as executable: any of the
/// three execute permission bits is set.  The caller reads the mode
/// from the file's metadata.
pub fn is_executable(mode: u32) -> (r: bool)
    ensures
        r == ((mode & 0o111u32) != 0),
{
    mode & 0o111u32 != 0
}

} // verus!
