use vstd::prelude::*;

verus! {

/// Why a memory operation failed.
#[derive(Clone, Copy, Debug, PartialEq, Eq, Structural)]
pub enum Error {
    /// The queried address lies in unmapped address space.
    Free,
    /// A native call failed; the operating system's own error code.
    SystemCall(i32),
}

} // verus!
