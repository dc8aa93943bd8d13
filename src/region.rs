use vstd::prelude::*;

use crate::protection::Protection;

verus! {

/// A snapshot of one contiguous range of address space whose pages share a
/// protection level, as the operating system reported it.
#[derive(Clone, Copy, Debug, PartialEq, Eq, Structural)]
pub struct Region {
    /// Address of the first byte of the range.
    pub base: usize,
    /// Length of the range in bytes.
    pub size: usize,
    /// Access currently granted on the range.
    pub protection: Protection,
    /// True unless the mapping is private to this process.
    pub shared: bool,
    /// True when the pages trap on first access, whatever `protection` says.
    pub guarded: bool,
}

impl Region {
    /// True when `address` lies in `[base, base + size)`.
    pub open spec fn spec_contains(self, address: int) -> bool {
        self.base <= address < self.base + self.size
    }
}

} // verus!
