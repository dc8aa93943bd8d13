use vstd::prelude::*;

verus! {

/// A protection level: the set of access kinds (read, write, execute) that
/// the page tables grant on a range. The empty set means no access at all.
#[derive(Clone, Copy, Debug, PartialEq, Eq, Structural)]
pub struct Protection {
    pub read: bool,
    pub write: bool,
    pub execute: bool,
}

impl Protection {
    /// True for the five levels that every backend can report: none, read,
    /// read-write, read-execute and read-write-execute.
    pub open spec fn is_standard(self) -> bool {
        ||| self == Protection::spec_none()
        ||| self == Protection::spec_read()
        ||| self == Protection::spec_read_write()
        ||| self == Protection::spec_read_execute()
        ||| self == Protection::spec_read_write_execute()
    }

    /// The four levels that every backend maps to an exact native code.
    pub open spec fn is_canonical(self) -> bool {
        ||| self == Protection::spec_none()
        ||| self == Protection::spec_read()
        ||| self == Protection::spec_read_write()
        ||| self == Protection::spec_read_execute()
    }

    pub open spec fn spec_new(read: bool, write: bool, execute: bool) -> Protection {
        Protection { read, write, execute }
    }

    pub open spec fn spec_none() -> Protection {
        Protection::spec_new(false, false, false)
    }

    pub open spec fn spec_read() -> Protection {
        Protection::spec_new(true, false, false)
    }

    pub open spec fn spec_write() -> Protection {
        Protection::spec_new(false, true, false)
    }

    pub open spec fn spec_execute() -> Protection {
        Protection::spec_new(false, false, true)
    }

    pub open spec fn spec_read_write() -> Protection {
        Protection::spec_new(true, true, false)
    }

    pub open spec fn spec_read_execute() -> Protection {
        Protection::spec_new(true, false, true)
    }

    pub open spec fn spec_read_write_execute() -> Protection {
        Protection::spec_new(true, true, true)
    }

    /// No access.
    pub fn none() -> (r: Protection)
        ensures
            r == Protection::spec_none(),
    {
        Protection { read: false, write: false, execute: false }
    }

    /// Read access only.
    pub fn read_only() -> (r: Protection)
        ensures
            r == Protection::spec_read(),
    {
        Protection { read: true, write: false, execute: false }
    }

    /// Write access only.
    pub fn write_only() -> (r: Protection)
        ensures
            r == Protection::spec_write(),
    {
        Protection { read: false, write: true, execute: false }
    }

    /// Execute access only.
    pub fn execute_only() -> (r: Protection)
        ensures
            r == Protection::spec_execute(),
    {
        Protection { read: false, write: false, execute: true }
    }

    /// Read and write access.
    pub fn read_write() -> (r: Protection)
        ensures
            r == Protection::spec_read_write(),
    {
        Protection { read: true, write: true, execute: false }
    }

    /// Read and execute access.
    pub fn read_execute() -> (r: Protection)
        ensures
            r == Protection::spec_read_execute(),
    {
        Protection { read: true, write: false, execute: true }
    }

    /// Read, write and execute access.
    pub fn read_write_execute() -> (r: Protection)
        ensures
            r == Protection::spec_read_write_execute(),
    {
        Protection { read: true, write: true, execute: true }
    }

    /// True when no access kind is granted.
    pub fn is_none(&self) -> (r: bool)
        ensures
            r == (!self.read && !self.write && !self.execute),
    {
        !self.read && !self.write && !self.execute
    }

    /// True when every access kind of `other` is granted by `self`.
    pub fn contains(&self, other: Protection) -> (r: bool)
        ensures
            r == ((other.read ==> self.read) && (other.write ==> self.write) && (other.execute
                ==> self.execute)),
    {
        (!other.read || self.read) && (!other.write || self.write) && (!other.execute
            || self.execute)
    }

    /// The access kinds granted by either level.
    pub fn union(&self, other: Protection) -> (r: Protection)
        ensures
            r == Protection::spec_new(
                self.read || other.read,
                self.write || other.write,
                self.execute || other.execute,
            ),
    {
        Protection {
            read: self.read || other.read,
            write: self.write || other.write,
            execute: self.execute || other.execute,
        }
    }
}

} // verus!
