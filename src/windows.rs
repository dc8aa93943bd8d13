use vstd::prelude::*;

use crate::error::Error;
use crate::protection::Protection;
use crate::region::Region;

verus! {

/// Native protection code: no access.
pub const PAGE_NOACCESS: u32 = 0x01;

/// Native protection code: read only.
pub const PAGE_READONLY: u32 = 0x02;

/// Native protection code: read and write.
pub const PAGE_READWRITE: u32 = 0x04;

/// Native protection code: read, copy-on-write.
pub const PAGE_WRITECOPY: u32 = 0x08;

/// Native protection code: execute only.
pub const PAGE_EXECUTE: u32 = 0x10;

/// Native protection code: execute and read.
pub const PAGE_EXECUTE_READ: u32 = 0x20;

/// Native protection code: execute, read and write.
pub const PAGE_EXECUTE_READWRITE: u32 = 0x40;

/// Native protection code: execute, read, copy-on-write.
pub const PAGE_EXECUTE_WRITECOPY: u32 = 0x80;

/// Modifier bit: the pages are guard pages.
pub const PAGE_GUARD: u32 = 0x100;

/// Modifier bit: the pages are not cached.
pub const PAGE_NOCACHE: u32 = 0x200;

/// Modifier bit: the pages are write-combined.
pub const PAGE_WRITECOMBINE: u32 = 0x400;

/// The bits of a native protection value that carry the protection code;
/// the others are modifiers (guard, caching hints).
pub const PAGE_PROTECTION_MASK: u32 = 0xFF;

/// Region state: committed pages.
pub const MEM_COMMIT: u32 = 0x1000;

/// Region state: reserved pages without storage.
pub const MEM_RESERVE: u32 = 0x2000;

/// Region state: unmapped address space.
pub const MEM_FREE: u32 = 0x10000;

/// Region type: private to the process.
pub const MEM_PRIVATE: u32 = 0x20000;

/// Region type: a view of a section.
pub const MEM_MAPPED: u32 = 0x40000;

/// Region type: a view of an image section.
pub const MEM_IMAGE: u32 = 0x1000000;

/// The protection code of a native protection value, modifiers removed.
pub open spec fn protection_code(native: u32) -> u32 {
    native & PAGE_PROTECTION_MASK
}

/// True when the protection code of `native` is one of the eight that the
/// memory manager documents.
pub open spec fn spec_is_native_protection(native: u32) -> bool {
    let c = protection_code(native);
    ||| c == PAGE_NOACCESS
    ||| c == PAGE_READONLY
    ||| c == PAGE_READWRITE
    ||| c == PAGE_WRITECOPY
    ||| c == PAGE_EXECUTE
    ||| c == PAGE_EXECUTE_READ
    ||| c == PAGE_EXECUTE_READWRITE
    ||| c == PAGE_EXECUTE_WRITECOPY
}

/// The native code requested for a protection level: the exact code for the
/// four canonical levels, and the most permissive code for any other.
pub open spec fn native_code_of(p: Protection) -> u32 {
    if p == Protection::spec_read() {
        PAGE_READONLY
    } else if p == Protection::spec_read_write() {
        PAGE_READWRITE
    } else if p == Protection::spec_read_execute() {
        PAGE_EXECUTE_READ
    } else if p == Protection::spec_none() {
        PAGE_NOACCESS
    } else {
        PAGE_EXECUTE_READWRITE
    }
}

/// The protection level of a documented native value. Copy-on-write codes
/// count as the writable level they stand for.
pub open spec fn protection_of_native(native: u32) -> Protection
    recommends
        spec_is_native_protection(native),
{
    let c = protection_code(native);
    if c == PAGE_EXECUTE {
        Protection::spec_execute()
    } else if c == PAGE_EXECUTE_READ {
        Protection::spec_read_execute()
    } else if c == PAGE_EXECUTE_READWRITE || c == PAGE_EXECUTE_WRITECOPY {
        Protection::spec_read_write_execute()
    } else if c == PAGE_NOACCESS {
        Protection::spec_none()
    } else if c == PAGE_READONLY {
        Protection::spec_read()
    } else {
        Protection::spec_read_write()
    }
}

/// Whether the protection code of `native` is a documented one.
pub fn is_native_protection(native: u32) -> (r: bool)
    ensures
        r == spec_is_native_protection(native),
{
    let c = native & PAGE_PROTECTION_MASK;
    c == PAGE_NOACCESS || c == PAGE_READONLY || c == PAGE_READWRITE || c == PAGE_WRITECOPY || c
        == PAGE_EXECUTE || c == PAGE_EXECUTE_READ || c == PAGE_EXECUTE_READWRITE || c
        == PAGE_EXECUTE_WRITECOPY
}

/// The native code to request for `protection`.
pub fn convert_to_native(protection: Protection) -> (r: u32)
    ensures
        r == native_code_of(protection),
{
    if protection == Protection::read_only() {
        PAGE_READONLY
    } else if protection == Protection::read_write() {
        PAGE_READWRITE
    } else if protection == Protection::read_execute() {
        PAGE_EXECUTE_READ
    } else if protection == Protection::none() {
        PAGE_NOACCESS
    } else {
        PAGE_EXECUTE_READWRITE
    }
}

/// The protection level of a native value reported by the memory manager.
/// Modifier bits are ignored; a value outside the documented codes is never
/// reported and is not accepted.
pub fn convert_from_native(protection: u32) -> (r: Protection)
    requires
        spec_is_native_protection(protection),
    ensures
        r == protection_of_native(protection),
{
    let c = protection & PAGE_PROTECTION_MASK;
    if c == PAGE_EXECUTE {
        Protection::execute_only()
    } else if c == PAGE_EXECUTE_READ {
        Protection::read_execute()
    } else if c == PAGE_EXECUTE_READWRITE || c == PAGE_EXECUTE_WRITECOPY {
        Protection::read_write_execute()
    } else if c == PAGE_NOACCESS {
        Protection::none()
    } else if c == PAGE_READONLY {
        Protection::read_only()
    } else {
        Protection::read_write()
    }
}

/// The fields of a native memory query's answer that describe the region
/// holding the queried address.
#[derive(Clone, Copy, Debug, PartialEq, Eq, Structural)]
pub struct MemoryInfo {
    /// Address of the first page of the region.
    pub base_address: usize,
    /// Length of the region in bytes.
    pub region_size: usize,
    /// Whether the pages are committed, reserved or free.
    pub state: u32,
    /// Native protection value of the pages, modifier bits included.
    pub protect: u32,
    /// Whether the pages are private, mapped or an image.
    pub kind: u32,
}

impl MemoryInfo {
    /// True when the answer is one the memory manager gives for `address`:
    /// free space, or a region that holds `address` under a documented
    /// protection code.
    pub open spec fn spec_is_answer_for(self, address: int) -> bool {
        self.state == MEM_FREE || (spec_is_native_protection(self.protect) && self.base_address
            <= address < self.base_address + self.region_size)
    }

    /// The region that the answer describes.
    pub open spec fn spec_region(self) -> Region {
        Region {
            base: self.base_address,
            size: self.region_size,
            protection: protection_of_native(self.protect),
            shared: self.kind & MEM_PRIVATE == 0,
            guarded: self.protect & PAGE_GUARD != 0,
        }
    }

    /// Whether the answer is one the memory manager gives for `address`.
    pub fn is_answer_for(&self, address: usize) -> (r: bool)
        ensures
            r == self.spec_is_answer_for(address as int),
    {
        self.state == MEM_FREE || (is_native_protection(self.protect) && self.base_address
            <= address && address - self.base_address < self.region_size)
    }
}

/// The outcome of a memory query that wrote `bytes` bytes of answer, with
/// `error_code` the thread's last error when nothing was written.
pub open spec fn spec_query_result(bytes: usize, info: MemoryInfo, error_code: i32) -> Result<
    Region,
    Error,
> {
    if bytes == 0 {
        Err(Error::SystemCall(error_code))
    } else if info.state == MEM_FREE {
        Err(Error::Free)
    } else {
        Ok(info.spec_region())
    }
}

/// The outcome of a query for `address` that wrote `bytes` bytes of answer
/// into `info`; `error_code` is reported when nothing was written.
pub fn query_result(address: usize, bytes: usize, info: &MemoryInfo, error_code: i32) -> (r: Result<
    Region,
    Error,
>)
    requires
        bytes > 0 ==> info.spec_is_answer_for(address as int),
    ensures
        r == spec_query_result(bytes, *info, error_code),
        r matches Ok(region) ==> region.spec_contains(address as int) && region.size > 0,
{
    if bytes == 0 {
        Err(Error::SystemCall(error_code))
    } else if info.state == MEM_FREE {
        Err(Error::Free)
    } else {
        Ok(
            Region {
                base: info.base_address,
                size: info.region_size,
                protection: convert_from_native(info.protect),
                shared: info.kind & MEM_PRIVATE == 0,
                guarded: info.protect & PAGE_GUARD != 0,
            },
        )
    }
}

/// Relies on `errno::errno`, which reads the calling thread's last error code
/// (`GetLastError` on Windows). The value depends on the thread's history, so
/// nothing is promised of it.
#[verifier::external_body]
fn last_error_code() -> (r: i32) {
    errno::errno().0
}

/// The outcome of a memory query for `address` that has just written `bytes`
/// bytes of answer into `info`. When nothing was written the thread's last
/// error code is read and reported.
pub fn region_from_query(address: usize, bytes: usize, info: &MemoryInfo) -> (r: Result<
    Region,
    Error,
>)
    requires
        bytes > 0 ==> info.spec_is_answer_for(address as int),
    ensures
        bytes == 0 ==> r matches Err(Error::SystemCall(_)),
        bytes > 0 ==> r == spec_query_result(bytes, *info, 0),
        r matches Ok(region) ==> region.spec_contains(address as int) && region.size > 0,
{
    if bytes == 0 {
        let code = last_error_code();
        query_result(address, bytes, info, code)
    } else {
        query_result(address, bytes, info, 0)
    }
}

/// The outcome of a native call that returned the boolean `status`, with
/// `error_code` the thread's last error when the call failed (returned zero).
pub open spec fn spec_status_result(status: i32, error_code: i32) -> Result<(), Error> {
    if status == 0 {
        Err(Error::SystemCall(error_code))
    } else {
        Ok(())
    }
}

/// The outcome of a native call that returned the boolean `status`;
/// `error_code` is reported when the call failed.
pub fn status_result(status: i32, error_code: i32) -> (r: Result<(), Error>)
    ensures
        r == spec_status_result(status, error_code),
{
    if status == 0 {
        Err(Error::SystemCall(error_code))
    } else {
        Ok(())
    }
}

/// The outcome of a native call that has just returned the boolean `status`.
/// On failure the thread's last error code is read and reported.
pub fn check_status(status: i32) -> (r: Result<(), Error>)
    ensures
        status != 0 ==> r == Ok::<(), Error>(()),
        status == 0 ==> r matches Err(Error::SystemCall(_)),
{
    if status == 0 {
        let code = last_error_code();
        status_result(status, code)
    } else {
        status_result(status, 0)
    }
}

/// Converting a canonical or fully permissive protection level to its native
/// code and back gives the level itself.
pub proof fn lemma_native_round_trip(p: Protection)
    requires
        p.is_standard(),
    ensures
        protection_of_native(native_code_of(p)) == p,
        spec_is_native_protection(native_code_of(p)),
{
    lemma_code_of_small(native_code_of(p));
}

/// Every documented native protection value other than execute-only
/// translates to none, read, read-write, read-execute or
/// read-write-execute; execute-only translates to execute.
pub proof fn lemma_native_translation_is_standard(native: u32)
    requires
        spec_is_native_protection(native),
    ensures
        protection_code(native) != PAGE_EXECUTE ==> protection_of_native(native).is_standard(),
        protection_code(native) == PAGE_EXECUTE ==> protection_of_native(native)
            == Protection::spec_execute(),
{
}

/// After a protection change to a canonical or fully permissive level, a
/// query whose answer carries the native code that the change requested
/// (with any modifier bits) reports that level for the region.
pub proof fn lemma_query_reports_requested_protection(
    p: Protection,
    info: MemoryInfo,
    bytes: usize,
    error_code: i32,
)
    requires
        p.is_standard(),
        bytes > 0,
        info.state != MEM_FREE,
        protection_code(info.protect) == native_code_of(p),
    ensures
        spec_query_result(bytes, info, error_code) matches Ok(region) && region.protection == p,
{
    lemma_native_round_trip(p);
}

/// A value below 256 is its own protection code.
proof fn lemma_code_of_small(c: u32)
    requires
        c < 256,
    ensures
        protection_code(c) == c,
{
    assert(c & 0xFF == c) by (bit_vector)
        requires
            c < 256,
    ;
}

} // verus!
