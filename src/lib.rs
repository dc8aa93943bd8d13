//! Virtual-memory introspection: a platform-neutral model of memory regions
//! and protection levels, and the Windows backend's translation of native
//! query answers and status codes into that model.

mod error;
mod protection;
mod region;
mod windows;

pub use error::Error;
pub use protection::Protection;
pub use region::Region;
pub use windows::{
    check_status, convert_from_native, convert_to_native, is_native_protection, query_result,
    region_from_query, status_result, MemoryInfo, MEM_COMMIT, MEM_FREE, MEM_IMAGE, MEM_MAPPED,
    MEM_PRIVATE, MEM_RESERVE, PAGE_EXECUTE, PAGE_EXECUTE_READ, PAGE_EXECUTE_READWRITE,
    PAGE_EXECUTE_WRITECOPY, PAGE_GUARD, PAGE_NOACCESS, PAGE_NOCACHE, PAGE_PROTECTION_MASK, PAGE_READONLY,
    PAGE_READWRITE, PAGE_WRITECOMBINE, PAGE_WRITECOPY,
};
