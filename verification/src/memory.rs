//! The protection-aware memory layer.
//!
//! [`Page`] models the region of target memory an operation works on: its
//! base address, commit state, protection flags and contents. The
//! [`MemoryAccessor`] methods implement the safety-critical discipline: query
//! the page, classify it as operable, elevate its protection only when
//! needed, perform the access, and restore the previous flags on every path
//! out — so the page's protection after any operation equals what was
//! observed before it. The system-call edge that applies the same discipline
//! to live pages sits outside this crate and feeds it these plain values.

use vstd::prelude::*;

use crate::errors::Error;
use crate::errors::OsCall;

verus! {

/// Commit state of a committed page region, as the system reports it.
pub const MEM_COMMIT: u32 = 0x1000;

/// Protection flag: no access of any kind.
pub const PAGE_NOACCESS: u32 = 0x01;

/// Protection flag: read-only.
pub const PAGE_READONLY: u32 = 0x02;

/// Protection flag: read-write.
pub const PAGE_READWRITE: u32 = 0x04;

/// Protection flag: execute-only.
pub const PAGE_EXECUTE: u32 = 0x10;

/// Protection flag: execute and read.
pub const PAGE_EXECUTE_READ: u32 = 0x20;

/// Protection flag: execute, read and write.
pub const PAGE_EXECUTE_READWRITE: u32 = 0x40;

/// What one protection query reports of the page containing a target
/// address: the region's base and size, its commit state, and its current
/// protection flags. Queried fresh before every operation and never cached,
/// since protection can change between calls.
#[derive(Clone, Copy, Debug, PartialEq, Eq, Structural)]
pub struct MemorySnapshot {
    /// Base address of the region the queried address falls in.
    pub base: usize,
    /// Size of the region in bytes.
    pub size: usize,
    /// Commit state; a committed region reports [`MEM_COMMIT`].
    pub state: u32,
    /// Current protection flags of the region.
    pub protect: u32,
}

/// A page is operable for reading when it is committed and its protection is
/// neither zero nor no-access.
pub open spec fn page_readable(state: u32, protect: u32) -> bool {
    state == MEM_COMMIT && protect != 0 && protect != PAGE_NOACCESS
}

/// A page is operable for writing when it is committed and its protection
/// already grants write access.
pub open spec fn page_writable(state: u32, protect: u32) -> bool {
    state == MEM_COMMIT && (protect == PAGE_READWRITE || protect == PAGE_EXECUTE_READWRITE)
}

/// One contiguous run of target memory with uniform commit state and
/// protection: the unit the accessor operates on.
#[derive(Debug)]
pub struct Page {
    /// Address of the first byte of `contents` in the target's address space.
    pub base: usize,
    /// Commit state; [`MEM_COMMIT`] when the page is committed.
    pub state: u32,
    /// Current protection flags.
    pub protect: u32,
    /// The page's bytes.
    pub contents: Vec<u8>,
}

impl Page {
    /// The page's span lies within the address space.
    pub open spec fn wf(self) -> bool {
        self.base + self.contents@.len() <= usize::MAX
    }
}

impl Clone for Page {
    /// A clone carries the same base, state, protection and bytes.
    fn clone(&self) -> (r: Self)
        ensures
            r.base == self.base,
            r.state == self.state,
            r.protect == self.protect,
            r.contents@ == self.contents@,
    {
        let contents = self.contents.clone();
        proof {
            assert(contents@ =~= self.contents@);
        }
        Page { base: self.base, state: self.state, protect: self.protect, contents }
    }
}

/// The span `[address, address + len)` lies inside the page.
pub open spec fn in_page_range(p: Page, address: usize, len: int) -> bool {
    p.base <= address && address + len <= p.base + p.contents@.len()
}

/// `contents` with the `v.len()` bytes starting at offset `off` replaced by
/// `v`: the contents of a page after a successful write.
pub open spec fn written(contents: Seq<u8>, off: int, v: Seq<u8>) -> Seq<u8> {
    contents.subrange(0, off) + v + contents.subrange(off + v.len(), contents.len() as int)
}

/// Which side of the process boundary the accessor reaches memory on. The
/// choice is made once, at construction, and never switched at runtime.
#[derive(Clone, Copy, Debug, PartialEq, Eq, Structural)]
pub enum Backend {
    /// The accessor runs inside the target: addresses are offsets from a
    /// module base and the access is a direct one.
    InProcess,
    /// The accessor runs in a separate process and reaches the target
    /// through its process handle.
    CrossProcess,
}

/// Protection-aware reader/writer over a [`Page`], with its backend chosen
/// once at construction.
#[derive(Clone, Copy, Debug, PartialEq, Eq, Structural)]
pub struct MemoryAccessor {
    /// Which side of the process boundary this accessor works on.
    pub backend: Backend,
    /// Handle of the target process; meaningful only for the cross-process
    /// backend, zero for the in-process one.
    pub process_handle: isize,
}

impl MemoryAccessor {
    /// An accessor that reaches memory directly, inside the target.
    pub fn in_process() -> (r: MemoryAccessor)
        ensures
            r.backend == Backend::InProcess,
            r.process_handle == 0,
    {
        MemoryAccessor { backend: Backend::InProcess, process_handle: 0 }
    }

    /// An accessor that reaches a foreign process through `process_handle`.
    pub fn cross_process(process_handle: isize) -> (r: MemoryAccessor)
        ensures
            r.backend == Backend::CrossProcess,
            r.process_handle == process_handle,
    {
        MemoryAccessor { backend: Backend::CrossProcess, process_handle }
    }

    /// Query the page's commit state and protection, fresh, never cached.
    pub fn query(&self, page: &Page) -> (r: MemorySnapshot)
        ensures
            r.base == page.base,
            r.size == page.contents@.len(),
            r.state == page.state,
            r.protect == page.protect,
    {
        MemorySnapshot {
            base: page.base,
            size: page.contents.len(),
            state: page.state,
            protect: page.protect,
        }
    }

    /// Read `len` bytes at `address` without faulting on a protected page,
    /// and leave the page's protection exactly as found, whatever the
    /// outcome.
    ///
    /// The read succeeds exactly when the page is committed and the span
    /// lies inside it; a page that is not operable as found is elevated to
    /// read-only for the access and restored afterwards. Elevation of an
    /// uncommitted page fails as the protection call would; a span outside
    /// the page fails as the raw access would.
    pub fn read(&self, page: &mut Page, address: usize, len: usize) -> (r: Result<Vec<u8>, Error>)
        requires
            old(page).wf(),
        ensures
            final(page).base == old(page).base,
            final(page).state == old(page).state,
            final(page).contents@ == old(page).contents@,
            final(page).protect == old(page).protect,
            old(page).state != MEM_COMMIT ==> r == (Err::<Vec<u8>, Error>(Error::OsCallFailed {
                call: OsCall::VirtualProtect,
                code: 0,
                address,
            })),
            old(page).state == MEM_COMMIT && !in_page_range(*old(page), address, len as int) ==> r
                == (Err::<Vec<u8>, Error>(Error::OsCallFailed {
                call: OsCall::ReadMemory,
                code: 0,
                address,
            })),
            old(page).state == MEM_COMMIT && in_page_range(*old(page), address, len as int) ==> (
            r matches Ok(v) && v@ == old(page).contents@.subrange(
                address - old(page).base,
                address - old(page).base + len,
            )),
    {
        let info = self.query(page);
        let readable = crate::utilities::is_page_readable(&info);
        let mut restore_to: u32 = 0;
        if !readable {
            // Elevate to the minimum level a read needs, recording the
            // previous flags. The protection call fails on an uncommitted
            // page, and the operation never proceeds past that failure.
            if page.state != MEM_COMMIT {
                return Err(Error::OsCallFailed { call: OsCall::VirtualProtect, code: 0, address });
            }
            restore_to = page.protect;
            page.protect = PAGE_READONLY;
        }
        let result = self.copy_out(page, address, len);
        // Restore the recorded flags unconditionally, even when the access
        // itself failed.
        if !readable {
            page.protect = restore_to;
        }
        result
    }

    /// The raw access of a read: copy the span out of the page. Protection
    /// has already been handled by the caller.
    fn copy_out(&self, page: &Page, address: usize, len: usize) -> (r: Result<Vec<u8>, Error>)
        requires
            page.wf(),
        ensures
            in_page_range(*page, address, len as int) ==> (r matches Ok(v) && v@
                == page.contents@.subrange(address - page.base, address - page.base + len)),
            !in_page_range(*page, address, len as int) ==> r == (Err::<Vec<u8>, Error>(
            Error::OsCallFailed { call: OsCall::ReadMemory, code: 0, address })),
    {
        if address < page.base {
            return Err(Error::OsCallFailed { call: OsCall::ReadMemory, code: 0, address });
        }
        let off = address - page.base;
        if off > page.contents.len() || len > page.contents.len() - off {
            return Err(Error::OsCallFailed { call: OsCall::ReadMemory, code: 0, address });
        }
        let mut out: Vec<u8> = Vec::new();
        let mut i: usize = 0;
        while i < len
            invariant
                0 <= i <= len,
                off + len <= page.contents@.len(),
                page.contents@.len() <= usize::MAX,
                out@ == page.contents@.subrange(off as int, off + i),
            decreases len - i,
        {
            out.push(page.contents[off + i]);
            assert(out@ == page.contents@.subrange(off as int, off + i + 1));
            i = i + 1;
        }
        Ok(out)
    }

    /// Write the bytes of `value` at `address` without faulting on a
    /// protected page, and leave the page's protection exactly as found,
    /// whatever the outcome.
    ///
    /// The write succeeds exactly when the page is committed and the span
    /// lies inside it; a page that is not already writable is elevated to
    /// read-write for the access and restored afterwards. Elevation of an
    /// uncommitted page fails as the protection call would; a span outside
    /// the page fails as the raw access would.
    pub fn write(&self, page: &mut Page, address: usize, value: &Vec<u8>) -> (r: Result<
        (),
        Error,
    >)
        requires
            old(page).wf(),
        ensures
            final(page).base == old(page).base,
            final(page).state == old(page).state,
            final(page).protect == old(page).protect,
            old(page).state != MEM_COMMIT ==> r == (Err::<(), Error>(Error::OsCallFailed {
                call: OsCall::VirtualProtect,
                code: 0,
                address,
            })) && final(page).contents@ == old(page).contents@,
            old(page).state == MEM_COMMIT && !in_page_range(
                *old(page),
                address,
                value@.len() as int,
            ) ==> r == (Err::<(), Error>(Error::OsCallFailed {
                call: OsCall::WriteMemory,
                code: 0,
                address,
            })) && final(page).contents@ == old(page).contents@,
            old(page).state == MEM_COMMIT && in_page_range(*old(page), address, value@.len() as int)
                ==> r is Ok && final(page).contents@ == written(
                old(page).contents@,
                address - old(page).base,
                value@,
            ),
    {
        let info = self.query(page);
        let writable = crate::utilities::is_page_writable(&info);
        let mut restore_to: u32 = 0;
        if !writable {
            // Elevate to the minimum level a write needs, recording the
            // previous flags. The protection call fails on an uncommitted
            // page, and the operation never proceeds past that failure.
            if page.state != MEM_COMMIT {
                return Err(Error::OsCallFailed { call: OsCall::VirtualProtect, code: 0, address });
            }
            restore_to = page.protect;
            page.protect = PAGE_READWRITE;
        }
        let result = self.copy_in(page, address, value);
        // Restore the recorded flags unconditionally, even when the access
        // itself failed.
        if !writable {
            page.protect = restore_to;
        }
        result
    }

    /// The raw access of a write: copy `value` into the page. Protection
    /// has already been handled by the caller.
    fn copy_in(&self, page: &mut Page, address: usize, value: &Vec<u8>) -> (r: Result<(), Error>)
        requires
            old(page).wf(),
        ensures
            final(page).base == old(page).base,
            final(page).state == old(page).state,
            final(page).protect == old(page).protect,
            in_page_range(*old(page), address, value@.len() as int) ==> r is Ok
                && final(page).contents@ == written(
                old(page).contents@,
                address - old(page).base,
                value@,
            ),
            !in_page_range(*old(page), address, value@.len() as int) ==> r == (Err::<(), Error>(
            Error::OsCallFailed { call: OsCall::WriteMemory, code: 0, address }))
                && final(page).contents@ == old(page).contents@,
    {
        if address < page.base {
            return Err(Error::OsCallFailed { call: OsCall::WriteMemory, code: 0, address });
        }
        let off = address - page.base;
        if off > page.contents.len() || value.len() > page.contents.len() - off {
            return Err(Error::OsCallFailed { call: OsCall::WriteMemory, code: 0, address });
        }
        let ghost orig = page.contents@;
        let mut i: usize = 0;
        while i < value.len()
            invariant
                0 <= i <= value@.len(),
                off + value@.len() <= orig.len(),
                orig.len() <= usize::MAX,
                page.contents@.len() == orig.len(),
                page.base == old(page).base,
                page.state == old(page).state,
                page.protect == old(page).protect,
                orig == old(page).contents@,
                forall|j: int| 0 <= j < off ==> #[trigger] page.contents@[j] == orig[j],
                forall|j: int|
                    off + value@.len() <= j < orig.len() ==> #[trigger] page.contents@[j] == orig[j],
                forall|j: int| off <= j < off + i ==> #[trigger] page.contents@[j] == value@[j - off],
                forall|j: int|
                    off + i <= j < off + value@.len() ==> #[trigger] page.contents@[j] == orig[j],
            decreases value@.len() - i,
        {
            page.contents.set(off + i, value[i]);
            i = i + 1;
        }
        assert(page.contents@ =~= written(orig, off as int, value@));
        Ok(())
    }
}

/// Round trip: the bytes a successful write placed at an offset are exactly
/// what a read of the same span returns afterwards — for any page contents,
/// any in-range offset and any value.
pub proof fn lemma_write_read_round_trip(contents: Seq<u8>, off: int, v: Seq<u8>)
    requires
        0 <= off,
        off + v.len() <= contents.len(),
    ensures
        written(contents, off, v).subrange(off, off + v.len()) == v,
{
    assert(written(contents, off, v).subrange(off, off + v.len()) =~= v);
}

} // verus!
