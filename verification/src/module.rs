//! A loaded module: its name, handles, and image span, with typed reads and
//! writes through the protection-aware accessor and a pattern scan over its
//! image.

use vstd::prelude::*;
use vstd::string::StringSliceAdditionalSpecFns;

use crate::errors::Error;
use crate::errors::OsCall;
use crate::memory::Backend;
use crate::memory::MEM_COMMIT;
use crate::memory::MemoryAccessor;
use crate::memory::Page;
use crate::memory::in_page_range;
use crate::memory::written;
use crate::patternscan::has_match;
use crate::patternscan::is_first_match;
use crate::patternscan::spec_parse;

verus! {

/// Plain image facts of a loaded module, as a module-information query
/// reports them: the mapped image's size and its load base.
#[derive(Clone, Copy, Debug, PartialEq, Eq, Structural)]
pub struct ModuleInfo {
    /// Size of the mapped image in bytes.
    pub size_of_image: u32,
    /// Address the image is loaded at.
    pub base_of_dll: usize,
}

/// A loaded executable image mapped into a process's address space. The
/// span `[base_address, base_address + size)` is the image; the module
/// handle is valid only while the owning process is alive, and
/// `process_handle` refers to that owner — zero when the owner is the
/// current process.
#[derive(Debug)]
pub struct Module {
    /// The module's reported file name.
    pub name: String,
    /// Handle of the owning process, zero for the current process. The
    /// module borrows it; the process owns it.
    pub process_handle: isize,
    /// The module's own handle.
    pub handle: isize,
    /// Size of the mapped image in bytes.
    pub size: usize,
    /// Address the image starts at.
    pub base_address: usize,
}

impl Clone for Module {
    /// A clone is the same module record.
    fn clone(&self) -> (r: Self)
        ensures
            r == *self,
    {
        Module {
            name: self.name.clone(),
            process_handle: self.process_handle,
            handle: self.handle,
            size: self.size,
            base_address: self.base_address,
        }
    }
}

/// The address a module access targets: for the in-process backend,
/// `address` is an offset from the module's base; for the cross-process
/// backend it is already absolute.
pub open spec fn module_target(m: Module, backend: Backend, address: usize) -> int {
    match backend {
        Backend::InProcess => m.base_address + address,
        Backend::CrossProcess => address as int,
    }
}

impl Module {
    /// Build the record for a module of the owning process (`None` for the
    /// current process) from its handle and what the module-information
    /// query reported. The name is left empty, as the information query
    /// does not report one.
    pub fn from_handle(process_handle: Option<isize>, module_handle: isize, info: ModuleInfo) -> (r:
        Module)
        ensures
            r.name@ == Seq::<char>::empty(),
            r.process_handle == (match process_handle {
                Option::Some(h) => h,
                Option::None => 0,
            }),
            r.handle == module_handle,
            r.size == info.size_of_image as usize,
            r.base_address == info.base_of_dll,
    {
        let ph = match process_handle {
            Option::Some(h) => h,
            Option::None => 0,
        };
        Module {
            name: String::new(),
            process_handle: ph,
            handle: module_handle,
            size: info.size_of_image as usize,
            base_address: info.base_of_dll,
        }
    }

    /// Read `len` bytes of the target at `address` — an offset from the
    /// module base for the in-process backend, absolute for the
    /// cross-process one — through the protection-aware accessor: the page
    /// protection afterwards equals what was observed before, whatever the
    /// outcome.
    pub fn read(&self, accessor: &MemoryAccessor, page: &mut Page, address: usize, len: usize) -> (r:
        Result<Vec<u8>, Error>)
        requires
            old(page).wf(),
            accessor.backend is InProcess ==> self.base_address + address <= usize::MAX,
        ensures
            final(page).base == old(page).base,
            final(page).state == old(page).state,
            final(page).contents@ == old(page).contents@,
            final(page).protect == old(page).protect,
            ({
                let target = module_target(*self, accessor.backend, address) as usize;
                &&& old(page).state != MEM_COMMIT ==> r == (Err::<Vec<u8>, Error>(
                    Error::OsCallFailed {
                        call: OsCall::VirtualProtect,
                        code: 0,
                        address: target,
                    },
                ))
                &&& old(page).state == MEM_COMMIT && !in_page_range(*old(page), target, len as int)
                    ==> r == (Err::<Vec<u8>, Error>(Error::OsCallFailed {
                    call: OsCall::ReadMemory,
                    code: 0,
                    address: target,
                }))
                &&& old(page).state == MEM_COMMIT && in_page_range(*old(page), target, len as int)
                    ==> (r matches Ok(v) && v@ == old(page).contents@.subrange(
                    target - old(page).base,
                    target - old(page).base + len,
                ))
            }),
    {
        let target = match accessor.backend {
            Backend::InProcess => self.base_address + address,
            Backend::CrossProcess => address,
        };
        accessor.read(page, target, len)
    }

    /// Write the bytes of `value` to the target at `address` — an offset
    /// from the module base for the in-process backend, absolute for the
    /// cross-process one — through the protection-aware accessor: the page
    /// protection afterwards equals what was observed before, whatever the
    /// outcome.
    pub fn write(&self, accessor: &MemoryAccessor, page: &mut Page, address: usize, value: &Vec<
        u8,
    >) -> (r: Result<(), Error>)
        requires
            old(page).wf(),
            accessor.backend is InProcess ==> self.base_address + address <= usize::MAX,
        ensures
            final(page).base == old(page).base,
            final(page).state == old(page).state,
            final(page).protect == old(page).protect,
            ({
                let target = module_target(*self, accessor.backend, address) as usize;
                &&& old(page).state != MEM_COMMIT ==> r == (Err::<(), Error>(Error::OsCallFailed {
                    call: OsCall::VirtualProtect,
                    code: 0,
                    address: target,
                })) && final(page).contents@ == old(page).contents@
                &&& old(page).state == MEM_COMMIT && !in_page_range(
                    *old(page),
                    target,
                    value@.len() as int,
                ) ==> r == (Err::<(), Error>(Error::OsCallFailed {
                    call: OsCall::WriteMemory,
                    code: 0,
                    address: target,
                })) && final(page).contents@ == old(page).contents@
                &&& old(page).state == MEM_COMMIT && in_page_range(
                    *old(page),
                    target,
                    value@.len() as int,
                ) ==> r is Ok && final(page).contents@ == written(
                    old(page).contents@,
                    target - old(page).base,
                    value@,
                )
            }),
    {
        let target = match accessor.backend {
            Backend::InProcess => self.base_address + address,
            Backend::CrossProcess => address,
        };
        accessor.write(page, target, value)
    }

    /// An owned copy of the module's full mapped image, read through the
    /// protection-aware accessor over `[base_address, base_address + size)`.
    pub fn get_module_data(&self, accessor: &MemoryAccessor, page: &mut Page) -> (r: Result<
        Vec<u8>,
        Error,
    >)
        requires
            old(page).wf(),
        ensures
            final(page).base == old(page).base,
            final(page).state == old(page).state,
            final(page).contents@ == old(page).contents@,
            final(page).protect == old(page).protect,
            old(page).state != MEM_COMMIT ==> r == (Err::<Vec<u8>, Error>(Error::OsCallFailed {
                call: OsCall::VirtualProtect,
                code: 0,
                address: self.base_address,
            })),
            old(page).state == MEM_COMMIT && !in_page_range(
                *old(page),
                self.base_address,
                self.size as int,
            ) ==> r == (Err::<Vec<u8>, Error>(Error::OsCallFailed {
                call: OsCall::ReadMemory,
                code: 0,
                address: self.base_address,
            })),
            old(page).state == MEM_COMMIT && in_page_range(
                *old(page),
                self.base_address,
                self.size as int,
            ) ==> (r matches Ok(v) && v@ == old(page).contents@.subrange(
                self.base_address - old(page).base,
                self.base_address - old(page).base + self.size,
            )),
    {
        accessor.read(page, self.base_address, self.size)
    }

    /// The module's image bytes within the page, for stating what a scan
    /// over the image found.
    pub open spec fn spec_image(self, page: Page) -> Seq<u8> {
        page.contents@.subrange(
            self.base_address - page.base,
            self.base_address - page.base + self.size,
        )
    }

    /// Scan the module's image for the first occurrence of the textual
    /// `pattern`: the image is copied out through the protection-aware
    /// accessor, the text is tokenized, and the first matching offset is
    /// reported — `None` when the pattern occurs nowhere, an error only
    /// when the image cannot be read or the text cannot be tokenized.
    pub fn find_pattern(&self, accessor: &MemoryAccessor, page: &mut Page, pattern: &str) -> (r:
        Result<Option<usize>, Error>)
        requires
            old(page).wf(),
        ensures
            final(page).base == old(page).base,
            final(page).state == old(page).state,
            final(page).contents@ == old(page).contents@,
            final(page).protect == old(page).protect,
            old(page).state != MEM_COMMIT ==> r == (Err::<Option<usize>, Error>(
            Error::OsCallFailed { call: OsCall::VirtualProtect, code: 0, address: self.base_address },
            )),
            old(page).state == MEM_COMMIT && !in_page_range(
                *old(page),
                self.base_address,
                self.size as int,
            ) ==> r == (Err::<Option<usize>, Error>(Error::OsCallFailed {
                call: OsCall::ReadMemory,
                code: 0,
                address: self.base_address,
            })),
            old(page).state == MEM_COMMIT && in_page_range(
                *old(page),
                self.base_address,
                self.size as int,
            ) ==> {
                &&& spec_parse(pattern.spec_bytes()) is None ==> r == (Err::<
                    Option<usize>,
                    Error,
                >(Error::MalformedInput))
                &&& spec_parse(pattern.spec_bytes()) matches Some(toks) ==> (r matches Ok(m) && (
                m matches Some(k) ==> is_first_match(self.spec_image(*old(page)), toks, k as int))
                    && (m is None ==> !has_match(self.spec_image(*old(page)), toks)))
            },
    {
        let data = match self.get_module_data(accessor, page) {
            Ok(d) => d,
            Err(e) => {
                return Err(e);
            },
        };
        crate::patternscan::scan_data_for_pattern(&data, pattern)
    }
}

} // verus!
