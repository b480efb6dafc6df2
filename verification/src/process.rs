//! A running process and its captured module list, and the name-based
//! lookups over what the system's snapshots report.
//!
//! Name matching is exact and case-preserving, never substring or
//! case-insensitive. The snapshot walks themselves are system calls outside
//! this crate; they hand these functions the entries they produced.

use vstd::prelude::*;

use crate::errors::Error;
use crate::module::Module;

verus! {

/// One entry of a system-wide process snapshot, as the walk reports it:
/// the process id and the executable name.
#[derive(Debug)]
pub struct ProcessEntry {
    /// The process's numeric id.
    pub pid: u32,
    /// The executable name the snapshot reports.
    pub name: String,
}

impl Clone for ProcessEntry {
    /// A clone is the same entry.
    fn clone(&self) -> (r: Self)
        ensures
            r == *self,
    {
        ProcessEntry { pid: self.pid, name: self.name.clone() }
    }
}

/// Whether a snapshot entry's name is exactly `name`.
pub open spec fn entry_matches(e: ProcessEntry, name: Seq<char>) -> bool {
    e.name@ == name
}

/// No entry of the snapshot carries exactly this name.
pub open spec fn no_entry_matches(entries: Seq<ProcessEntry>, name: Seq<char>) -> bool {
    forall|i: int| 0 <= i < entries.len() ==> !entry_matches(#[trigger] entries[i], name)
}

/// Whether a module's name is exactly `name`.
pub open spec fn module_matches(m: Module, name: Seq<char>) -> bool {
    m.name@ == name
}

/// No module of the list carries exactly this name.
pub open spec fn no_module_matches(modules: Seq<Module>, name: Seq<char>) -> bool {
    forall|i: int| 0 <= i < modules.len() ==> !module_matches(#[trigger] modules[i], name)
}

/// The first snapshot entry whose executable name is exactly `name`, or
/// nothing — never a handle — when no running process carries that name.
pub fn get_process_entry_by_name(entries: &Vec<ProcessEntry>, name: &String) -> (r: Option<
    ProcessEntry,
>)
    ensures
        r is None <==> no_entry_matches(entries@, name@),
        r matches Some(e) ==> exists|i: int|
            0 <= i < entries@.len() && entry_matches(#[trigger] entries@[i], name@) && e
                == entries@[i] && (forall|j: int|
                0 <= j < i ==> !entry_matches(#[trigger] entries@[j], name@)),
{
    let mut i: usize = 0;
    while i < entries.len()
        invariant
            0 <= i <= entries@.len(),
            forall|j: int| 0 <= j < i ==> !entry_matches(#[trigger] entries@[j], name@),
        decreases entries@.len() - i,
    {
        if entries[i].name == *name {
            return Some(entries[i].clone());
        }
        i = i + 1;
    }
    None
}

/// An operating-system process: its id, the handle it was opened with, and
/// the module list captured once when the process record was built — not
/// refreshed afterwards, so it can go stale, and `None` when module
/// enumeration failed.
#[derive(Debug)]
pub struct Process {
    /// The process's numeric id.
    pub id: usize,
    /// The handle the process was opened with, carrying its access rights.
    pub handle: isize,
    /// The modules captured at construction; `None` when enumeration
    /// failed, which is thereby kept distinct from a process with zero
    /// modules.
    pub modules: Option<Vec<Module>>,
}

impl Process {
    /// The first captured module whose name is exactly `module_name`, as an
    /// owned record. Fails with [`Error::NotFound`] — and with nothing else
    /// — exactly when no captured module carries that name, or module
    /// enumeration had failed at construction.
    pub fn get_module_by_name(&self, module_name: &String) -> (r: Result<Module, Error>)
        ensures
            r is Err <==> (match self.modules {
                Option::None => true,
                Option::Some(ms) => no_module_matches(ms@, module_name@),
            }),
            r is Err ==> r == Err::<Module, Error>(Error::NotFound),
            r matches Ok(m) ==> self.modules matches Some(ms) && exists|i: int|
                0 <= i < ms@.len() && module_matches(#[trigger] ms@[i], module_name@) && m == ms@[i]
                    && (forall|j: int| 0 <= j < i ==> !module_matches(#[trigger] ms@[j], module_name@)),
    {
        let modules = match &self.modules {
            Option::Some(ms) => ms,
            Option::None => {
                return Err(Error::NotFound);
            },
        };
        let mut i: usize = 0;
        while i < modules.len()
            invariant
                0 <= i <= modules@.len(),
                self.modules matches Some(ms) && ms == *modules,
                forall|j: int| 0 <= j < i ==> !module_matches(#[trigger] modules@[j], module_name@),
            decreases modules@.len() - i,
        {
            if modules[i].name == *module_name {
                return Ok(modules[i].clone());
            }
            i = i + 1;
        }
        Err(Error::NotFound)
    }
}

} // verus!
