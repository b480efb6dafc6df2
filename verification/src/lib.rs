//! Protection-aware memory access, process/module lookup, pattern scanning,
//! and an inline-hook lifecycle, with the decision logic verified.
//!
//! The operating-system edge (snapshots, protection syscalls, the raw
//! accesses themselves, the hook engine's native routines) lives outside this
//! crate; everything here works on plain values handed across that edge.

pub mod errors;
pub mod memory;
pub mod minhook;
pub mod module;
pub mod patternscan;
pub mod process;
pub mod utilities;

pub use errors::Error;
pub use errors::HookOperation;
pub use errors::OsCall;
pub use memory::MemoryAccessor;
pub use memory::MemorySnapshot;
pub use memory::Page;
pub use minhook::HookEngine;
pub use module::Module;
pub use module::ModuleInfo;
pub use process::Process;
pub use process::ProcessEntry;
