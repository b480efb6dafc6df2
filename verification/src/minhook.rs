//! The inline-hook lifecycle.
//!
//! The engine is process-wide singleton state: it must be initialized
//! exactly once before any hook operation and uninitialized exactly once at
//! shutdown, and every operation returns an integer status where zero means
//! success. [`HookEngine`] keeps the bookkeeping that discipline rests on —
//! whether the engine is initialized, and which hooks exist in which state —
//! and the operations here are the verified decision core: they compute the
//! status an out-of-order call earns, carry out the state transitions
//! Created/Disabled → Enabled → Disabled, and bracket the target page's
//! protection around installation exactly as the memory accessor does. The
//! native routines that patch code live outside this crate; the caller hands
//! [`create_hook`] the trampoline the install routine produced.

use vstd::prelude::*;

use crate::errors::Error;
use crate::errors::HookOperation;
use crate::errors::OsCall;
use crate::memory::MEM_COMMIT;
use crate::memory::PAGE_EXECUTE_READWRITE;
use crate::memory::Page;

verus! {

/// Status: the operation succeeded.
pub const MH_OK: i32 = 0;

/// Status: the engine was already initialized.
pub const MH_ERROR_ALREADY_INITIALIZED: i32 = 1;

/// Status: the engine is not initialized yet, or no longer.
pub const MH_ERROR_NOT_INITIALIZED: i32 = 2;

/// Status: a hook for the target is already created.
pub const MH_ERROR_ALREADY_CREATED: i32 = 3;

/// Status: no hook is created for the target.
pub const MH_ERROR_NOT_CREATED: i32 = 4;

/// Status: the hook for the target is already enabled.
pub const MH_ERROR_ENABLED: i32 = 5;

/// Status: the hook for the target is already disabled, or was never
/// enabled.
pub const MH_ERROR_DISABLED: i32 = 6;

/// Where one hook stands in its lifecycle.
#[derive(Clone, Copy, Debug, PartialEq, Eq, Structural)]
pub enum HookState {
    /// Installed but inert: the target still runs its original code.
    Created,
    /// The detour is live.
    Enabled,
    /// Toggled off after having been enabled.
    Disabled,
}

/// One installed hook: where it patches, where it detours to, the
/// trampoline that still reaches the original code, and its state.
#[derive(Clone, Copy, Debug, PartialEq, Eq, Structural)]
pub struct Hook {
    /// Address of the hooked function.
    pub target: usize,
    /// Address of the replacement function.
    pub detour: usize,
    /// Address of the stub that invokes the original behaviour.
    pub trampoline: usize,
    /// Where the hook stands in its lifecycle.
    pub state: HookState,
}

/// The process-wide hook-engine state: initialized or not, and the hooks
/// created so far.
#[derive(Debug)]
pub struct HookEngine {
    /// Whether the one initialize call has happened and no uninitialize has.
    pub initialized: bool,
    /// Every hook created since initialization, at most one per target.
    pub hooks: Vec<Hook>,
}

/// No two hooks share a target.
pub open spec fn targets_unique(hooks: Seq<Hook>) -> bool {
    forall|i: int, j: int|
        0 <= i < j < hooks.len() ==> (#[trigger] hooks[i]).target != (#[trigger] hooks[j]).target
}

/// Some hook exists for the target.
pub open spec fn has_hook(hooks: Seq<Hook>, target: usize) -> bool {
    exists|i: int| 0 <= i < hooks.len() && (#[trigger] hooks[i]).target == target
}

/// Some hook exists for the target and stands in state `s`.
pub open spec fn hook_has_state(hooks: Seq<Hook>, target: usize, s: HookState) -> bool {
    exists|i: int|
        0 <= i < hooks.len() && (#[trigger] hooks[i]).target == target && hooks[i].state == s
}

/// The hook for the target is live.
pub open spec fn hook_enabled(hooks: Seq<Hook>, target: usize) -> bool {
    hook_has_state(hooks, target, HookState::Enabled)
}

/// `h` moved to state `s`.
pub open spec fn with_state(h: Hook, s: HookState) -> Hook {
    Hook { state: s, ..h }
}

/// The hooks after a successful installation for a fresh target.
pub open spec fn hooks_after_create(
    hooks: Seq<Hook>,
    target: usize,
    detour: usize,
    trampoline: usize,
) -> Seq<Hook> {
    hooks.push(Hook { target, detour, trampoline, state: HookState::Created })
}

/// The hooks after the hook for one target moves to state `s`; all others
/// keep their state.
pub open spec fn hooks_after_set_state(hooks: Seq<Hook>, target: usize, s: HookState) -> Seq<
    Hook,
> {
    Seq::new(
        hooks.len(),
        |i: int|
            if hooks[i].target == target {
                with_state(hooks[i], s)
            } else {
                hooks[i]
            },
    )
}

/// The hooks after a bulk toggle moves every hook to state `s`.
pub open spec fn hooks_all_in_state(hooks: Seq<Hook>, s: HookState) -> Seq<Hook> {
    Seq::new(hooks.len(), |i: int| with_state(hooks[i], s))
}

impl HookEngine {
    /// At most one hook per target.
    pub open spec fn wf(self) -> bool {
        targets_unique(self.hooks@)
    }

    /// The engine as a process starts: uninitialized, with no hooks.
    pub fn new() -> (r: HookEngine)
        ensures
            !r.initialized,
            r.hooks@ == Seq::<Hook>::empty(),
            r.wf(),
    {
        HookEngine { initialized: false, hooks: Vec::new() }
    }
}

/// Initialize the engine. Exactly one such call must precede any hook
/// operation; a second one earns the already-initialized status and changes
/// nothing.
pub fn initialize(engine: &mut HookEngine) -> (r: Result<(), Error>)
    ensures
        final(engine).hooks@ == old(engine).hooks@,
        old(engine).initialized ==> r == (Err::<(), Error>(Error::EngineStatus {
            status: MH_ERROR_ALREADY_INITIALIZED,
            operation: HookOperation::Initialize,
            target: 0,
        })) && final(engine).initialized,
        !old(engine).initialized ==> r is Ok && final(engine).initialized,
{
    if engine.initialized {
        return Err(
            Error::EngineStatus {
                status: MH_ERROR_ALREADY_INITIALIZED,
                operation: HookOperation::Initialize,
                target: 0,
            },
        );
    }
    engine.initialized = true;
    Ok(())
}

/// Uninitialize the engine, tearing every remaining hook down with it.
/// Exactly one such call ends the lifecycle; one while uninitialized earns
/// the not-initialized status and changes nothing.
pub fn uninitialize(engine: &mut HookEngine) -> (r: Result<(), Error>)
    ensures
        !old(engine).initialized ==> r == (Err::<(), Error>(Error::EngineStatus {
            status: MH_ERROR_NOT_INITIALIZED,
            operation: HookOperation::Uninitialize,
            target: 0,
        })) && !final(engine).initialized && final(engine).hooks@ == old(engine).hooks@,
        old(engine).initialized ==> r is Ok && !final(engine).initialized && final(engine).hooks@
            == Seq::<Hook>::empty(),
{
    if !engine.initialized {
        return Err(
            Error::EngineStatus {
                status: MH_ERROR_NOT_INITIALIZED,
                operation: HookOperation::Uninitialize,
                target: 0,
            },
        );
    }
    engine.initialized = false;
    engine.hooks = Vec::new();
    Ok(())
}

/// Index of the hook for the target, if one exists.
fn find_hook_index(hooks: &Vec<Hook>, target: usize) -> (r: Option<usize>)
    ensures
        r matches Some(i) ==> i < hooks@.len() && hooks@[i as int].target == target,
        r is None ==> !has_hook(hooks@, target),
{
    let mut i: usize = 0;
    while i < hooks.len()
        invariant
            0 <= i <= hooks@.len(),
            forall|j: int| 0 <= j < i ==> (#[trigger] hooks@[j]).target != target,
        decreases hooks@.len() - i,
    {
        if hooks[i].target == target {
            return Some(i);
        }
        i = i + 1;
    }
    None
}

/// Create a hook from `target` to `detour`, in the disabled (Created)
/// state, bracketing the target page's protection: if the page is not
/// already execute-read-write it is elevated for the installation and
/// restored afterwards, whatever the engine answered. `trampoline` is the
/// stub the engine's install routine handed back for invoking the original
/// code; on success it is recorded in the hook and returned.
///
/// The call fails with the engine's status when the engine is uninitialized
/// or the target already has a hook, and with the protection call's failure
/// when the page would need elevating but is not committed.
pub fn create_hook(
    engine: &mut HookEngine,
    page: &mut Page,
    target: usize,
    detour: usize,
    trampoline: usize,
) -> (r: Result<usize, Error>)
    requires
        old(engine).wf(),
    ensures
        final(engine).wf(),
        final(engine).initialized == old(engine).initialized,
        final(page).base == old(page).base,
        final(page).state == old(page).state,
        final(page).contents@ == old(page).contents@,
        old(page).protect != PAGE_EXECUTE_READWRITE && old(page).state != MEM_COMMIT ==> r == (
        Err::<usize, Error>(Error::OsCallFailed {
            call: OsCall::VirtualProtect,
            code: 0,
            address: target,
        })) && final(page).protect == old(page).protect && final(engine).hooks@ == old(engine).hooks@,
        old(page).protect == PAGE_EXECUTE_READWRITE || old(page).state == MEM_COMMIT ==> final(page).protect == old(page).protect && {
            if !old(engine).initialized {
                r == (Err::<usize, Error>(Error::EngineStatus {
                    status: MH_ERROR_NOT_INITIALIZED,
                    operation: HookOperation::Create,
                    target,
                })) && final(engine).hooks@ == old(engine).hooks@
            } else if has_hook(old(engine).hooks@, target) {
                r == (Err::<usize, Error>(Error::EngineStatus {
                    status: MH_ERROR_ALREADY_CREATED,
                    operation: HookOperation::Create,
                    target,
                })) && final(engine).hooks@ == old(engine).hooks@
            } else {
                r == Ok::<usize, Error>(trampoline) && final(engine).hooks@ == hooks_after_create(
                    old(engine).hooks@,
                    target,
                    detour,
                    trampoline,
                )
            }
        },
{
    let is_executable = page.protect == PAGE_EXECUTE_READWRITE;
    let mut restore_to: u32 = 0;
    if !is_executable {
        // Elevate the target page for the installation, recording the
        // previous flags. The protection call fails on an uncommitted page.
        if page.state != MEM_COMMIT {
            return Err(
                Error::OsCallFailed { call: OsCall::VirtualProtect, code: 0, address: target },
            );
        }
        restore_to = page.protect;
        page.protect = PAGE_EXECUTE_READWRITE;
    }
    // The engine's bookkeeping for the install routine: refuse when
    // uninitialized or already hooked, else record the new hook as Created.
    let status: i32 = if !engine.initialized {
        MH_ERROR_NOT_INITIALIZED
    } else {
        match find_hook_index(&engine.hooks, target) {
            Option::Some(_) => MH_ERROR_ALREADY_CREATED,
            Option::None => {
                let ghost before = engine.hooks@;
                engine.hooks.push(Hook { target, detour, trampoline, state: HookState::Created });
                proof {
                    assert forall|i: int, j: int|
                        0 <= i < j < engine.hooks@.len() implies (#[trigger] engine.hooks@[i]).target
                        != (#[trigger] engine.hooks@[j]).target by {
                        if j == engine.hooks@.len() - 1 {
                            assert(engine.hooks@[i] == before[i]);
                        }
                    }
                }
                MH_OK
            },
        }
    };
    // Restore the recorded flags unconditionally, even when the engine
    // refused the installation.
    if !is_executable {
        page.protect = restore_to;
    }
    if status != MH_OK {
        return Err(Error::EngineStatus { status, operation: HookOperation::Create, target });
    }
    Ok(trampoline)
}

/// Enable one hook, or every created hook at once when no target is given.
///
/// A targeted call moves a Created or Disabled hook to Enabled; it earns the
/// engine's status — never a crash — when the engine is uninitialized, the
/// target has no hook, or the hook is already enabled. The bulk call leaves
/// every hook Enabled.
pub fn enable_hook(engine: &mut HookEngine, target: Option<usize>) -> (r: Result<(), Error>)
    requires
        old(engine).wf(),
    ensures
        final(engine).wf(),
        final(engine).initialized == old(engine).initialized,
        !old(engine).initialized ==> r == (Err::<(), Error>(Error::EngineStatus {
            status: MH_ERROR_NOT_INITIALIZED,
            operation: HookOperation::Enable,
            target: (match target {
                Option::Some(t) => t,
                Option::None => 0,
            }),
        })) && final(engine).hooks@ == old(engine).hooks@,
        old(engine).initialized ==> match target {
            Option::Some(t) => {
                if !has_hook(old(engine).hooks@, t) {
                    r == (Err::<(), Error>(Error::EngineStatus {
                        status: MH_ERROR_NOT_CREATED,
                        operation: HookOperation::Enable,
                        target: t,
                    })) && final(engine).hooks@ == old(engine).hooks@
                } else if hook_enabled(old(engine).hooks@, t) {
                    r == (Err::<(), Error>(Error::EngineStatus {
                        status: MH_ERROR_ENABLED,
                        operation: HookOperation::Enable,
                        target: t,
                    })) && final(engine).hooks@ == old(engine).hooks@
                } else {
                    r is Ok && final(engine).hooks@ == hooks_after_set_state(
                        old(engine).hooks@,
                        t,
                        HookState::Enabled,
                    )
                }
            },
            Option::None => r is Ok && final(engine).hooks@ == hooks_all_in_state(
                old(engine).hooks@,
                HookState::Enabled,
            ),
        },
{
    set_hook_state(engine, target, true)
}

/// Disable one hook, or every hook at once when no target is given.
///
/// A targeted call moves an Enabled hook to Disabled; it earns the engine's
/// status — never a crash — when the engine is uninitialized, the target
/// has no hook, or the hook is not enabled. The bulk call leaves every hook
/// Disabled.
pub fn disable_hook(engine: &mut HookEngine, target: Option<usize>) -> (r: Result<(), Error>)
    requires
        old(engine).wf(),
    ensures
        final(engine).wf(),
        final(engine).initialized == old(engine).initialized,
        !old(engine).initialized ==> r == (Err::<(), Error>(Error::EngineStatus {
            status: MH_ERROR_NOT_INITIALIZED,
            operation: HookOperation::Disable,
            target: (match target {
                Option::Some(t) => t,
                Option::None => 0,
            }),
        })) && final(engine).hooks@ == old(engine).hooks@,
        old(engine).initialized ==> match target {
            Option::Some(t) => {
                if !has_hook(old(engine).hooks@, t) {
                    r == (Err::<(), Error>(Error::EngineStatus {
                        status: MH_ERROR_NOT_CREATED,
                        operation: HookOperation::Disable,
                        target: t,
                    })) && final(engine).hooks@ == old(engine).hooks@
                } else if !hook_enabled(old(engine).hooks@, t) {
                    r == (Err::<(), Error>(Error::EngineStatus {
                        status: MH_ERROR_DISABLED,
                        operation: HookOperation::Disable,
                        target: t,
                    })) && final(engine).hooks@ == old(engine).hooks@
                } else {
                    r is Ok && final(engine).hooks@ == hooks_after_set_state(
                        old(engine).hooks@,
                        t,
                        HookState::Disabled,
                    )
                }
            },
            Option::None => r is Ok && final(engine).hooks@ == hooks_all_in_state(
                old(engine).hooks@,
                HookState::Disabled,
            ),
        },
{
    set_hook_state(engine, target, false)
}

/// Shared body of [`enable_hook`] and [`disable_hook`]: check the engine
/// state, locate the hook, and carry out the transition.
fn set_hook_state(engine: &mut HookEngine, target: Option<usize>, enable: bool) -> (r: Result<
    (),
    Error,
>)
    requires
        old(engine).wf(),
    ensures
        final(engine).wf(),
        final(engine).initialized == old(engine).initialized,
        !old(engine).initialized ==> r == (Err::<(), Error>(Error::EngineStatus {
            status: MH_ERROR_NOT_INITIALIZED,
            operation: (if enable {
                HookOperation::Enable
            } else {
                HookOperation::Disable
            }),
            target: (match target {
                Option::Some(t) => t,
                Option::None => 0,
            }),
        })) && final(engine).hooks@ == old(engine).hooks@,
        old(engine).initialized ==> match target {
            Option::Some(t) => {
                if !has_hook(old(engine).hooks@, t) {
                    r == (Err::<(), Error>(Error::EngineStatus {
                        status: MH_ERROR_NOT_CREATED,
                        operation: (if enable {
                            HookOperation::Enable
                        } else {
                            HookOperation::Disable
                        }),
                        target: t,
                    })) && final(engine).hooks@ == old(engine).hooks@
                } else if hook_enabled(old(engine).hooks@, t) == enable {
                    r == (Err::<(), Error>(Error::EngineStatus {
                        status: (if enable {
                            MH_ERROR_ENABLED
                        } else {
                            MH_ERROR_DISABLED
                        }),
                        operation: (if enable {
                            HookOperation::Enable
                        } else {
                            HookOperation::Disable
                        }),
                        target: t,
                    })) && final(engine).hooks@ == old(engine).hooks@
                } else {
                    r is Ok && final(engine).hooks@ == hooks_after_set_state(
                        old(engine).hooks@,
                        t,
                        (if enable {
                            HookState::Enabled
                        } else {
                            HookState::Disabled
                        }),
                    )
                }
            },
            Option::None => r is Ok && final(engine).hooks@ == hooks_all_in_state(
                old(engine).hooks@,
                (if enable {
                    HookState::Enabled
                } else {
                    HookState::Disabled
                }),
            ),
        },
{
    let operation = if enable {
        HookOperation::Enable
    } else {
        HookOperation::Disable
    };
    let new_state = if enable {
        HookState::Enabled
    } else {
        HookState::Disabled
    };
    if !engine.initialized {
        let t = match target {
            Option::Some(t) => t,
            Option::None => 0,
        };
        return Err(
            Error::EngineStatus { status: MH_ERROR_NOT_INITIALIZED, operation, target: t },
        );
    }
    match target {
        Option::Some(t) => {
            match find_hook_index(&engine.hooks, t) {
                Option::None => {
                    Err(Error::EngineStatus { status: MH_ERROR_NOT_CREATED, operation, target: t })
                },
                Option::Some(i) => {
                    let h = engine.hooks[i];
                    let currently_enabled = match h.state {
                        HookState::Enabled => true,
                        HookState::Created => false,
                        HookState::Disabled => false,
                    };
                    proof {
                        assert(has_hook(engine.hooks@, t));
                        if currently_enabled {
                            assert(hook_enabled(engine.hooks@, t));
                        } else {
                            assert forall|j: int|
                                0 <= j < engine.hooks@.len() && (#[trigger] engine.hooks@[j]).target
                                    == t implies engine.hooks@[j].state != HookState::Enabled by {
                                if j != i as int {
                                    assert(engine.hooks@[j].target != engine.hooks@[i as int].target);
                                }
                            }
                        }
                    }
                    if currently_enabled == enable {
                        let status = if enable {
                            MH_ERROR_ENABLED
                        } else {
                            MH_ERROR_DISABLED
                        };
                        Err(Error::EngineStatus { status, operation, target: t })
                    } else {
                        let ghost before = engine.hooks@;
                        let updated = Hook {
                            target: h.target,
                            detour: h.detour,
                            trampoline: h.trampoline,
                            state: new_state,
                        };
                        engine.hooks.set(i, updated);
                        proof {
                            assert forall|j: int|
                                0 <= j < engine.hooks@.len() implies engine.hooks@[j]
                                == hooks_after_set_state(before, t, new_state)[j] by {
                                if j != i as int && before[j].target == t {
                                    assert(before[j].target != before[i as int].target);
                                }
                            }
                            assert(engine.hooks@ =~= hooks_after_set_state(before, t, new_state));
                        }
                        Ok(())
                    }
                },
            }
        },
        Option::None => {
            let ghost before = engine.hooks@;
            let mut i: usize = 0;
            while i < engine.hooks.len()
                invariant
                    0 <= i <= engine.hooks@.len(),
                    engine.hooks@.len() == before.len(),
                    engine.initialized == old(engine).initialized,
                    forall|j: int|
                        0 <= j < i ==> #[trigger] engine.hooks@[j] == with_state(
                            before[j],
                            new_state,
                        ),
                    forall|j: int| i <= j < before.len() ==> #[trigger] engine.hooks@[j] == before[j],
                decreases before.len() - i,
            {
                let h = engine.hooks[i];
                engine.hooks.set(
                    i,
                    Hook {
                        target: h.target,
                        detour: h.detour,
                        trampoline: h.trampoline,
                        state: new_state,
                    },
                );
                i = i + 1;
            }
            proof {
                assert(engine.hooks@ =~= hooks_all_in_state(before, new_state));
                assert forall|a: int, b: int|
                    0 <= a < b < engine.hooks@.len() implies (#[trigger] engine.hooks@[a]).target
                    != (#[trigger] engine.hooks@[b]).target by {
                    assert(engine.hooks@[a].target == before[a].target);
                    assert(engine.hooks@[b].target == before[b].target);
                }
            }
            Ok(())
        },
    }
}

/// Enable every created hook in one bulk operation.
pub fn enable_hooks(engine: &mut HookEngine) -> (r: Result<(), Error>)
    requires
        old(engine).wf(),
    ensures
        final(engine).wf(),
        final(engine).initialized == old(engine).initialized,
        !old(engine).initialized ==> r == (Err::<(), Error>(Error::EngineStatus {
            status: MH_ERROR_NOT_INITIALIZED,
            operation: HookOperation::Enable,
            target: 0,
        })) && final(engine).hooks@ == old(engine).hooks@,
        old(engine).initialized ==> r is Ok && final(engine).hooks@ == hooks_all_in_state(
            old(engine).hooks@,
            HookState::Enabled,
        ),
{
    enable_hook(engine, None)
}

/// Disable every hook in one bulk operation.
pub fn disable_hooks(engine: &mut HookEngine) -> (r: Result<(), Error>)
    requires
        old(engine).wf(),
    ensures
        final(engine).wf(),
        final(engine).initialized == old(engine).initialized,
        !old(engine).initialized ==> r == (Err::<(), Error>(Error::EngineStatus {
            status: MH_ERROR_NOT_INITIALIZED,
            operation: HookOperation::Disable,
            target: 0,
        })) && final(engine).hooks@ == old(engine).hooks@,
        old(engine).initialized ==> r is Ok && final(engine).hooks@ == hooks_all_in_state(
            old(engine).hooks@,
            HookState::Disabled,
        ),
{
    disable_hook(engine, None)
}

/// Hook lifecycle law: creating a hook leaves it Created and inert, enabling
/// it then succeeds and leaves exactly it Enabled, and disabling it then
/// succeeds and leaves it Disabled — for any engine contents that do not
/// already hook the target.
pub proof fn lemma_hook_lifecycle(hooks: Seq<Hook>, target: usize, detour: usize, trampoline: usize)
    requires
        targets_unique(hooks),
        !has_hook(hooks, target),
    ensures
        ({
            let h1 = hooks_after_create(hooks, target, detour, trampoline);
            let h2 = hooks_after_set_state(h1, target, HookState::Enabled);
            let h3 = hooks_after_set_state(h2, target, HookState::Disabled);
            &&& hook_has_state(h1, target, HookState::Created)
            &&& !hook_enabled(h1, target)
            &&& hook_has_state(h2, target, HookState::Enabled)
            &&& hook_enabled(h2, target)
            &&& hook_has_state(h3, target, HookState::Disabled)
            &&& !hook_enabled(h3, target)
        }),
{
    let h1 = hooks_after_create(hooks, target, detour, trampoline);
    let h2 = hooks_after_set_state(h1, target, HookState::Enabled);
    let h3 = hooks_after_set_state(h2, target, HookState::Disabled);
    let n = hooks.len() as int;
    assert(h1[n].target == target && h1[n].state == HookState::Created);
    assert forall|i: int| 0 <= i < h1.len() && (#[trigger] h1[i]).target == target implies h1[i].state
        == HookState::Created by {
        if i < n {
            assert(h1[i] == hooks[i]);
            assert(has_hook(hooks, target));
        }
    }
    assert(h2[n].target == target && h2[n].state == HookState::Enabled);
    assert(h3[n].target == target && h3[n].state == HookState::Disabled);
    assert forall|i: int| 0 <= i < h3.len() && (#[trigger] h3[i]).target == target implies h3[i].state
        == HookState::Disabled by {}
}

} // verus!
