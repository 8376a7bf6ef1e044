//! Status codes of the MinHook hooking library, and how the hook set is
//! brought up and torn down around them.
#![allow(non_camel_case_types)]
use vstd::prelude::*;

verus! {

/// A MinHook status code.
#[derive(Debug, Clone, Copy, PartialEq, Eq, Structural)]
pub enum MH_STATUS {
    /// Unknown error. Should not be returned.
    MH_UNKNOWN,
    /// Successful.
    MH_OK,
    /// MinHook is already initialized.
    MH_ERROR_ALREADY_INITIALIZED,
    /// MinHook is not initialized yet, or already uninitialized.
    MH_ERROR_NOT_INITIALIZED,
    /// The hook for the specified target function is already created.
    MH_ERROR_ALREADY_CREATED,
    /// The hook for the specified target function is not created yet.
    MH_ERROR_NOT_CREATED,
    /// The hook for the specified target function is already enabled.
    MH_ERROR_ENABLED,
    /// The hook for the specified target function is not enabled yet, or
    /// already disabled.
    MH_ERROR_DISABLED,
    /// The specified pointer is invalid.
    MH_ERROR_NOT_EXECUTABLE,
    /// The specified target function cannot be hooked.
    MH_ERROR_UNSUPPORTED_FUNCTION,
    /// Failed to allocate memory.
    MH_ERROR_MEMORY_ALLOC,
    /// Failed to change the memory protection.
    MH_ERROR_MEMORY_PROTECT,
    /// The specified module is not loaded.
    MH_ERROR_MODULE_NOT_FOUND,
    /// The specified function is not found.
    MH_ERROR_FUNCTION_NOT_FOUND,
}

/// The status that MinHook's C interface encodes as `code`: `-1` for unknown,
/// then `0` for success and `1` to `12` for the errors in declaration order.
pub open spec fn status_of_code(code: i32) -> Option<MH_STATUS> {
    if code == -1 {
        Some(MH_STATUS::MH_UNKNOWN)
    } else if code == 0 {
        Some(MH_STATUS::MH_OK)
    } else if code == 1 {
        Some(MH_STATUS::MH_ERROR_ALREADY_INITIALIZED)
    } else if code == 2 {
        Some(MH_STATUS::MH_ERROR_NOT_INITIALIZED)
    } else if code == 3 {
        Some(MH_STATUS::MH_ERROR_ALREADY_CREATED)
    } else if code == 4 {
        Some(MH_STATUS::MH_ERROR_NOT_CREATED)
    } else if code == 5 {
        Some(MH_STATUS::MH_ERROR_ENABLED)
    } else if code == 6 {
        Some(MH_STATUS::MH_ERROR_DISABLED)
    } else if code == 7 {
        Some(MH_STATUS::MH_ERROR_NOT_EXECUTABLE)
    } else if code == 8 {
        Some(MH_STATUS::MH_ERROR_UNSUPPORTED_FUNCTION)
    } else if code == 9 {
        Some(MH_STATUS::MH_ERROR_MEMORY_ALLOC)
    } else if code == 10 {
        Some(MH_STATUS::MH_ERROR_MEMORY_PROTECT)
    } else if code == 11 {
        Some(MH_STATUS::MH_ERROR_MODULE_NOT_FOUND)
    } else if code == 12 {
        Some(MH_STATUS::MH_ERROR_FUNCTION_NOT_FOUND)
    } else {
        None
    }
}

impl MH_STATUS {
    /// Converts the status into a `Result`: `Ok` for `MH_OK`, the status
    /// itself as the error otherwise.
    pub fn ok(self) -> (r: Result<(), MH_STATUS>)
        ensures
            self == MH_STATUS::MH_OK ==> r == Ok::<(), MH_STATUS>(()),
            self != MH_STATUS::MH_OK ==> r == Err::<(), MH_STATUS>(self),
    {
        if self == MH_STATUS::MH_OK {
            Ok(())
        } else {
            Err(self)
        }
    }

    /// Like [`MH_STATUS::ok`]; `context` names the operation that produced
    /// the status, for the caller's diagnostics.
    pub fn ok_context(self, context: &str) -> (r: Result<(), MH_STATUS>)
        ensures
            self == MH_STATUS::MH_OK ==> r == Ok::<(), MH_STATUS>(()),
            self != MH_STATUS::MH_OK ==> r == Err::<(), MH_STATUS>(self),
    {
        self.ok()
    }

    /// The status for a code of MinHook's C interface, if it is one.
    pub fn from_code(code: i32) -> (r: Option<MH_STATUS>)
        ensures
            r == status_of_code(code),
    {
        match code {
            -1 => Some(MH_STATUS::MH_UNKNOWN),
            0 => Some(MH_STATUS::MH_OK),
            1 => Some(MH_STATUS::MH_ERROR_ALREADY_INITIALIZED),
            2 => Some(MH_STATUS::MH_ERROR_NOT_INITIALIZED),
            3 => Some(MH_STATUS::MH_ERROR_ALREADY_CREATED),
            4 => Some(MH_STATUS::MH_ERROR_NOT_CREATED),
            5 => Some(MH_STATUS::MH_ERROR_ENABLED),
            6 => Some(MH_STATUS::MH_ERROR_DISABLED),
            7 => Some(MH_STATUS::MH_ERROR_NOT_EXECUTABLE),
            8 => Some(MH_STATUS::MH_ERROR_UNSUPPORTED_FUNCTION),
            9 => Some(MH_STATUS::MH_ERROR_MEMORY_ALLOC),
            10 => Some(MH_STATUS::MH_ERROR_MEMORY_PROTECT),
            11 => Some(MH_STATUS::MH_ERROR_MODULE_NOT_FOUND),
            12 => Some(MH_STATUS::MH_ERROR_FUNCTION_NOT_FOUND),
            _ => None,
        }
    }
}

/// What bringing MinHook up does with the status that its initialization
/// returned.
#[derive(Debug, Clone, Copy, PartialEq, Eq, Structural)]
pub enum InitializeOutcome {
    /// MinHook is ready (freshly or already initialized).
    Ready,
    /// Initialization could not allocate memory: a fatal error.
    Fatal,
    /// A status that initialization never returns.
    Impossible,
}

/// Classifies the status returned by `MH_Initialize`.
pub fn initialize_outcome(status: MH_STATUS) -> (r: InitializeOutcome)
    ensures
        (status == MH_STATUS::MH_OK || status == MH_STATUS::MH_ERROR_ALREADY_INITIALIZED)
            <==> r == InitializeOutcome::Ready,
        status == MH_STATUS::MH_ERROR_MEMORY_ALLOC <==> r == InitializeOutcome::Fatal,
{
    match status {
        MH_STATUS::MH_ERROR_ALREADY_INITIALIZED | MH_STATUS::MH_OK => InitializeOutcome::Ready,
        MH_STATUS::MH_ERROR_MEMORY_ALLOC => InitializeOutcome::Fatal,
        _ => InitializeOutcome::Impossible,
    }
}

/// The step of applying or removing a set of hooks. Applying queues one
/// enable operation per hook, in order, then applies the queue. Removing
/// queues one disable operation per hook, applies the queue, uninitializes
/// MinHook, and then runs the cleanup of each hook backend, in order.
#[derive(Debug, Clone, Copy, PartialEq, Eq, Structural)]
pub enum QueueStep {
    /// Queue the operation for the hook at this index.
    QueueHook(usize),
    /// Apply the queued operations.
    ApplyQueued,
    /// Uninitialize MinHook.
    Uninitialize,
    /// Run the cleanup of the hook backend at this index.
    Unhook(usize),
    /// Everything succeeded.
    Done,
    /// A step failed with this status; nothing more is done.
    Failed(MH_STATUS),
}

/// The step after `step` succeeded, for `count` hooks and `backends`
/// backends, when removing (`removing`) or applying.
pub open spec fn step_after(step: QueueStep, count: usize, backends: usize, removing: bool) -> QueueStep {
    match step {
        QueueStep::QueueHook(i) => if i + 1 < count {
            QueueStep::QueueHook((i + 1) as usize)
        } else {
            QueueStep::ApplyQueued
        },
        QueueStep::ApplyQueued => if removing {
            QueueStep::Uninitialize
        } else {
            QueueStep::Done
        },
        QueueStep::Uninitialize => if backends > 0 {
            QueueStep::Unhook(0)
        } else {
            QueueStep::Done
        },
        QueueStep::Unhook(j) => if j + 1 < backends {
            QueueStep::Unhook((j + 1) as usize)
        } else {
            QueueStep::Done
        },
        other => other,
    }
}

/// Drives the queue of hook operations over `count` hooks (and, when
/// removing, the cleanup of `backends` hook backends), stopping at the first
/// status that is not `MH_OK`.
pub struct HookQueue {
    count: usize,
    backends: usize,
    removing: bool,
    step: QueueStep,
}

impl HookQueue {
    pub closed spec fn spec_count(&self) -> usize {
        self.count
    }

    pub closed spec fn spec_backends(&self) -> usize {
        self.backends
    }

    pub closed spec fn spec_removing(&self) -> bool {
        self.removing
    }

    pub closed spec fn spec_step(&self) -> QueueStep {
        self.step
    }

    /// Starts applying `count` hooks.
    pub fn new(count: usize) -> (r: Self)
        ensures
            r.spec_count() == count,
            r.spec_backends() == 0,
            !r.spec_removing(),
            r.spec_step() == (if count == 0 {
                QueueStep::ApplyQueued
            } else {
                QueueStep::QueueHook(0)
            }),
    {
        HookQueue {
            count,
            backends: 0,
            removing: false,
            step: if count == 0 { QueueStep::ApplyQueued } else { QueueStep::QueueHook(0) },
        }
    }

    /// Starts removing `count` hooks that belong to `backends` hook backends.
    pub fn new_removal(count: usize, backends: usize) -> (r: Self)
        ensures
            r.spec_count() == count,
            r.spec_backends() == backends,
            r.spec_removing(),
            r.spec_step() == (if count == 0 {
                QueueStep::ApplyQueued
            } else {
                QueueStep::QueueHook(0)
            }),
    {
        HookQueue {
            count,
            backends,
            removing: true,
            step: if count == 0 { QueueStep::ApplyQueued } else { QueueStep::QueueHook(0) },
        }
    }

    /// Whether the queue removes hooks (rather than applying them).
    pub fn is_removal(&self) -> (r: bool)
        ensures
            r == self.spec_removing(),
    {
        self.removing
    }

    /// The step to perform now.
    pub fn step(&self) -> (r: QueueStep)
        ensures
            r == self.spec_step(),
    {
        self.step
    }

    fn advance(&mut self)
        requires
            old(self).spec_step() matches QueueStep::QueueHook(i) ==> i < old(self).spec_count(),
            old(self).spec_step() matches QueueStep::Unhook(j) ==> j < old(self).spec_backends(),
        ensures
            final(self).spec_count() == old(self).spec_count(),
            final(self).spec_backends() == old(self).spec_backends(),
            final(self).spec_removing() == old(self).spec_removing(),
            final(self).spec_step() == step_after(
                old(self).spec_step(),
                old(self).spec_count(),
                old(self).spec_backends(),
                old(self).spec_removing(),
            ),
    {
        self.step = match self.step {
            QueueStep::QueueHook(i) => if i + 1 < self.count {
                QueueStep::QueueHook(i + 1)
            } else {
                QueueStep::ApplyQueued
            },
            QueueStep::ApplyQueued => if self.removing {
                QueueStep::Uninitialize
            } else {
                QueueStep::Done
            },
            QueueStep::Uninitialize => if self.backends > 0 {
                QueueStep::Unhook(0)
            } else {
                QueueStep::Done
            },
            QueueStep::Unhook(j) => if j + 1 < self.backends {
                QueueStep::Unhook(j + 1)
            } else {
                QueueStep::Done
            },
            other => other,
        };
    }

    /// Reports the status of the MinHook call just made (queueing a hook,
    /// applying the queue, or uninitializing).
    pub fn report(&mut self, status: MH_STATUS)
        requires
            old(self).spec_step() is QueueHook || old(self).spec_step() is ApplyQueued
                || old(self).spec_step() is Uninitialize,
            old(self).spec_step() matches QueueStep::QueueHook(i) ==> i < old(self).spec_count(),
        ensures
            final(self).spec_count() == old(self).spec_count(),
            final(self).spec_backends() == old(self).spec_backends(),
            final(self).spec_removing() == old(self).spec_removing(),
            status != MH_STATUS::MH_OK ==> final(self).spec_step() == QueueStep::Failed(status),
            status == MH_STATUS::MH_OK ==> final(self).spec_step() == step_after(
                old(self).spec_step(),
                old(self).spec_count(),
                old(self).spec_backends(),
                old(self).spec_removing(),
            ),
    {
        if status != MH_STATUS::MH_OK {
            self.step = QueueStep::Failed(status);
            return;
        }
        self.advance();
    }

    /// Reports that the cleanup of the hook backend just named has run.
    pub fn unhooked(&mut self)
        requires
            old(self).spec_step() is Unhook,
            old(self).spec_step() matches QueueStep::Unhook(j) ==> j < old(self).spec_backends(),
        ensures
            final(self).spec_count() == old(self).spec_count(),
            final(self).spec_backends() == old(self).spec_backends(),
            final(self).spec_removing() == old(self).spec_removing(),
            final(self).spec_step() == step_after(
                old(self).spec_step(),
                old(self).spec_count(),
                old(self).spec_backends(),
                old(self).spec_removing(),
            ),
    {
        self.advance();
    }
}

/// Backend cleanup only ever follows a successful uninitialization, and
/// uninitialization only a successful apply of a removal: a cleanup step is
/// reached only from `Uninitialize` or the previous cleanup step,
/// `Uninitialize` only from `ApplyQueued` when removing, and applying hooks
/// never reaches either.
pub proof fn lemma_cleanup_follows_uninitialize(step: QueueStep, count: usize, backends: usize, removing: bool)
    ensures
        step_after(step, count, backends, removing) is Unhook ==> step is Uninitialize
            || step is Unhook,
        step_after(step, count, backends, removing) == QueueStep::Uninitialize ==> step
            == QueueStep::ApplyQueued && removing,
        !removing && (step is QueueHook || step is ApplyQueued) ==> ({
            let next = step_after(step, count, backends, removing);
            next != QueueStep::Uninitialize && !(next is Unhook)
        }),
{
}

/// MinHook's codes are -1 (unknown) and 0 to 12; 0 alone is success,
/// -1 alone is `MH_UNKNOWN`, and different codes are different statuses.
pub proof fn lemma_status_codes(c: i32, d: i32)
    ensures
        status_of_code(c) is Some <==> -1 <= c <= 12,
        status_of_code(c) == Some(MH_STATUS::MH_OK) <==> c == 0,
        status_of_code(c) == Some(MH_STATUS::MH_UNKNOWN) <==> c == -1,
        status_of_code(c) == Some(MH_STATUS::MH_ERROR_ALREADY_INITIALIZED) <==> c == 1,
        status_of_code(c) == Some(MH_STATUS::MH_ERROR_MEMORY_ALLOC) <==> c == 9,
        c != d && status_of_code(c) is Some && status_of_code(d) is Some ==> status_of_code(c)
            != status_of_code(d),
{
}

} // verus!
