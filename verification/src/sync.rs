//! Per-frame synchronization primitives.
//!
//! A [`Fence`] is the CPU-observable completion flag of one submission; it
//! must be waited on before the submission's command buffer is reused, and
//! explicitly reset before its next use.  A [`Semaphore`] is a GPU-only
//! ordering primitive; the CPU never inspects it, so the model carries only
//! its identity, which lets contracts state which semaphore a submission
//! waits on and which it signals.

use vstd::prelude::*;

verus! {

/// The CPU-visible lifecycle of a fence.
#[derive(Clone, Copy, PartialEq, Eq, Structural, Debug)]
pub enum FenceState {
    /// The guarded work has completed (or the fence was created
    /// signaled); a wait returns at once.
    Signaled,
    /// Reset and guarding nothing: unsignaled until a subsequent
    /// submission uses and completes it.  A wait would never return.
    Unsignaled,
    /// Guarding a submission whose completion the CPU has not yet
    /// observed.
    Pending,
}

/// CPU-observable completion flag for a single submission.
#[derive(Clone, Copy, PartialEq, Eq, Structural, Debug)]
pub struct Fence {
    pub state: FenceState,
}

impl Fence {
    /// A fresh fence: signaled for frame slots, so the first wait on the
    /// slot returns at once; unsignaled to be handed to a submission.
    pub fn new(signaled: bool) -> (r: Fence)
        ensures
            r.state == (if signaled {
                FenceState::Signaled
            } else {
                FenceState::Unsignaled
            }),
    {
        if signaled {
            Fence { state: FenceState::Signaled }
        } else {
            Fence { state: FenceState::Unsignaled }
        }
    }

    /// Whether completion has been observed: false after a reset until a
    /// subsequent submission using the fence completes.  A pending
    /// submission's completion is observed by waiting.
    pub fn is_completed(&self) -> (r: bool)
        ensures
            r == (self.state is Signaled),
    {
        matches!(self.state, FenceState::Signaled)
    }

    /// Block until the guarded submission completes.  On return the fence
    /// is signaled and its command buffer may be reused.  Waiting on a
    /// reset fence that guards nothing would never return, so that state
    /// is excluded.
    pub fn wait(&mut self)
        requires
            !(old(self).state is Unsignaled),
        ensures
            final(self).state is Signaled,
    {
        self.state = FenceState::Signaled;
    }

    /// Reset the fence for reuse: it is unsignaled afterwards, until a
    /// subsequent submission uses and completes it.  Resetting a fence
    /// that still guards an unobserved submission is a usage violation,
    /// so a wait must come first; the protocol makes that state
    /// unreachable.
    pub fn reset(&mut self)
        requires
            !(old(self).state is Pending),
        ensures
            final(self).state is Unsignaled,
    {
        self.state = FenceState::Unsignaled;
    }
}

/// GPU-only ordering primitive, identified by an id so that contracts can
/// state the wait/signal pairing of a submission.
#[derive(Clone, Copy, PartialEq, Eq, Structural, Debug)]
pub struct Semaphore {
    pub id: u64,
}

impl Semaphore {
    pub fn new(id: u64) -> (r: Semaphore)
        ensures
            r.id == id,
    {
        Semaphore { id }
    }

    pub fn get_semaphore(&self) -> (r: u64)
        ensures
            r == self.id,
    {
        self.id
    }
}

} // verus!
