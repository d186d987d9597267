//! The states that a virtual CPU passes through.

use vstd::prelude::*;

use crate::error::{hv_return_t, HV_SUCCESS};

verus! {

/// Where a virtual CPU stands between its creation and its destruction.
///
/// A virtual CPU that the native layer has just created is made `Runnable`
/// at once, so no value of this type stands for the moment in between.
#[derive(Clone, Copy, Debug, PartialEq, Eq, Structural)]
pub enum VcpuState {
    /// Ready to run; it has not run since it was created, or its last run
    /// failed. Its registers hold nothing defined until they are written.
    Runnable,
    /// A run has been asked for and has not returned.
    Running,
    /// The last run has returned, and why it did can be asked.
    Exited,
    /// Destroyed: nothing more may be asked of it but its destruction.
    Destroyed,
}

impl VcpuState {
    /// A run may be asked for.
    pub open spec fn spec_may_run(&self) -> bool {
        *self is Runnable || *self is Exited
    }

    /// A run may be asked for: the virtual CPU is `Runnable` or `Exited`.
    #[verifier::when_used_as_spec(spec_may_run)]
    pub fn may_run(&self) -> (b: bool)
        ensures
            b == self.spec_may_run(),
    {
        match self {
            VcpuState::Runnable | VcpuState::Exited => true,
            _ => false,
        }
    }

    /// The virtual CPU may be destroyed.
    pub open spec fn spec_may_destroy(&self) -> bool {
        !(*self is Running)
    }

    /// The virtual CPU may be destroyed: it is not `Running`.
    #[verifier::when_used_as_spec(spec_may_destroy)]
    pub fn may_destroy(&self) -> (b: bool)
        ensures
            b == self.spec_may_destroy(),
    {
        match self {
            VcpuState::Running => false,
            _ => true,
        }
    }

    /// The virtual CPU exists.
    pub open spec fn spec_is_live(&self) -> bool {
        !(*self is Destroyed)
    }

    /// The virtual CPU exists: it is not `Destroyed`.
    #[verifier::when_used_as_spec(spec_is_live)]
    pub fn is_live(&self) -> (b: bool)
        ensures
            b == self.spec_is_live(),
    {
        match self {
            VcpuState::Destroyed => false,
            _ => true,
        }
    }

    /// The state of the virtual CPU may be changed from outside.
    pub open spec fn spec_is_stopped(&self) -> bool {
        self.spec_is_live() && !(*self is Running)
    }

    /// The virtual CPU exists and is not `Running`, so that its state may be
    /// changed from outside.
    #[verifier::when_used_as_spec(spec_is_stopped)]
    pub fn is_stopped(&self) -> (b: bool)
        ensures
            b == self.spec_is_stopped(),
    {
        match self {
            VcpuState::Runnable | VcpuState::Exited => true,
            _ => false,
        }
    }

    /// The state that a run leaves behind which returned the status `code`:
    /// `Exited` if it succeeded, else `Runnable`.
    pub open spec fn after_run(code: hv_return_t) -> VcpuState {
        if code == HV_SUCCESS {
            VcpuState::Exited
        } else {
            VcpuState::Runnable
        }
    }

    /// The state that an attempt at destruction leaves behind which returned
    /// the status `code`: `Destroyed` if it succeeded, else the state as it
    /// was.
    pub open spec fn after_destroy(self, code: hv_return_t) -> VcpuState {
        if code == HV_SUCCESS {
            VcpuState::Destroyed
        } else {
            self
        }
    }
}

/// No sequence of runs and failed destructions revives a virtual CPU or
/// leaves it running: a run ends in a state from which the next may start,
/// and destruction ends in `Destroyed` or changes nothing.
pub proof fn lemma_lifecycle(state: VcpuState, code: hv_return_t)
    ensures
        VcpuState::after_run(code).may_run(),
        VcpuState::after_run(code) is Exited <==> code == HV_SUCCESS,
        state.after_destroy(code) is Destroyed <==> state is Destroyed || code == HV_SUCCESS,
        !state.after_destroy(code).is_live() ==> !state.after_destroy(code).may_run(),
{
}

} // verus!
