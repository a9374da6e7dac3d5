//! The life of a search engine: preload once, then search after search, then
//! release. The preload's fence is resolved by the first search and by no other.

use crate::compute_shaders::ComputeError;
use vstd::prelude::*;

verus! {

/// Where an engine stands.
#[derive(Clone, Copy, Debug, PartialEq, Eq, Structural)]
pub enum EnginePhase {
    Uninitialized,
    Preloading,
    Idle,
    Searching,
    ShuttingDown,
}

/// What a search has to do before its own work.
#[derive(Clone, Copy, Debug, PartialEq, Eq, Structural)]
pub enum SearchStart {
    /// The preload's fence is still pending: wait for it and release it first.
    ResolvePreloadFence,
    /// Nothing is pending.
    Proceed,
}

/// What is released at shutdown, in this order.
#[derive(Clone, Copy, Debug, PartialEq, Eq, Structural)]
pub enum Release {
    Buffers,
    Pipelines,
    Device,
}

/// The phase of an engine and whether the fence of its preload is still pending.
#[derive(Clone, Copy, Debug, PartialEq, Eq, Structural)]
pub struct EngineState {
    pub phase: EnginePhase,
    pub preload_fence_pending: bool,
}

impl EngineState {
    /// A fence is pending only between the preload and the first search.
    pub open spec fn wf(self) -> bool {
        self.preload_fence_pending ==> self.phase == EnginePhase::Idle
    }

    /// The engine after a search was started on it, and what the search has to do
    /// first.
    pub open spec fn started(self) -> (EngineState, SearchStart) {
        (
            EngineState { phase: EnginePhase::Searching, preload_fence_pending: false },
            if self.preload_fence_pending {
                SearchStart::ResolvePreloadFence
            } else {
                SearchStart::Proceed
            },
        )
    }

    /// The engine after its search ended.
    pub open spec fn finished(self) -> EngineState {
        EngineState { phase: EnginePhase::Idle, preload_fence_pending: self.preload_fence_pending }
    }

    /// The engine after `count` searches were started and ended on it.
    pub open spec fn after_searches(self, count: nat) -> EngineState
        decreases count,
    {
        if count == 0 {
            self
        } else {
            self.after_searches((count - 1) as nat).started().0.finished()
        }
    }

    /// An engine before its preload.
    pub fn new() -> (state: Self)
        ensures
            state.phase == EnginePhase::Uninitialized,
            !state.preload_fence_pending,
            state.wf(),
    {
        EngineState { phase: EnginePhase::Uninitialized, preload_fence_pending: false }
    }

    /// Starts the preload. Only an uninitialized engine can; any other stays as it is.
    pub fn begin_preload(&mut self) -> (started: bool)
        requires
            old(self).wf(),
        ensures
            final(self).wf(),
            started == (old(self).phase == EnginePhase::Uninitialized),
            started ==> final(self).phase == EnginePhase::Preloading && !final(self).preload_fence_pending,
            !started ==> *final(self) == *old(self),
    {
        if self.phase == EnginePhase::Uninitialized {
            self.phase = EnginePhase::Preloading;
            true
        } else {
            false
        }
    }

    /// Ends the preload. A preload that went through leaves the engine idle with its
    /// fence pending; one that failed is final, and the engine shuts down.
    pub fn finish_preload(&mut self, outcome: Result<(), ComputeError>)
        requires
            old(self).wf(),
            old(self).phase == EnginePhase::Preloading,
        ensures
            final(self).wf(),
            outcome is Ok ==> final(self).phase == EnginePhase::Idle && final(self).preload_fence_pending,
            outcome is Err ==> final(self).phase == EnginePhase::ShuttingDown && !final(self).preload_fence_pending,
    {
        match outcome {
            Ok(_) => {
                self.phase = EnginePhase::Idle;
                self.preload_fence_pending = true;
            },
            Err(_) => {
                self.phase = EnginePhase::ShuttingDown;
            },
        }
    }

    /// Starts a search on an idle engine and says whether the preload's fence has to
    /// be resolved first. The fence is handed out once: after this call none is
    /// pending.
    pub fn begin_search(&mut self) -> (start: SearchStart)
        requires
            old(self).wf(),
            old(self).phase == EnginePhase::Idle,
        ensures
            final(self).wf(),
            *final(self) == old(self).started().0,
            start == old(self).started().1,
    {
        self.phase = EnginePhase::Searching;
        if self.preload_fence_pending {
            self.preload_fence_pending = false;
            SearchStart::ResolvePreloadFence
        } else {
            SearchStart::Proceed
        }
    }

    /// Ends a search, whatever came of it: the engine is idle again.
    pub fn finish_search(&mut self)
        requires
            old(self).wf(),
            old(self).phase == EnginePhase::Searching,
        ensures
            final(self).wf(),
            *final(self) == old(self).finished(),
            !final(self).preload_fence_pending,
    {
        self.phase = EnginePhase::Idle;
    }

    /// Shuts an idle engine down. A fence that no search resolved is dropped.
    pub fn shutdown(&mut self)
        requires
            old(self).wf(),
            old(self).phase == EnginePhase::Idle,
        ensures
            final(self).wf(),
            final(self).phase == EnginePhase::ShuttingDown,
            !final(self).preload_fence_pending,
    {
        self.phase = EnginePhase::ShuttingDown;
        self.preload_fence_pending = false;
    }
}

/// What to release at shutdown, in order: the buffers, then the pipelines, then
/// the device.
pub fn release_order() -> (order: Vec<Release>)
    ensures
        order@ == seq![Release::Buffers, Release::Pipelines, Release::Device],
{
    let mut order: Vec<Release> = Vec::new();
    order.push(Release::Buffers);
    order.push(Release::Pipelines);
    order.push(Release::Device);
    assert(order@ =~= seq![Release::Buffers, Release::Pipelines, Release::Device]);
    order
}

/// What the fence of a preload gives the first search: nothing to report if it was
/// signalled, the failure of the preload if not.
pub fn preload_fence_outcome(signalled: bool) -> (outcome: Result<(), ComputeError>)
    ensures
        signalled ==> outcome == Ok::<(), ComputeError>(()),
        !signalled ==> outcome == Err::<(), ComputeError>(ComputeError::PreloadUnsuccessful),
{
    if signalled {
        Ok(())
    } else {
        Err(ComputeError::PreloadUnsuccessful)
    }
}

/// What the fence of a search gives: nothing to report if it was signalled, the
/// failure of the search if not.
pub fn search_fence_outcome(signalled: bool) -> (outcome: Result<(), ComputeError>)
    ensures
        signalled ==> outcome == Ok::<(), ComputeError>(()),
        !signalled ==> outcome == Err::<(), ComputeError>(ComputeError::SearchUnsuccessful),
{
    if signalled {
        Ok(())
    } else {
        Err(ComputeError::SearchUnsuccessful)
    }
}


/// Of the searches that run on a preloaded engine, the first resolves the fence of
/// the preload and no later one does: after every search the engine is idle with
/// no fence pending.
pub proof fn lemma_fence_resolved_once(preloaded: EngineState, earlier: nat)
    requires
        preloaded.wf(),
        preloaded.phase == EnginePhase::Idle,
    ensures
        preloaded.after_searches(earlier).wf(),
        preloaded.after_searches(earlier).phase == EnginePhase::Idle,
        earlier == 0 && preloaded.preload_fence_pending ==> preloaded.after_searches(
            earlier,
        ).started().1 == SearchStart::ResolvePreloadFence,
        earlier > 0 ==> !preloaded.after_searches(earlier).preload_fence_pending
            && preloaded.after_searches(earlier).started().1 == SearchStart::Proceed,
    decreases earlier,
{
    if earlier > 0 {
        lemma_fence_resolved_once(preloaded, (earlier - 1) as nat);
    }
}

} // verus!
