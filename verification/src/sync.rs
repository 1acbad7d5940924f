//! Fences: elements injected in the command queue of the backend, which become signaled when
//! the backend reaches them.
//!
//! Which entry point creates a fence depends on the backend; the choice is made here, and the
//! call is made by the caller.

use vstd::prelude::*;

use crate::version::{Api, Backend, CapabilitiesSource, ExtensionsList, Version, ver_ge, version_ge};

verus! {

/// Error that happens when sync functionalities are not supported.
#[derive(Copy, Clone, Debug, PartialEq, Eq, Structural)]
pub struct SyncNotSupportedError;

/// The entry point that creates a fence.
#[derive(Copy, Clone, Debug, PartialEq, Eq, Structural)]
pub enum FenceSyncMethod {
    /// `glFenceSync` with `GL_SYNC_GPU_COMMANDS_COMPLETE`.
    Core,
    /// `glFenceSyncAPPLE` with `GL_SYNC_GPU_COMMANDS_COMPLETE_APPLE`.
    Apple,
}

/// The entry point that creates a fence on a backend of version `v` with extensions `e`:
/// the core one from OpenGL 3.2, OpenGL ES 3.0 or with `GL_ARB_sync`, else the one of
/// `GL_APPLE_sync`; without either, fences are not supported.
pub open spec fn fence_sync_method(v: Version, e: ExtensionsList) -> Result<
    FenceSyncMethod,
    SyncNotSupportedError,
> {
    if ver_ge(v, Api::Gl, 3, 2) || ver_ge(v, Api::GlEs, 3, 0) || e.gl_arb_sync {
        Ok(FenceSyncMethod::Core)
    } else if e.gl_apple_sync {
        Ok(FenceSyncMethod::Apple)
    } else {
        Err(SyncNotSupportedError)
    }
}

/// Returns the entry point that creates a fence on the backend, or an error if the backend
/// doesn't support fences.
pub fn choose_fence_sync_method<C: CapabilitiesSource>(ctxt: &C) -> (r: Result<
    FenceSyncMethod,
    SyncNotSupportedError,
>)
    ensures
        r == fence_sync_method(ctxt.version_view(), ctxt.extensions_view()),
{
    let v = ctxt.get_version();
    if version_ge(v, Api::Gl, 3, 2) || version_ge(v, Api::GlEs, 3, 0) || ctxt.get_extensions().gl_arb_sync {
        Ok(FenceSyncMethod::Core)
    } else if ctxt.get_extensions().gl_apple_sync {
        Ok(FenceSyncMethod::Apple)
    } else {
        Err(SyncNotSupportedError)
    }
}

/// Provides a way to wait for a server-side operation to be finished.
///
/// The fence is known by the handle that the backend returned for it.
#[derive(Debug)]
pub struct SyncFence {
    context: Backend,
    id: Option<usize>,
}

impl SyncFence {
    /// The backend of the fence.
    pub closed spec fn context_view(&self) -> Backend {
        self.context
    }

    /// The handle of the fence.
    pub closed spec fn id_view(&self) -> Option<usize> {
        self.id
    }

    /// Returns the handle of the fence.
    pub fn get_id(&self) -> (r: Option<usize>)
        ensures
            r == self.id_view(),
    {
        self.id
    }
}

/// Prototype for a `SyncFence`.
///
/// The fence must be consumed with `into_sync_fence`.
#[derive(Debug)]
pub struct LinearSyncFence {
    id: Option<usize>,
}

impl LinearSyncFence {
    /// The handle of the fence.
    pub closed spec fn id_view(&self) -> Option<usize> {
        self.id
    }

    /// Builds the prototype of a fence from the handle that the backend returned.
    pub fn new(id: usize) -> (r: LinearSyncFence)
        ensures
            r.id_view() == Some(id),
    {
        LinearSyncFence { id: Some(id) }
    }

    /// Turns the prototype into a real fence.
    pub fn into_sync_fence(self, context: &Backend) -> (r: SyncFence)
        ensures
            r.context_view() == *context,
            r.id_view() == self.id_view(),
    {
        SyncFence { context: *context, id: self.id }
    }
}

} // verus!
