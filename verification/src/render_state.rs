//! The render lock: whether a render pass is under way, so that a hooked
//! `Present` that the render pass itself reaches does not render again.
use vstd::prelude::*;

verus! {

/// Renderer state shared by the hooks of one process.
pub struct RenderState {
    locked: bool,
}

impl RenderState {
    pub closed spec fn spec_locked(&self) -> bool {
        self.locked
    }

    /// No render pass under way.
    pub fn new() -> (r: Self)
        ensures
            !r.spec_locked(),
    {
        RenderState { locked: false }
    }

    /// Returns whether a render operation is currently under way.
    pub fn is_locked(&self) -> (r: bool)
        ensures
            r == self.spec_locked(),
    {
        self.locked
    }

    /// Starts a render pass, which takes a render loop and the render engine:
    /// when both are there the lock is taken and the pass goes on (`true`);
    /// otherwise the pass returns at once and no render is under way.
    pub fn start_render(&mut self, has_render_loop: bool, engine_available: bool) -> (r: bool)
        ensures
            r == (has_render_loop && engine_available),
            final(self).spec_locked() == r,
    {
        let go_on = has_render_loop && engine_available;
        self.locked = go_on;
        go_on
    }

    /// Ends a render pass that went on (whether the render itself succeeded
    /// or not): releases the lock.
    pub fn finish_render(&mut self)
        ensures
            !final(self).spec_locked(),
    {
        self.locked = false;
    }

    /// Frees the renderer state: releases the lock.
    pub fn cleanup(&mut self)
        ensures
            !final(self).spec_locked(),
    {
        self.locked = false;
    }
}

} // verus!
