//! What a view is handed when an event reaches it: the event itself and the
//! context through which it asks the runtime for a re-render.
use vstd::prelude::*;

verus! {

/// A click delivered by the runtime.
#[derive(Clone, Copy, Debug, PartialEq, Eq, Structural)]
pub struct ClickEvent {
    /// How many clicks in quick succession this one completes (1 for a
    /// single click).
    pub click_count: u32,
}

/// The per-view execution context. `stale` records that the view has asked
/// to be rendered again before the next frame is presented; the runtime
/// clears it when it renders the view.
#[derive(Debug)]
pub struct ViewContext {
    pub stale: bool,
}

impl ViewContext {
    /// A context with no re-render requested.
    pub fn new() -> (r: ViewContext)
        ensures
            !r.stale,
    {
        ViewContext { stale: false }
    }

    /// Marks the view as needing a re-render.
    pub fn notify(&mut self)
        ensures
            final(self).stale,
    {
        self.stale = true;
    }

    /// Whether a re-render was requested since the last call; clears the
    /// request.
    pub fn take_render_request(&mut self) -> (r: bool)
        ensures
            r == old(self).stale,
            !final(self).stale,
    {
        let r = self.stale;
        self.stale = false;
        r
    }
}

} // verus!
