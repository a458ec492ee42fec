use vstd::prelude::*;

verus! {

/// The shared container for the server that is currently running, if any.
///
/// It holds at most one handle. Callers share it between threads behind a
/// lock and hold that lock only for one of these calls at a time, never
/// across a shutdown.
pub struct ServerSlot<H> {
    handle: Option<H>,
}

/// Publishing `handle` into a slot holding `slot`: what is handed back, and
/// what the slot holds afterwards.
pub open spec fn publish_step<H>(slot: Option<H>, handle: H) -> (Option<H>, Option<H>) {
    (slot, Some(handle))
}

impl<H> View for ServerSlot<H> {
    type V = Option<H>;

    closed spec fn view(&self) -> Option<H> {
        self.handle
    }
}

impl<H> ServerSlot<H> {
    /// An empty slot: no server has been published.
    pub fn new() -> (r: Self)
        ensures
            r@ is None,
    {
        ServerSlot { handle: None }
    }

    /// Whether a server is published.
    pub fn is_running(&self) -> (r: bool)
        ensures
            r == self@ is Some,
    {
        self.handle.is_some()
    }

    /// Publishes `handle` as the running server, replacing any previous one,
    /// which is handed back.
    pub fn set(&mut self, handle: H) -> (prev: Option<H>)
        ensures
            (prev, final(self)@) == publish_step(old(self)@, handle),
    {
        let prev = self.handle.take();
        self.handle = Some(handle);
        prev
    }

    /// Takes the published server out, leaving the slot empty.
    pub fn take(&mut self) -> (r: Option<H>)
        ensures
            final(self)@ is None,
            r == old(self)@,
    {
        self.handle.take()
    }
}

impl<H: Clone> ServerSlot<H> {
    /// A shared reference to the published server, if any; the slot keeps it.
    pub fn get(&self) -> (r: Option<H>)
        ensures
            r is Some <==> self@ is Some,
    {
        match &self.handle {
            Some(h) => Some(h.clone()),
            None => None,
        }
    }
}

} // verus!
