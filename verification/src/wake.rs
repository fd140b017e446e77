//! A single-slot wake handle: the message-passing point between an
//! interrupt handler and a suspended task.
//!
//! A suspended caller registers its handle before yielding; the interrupt
//! handler is the sole source of wake-ups. Waking consumes the
//! registration and records which handle must be woken; the executor
//! collects it with [`WakerSlot::take_woken`].

use vstd::prelude::*;

verus! {

/// `post` is `pre` after waking: the registration was consumed and, if a
/// waiter was registered, its handle is now the pending wake-up.
pub open spec fn woke(pre: WakerSlot, post: WakerSlot) -> bool {
    &&& post.registered_spec() is None
    &&& post.woken_spec() == if pre.registered_spec() is Some {
        pre.registered_spec()
    } else {
        pre.woken_spec()
    }
}

/// One registration slot and one pending wake-up.
#[derive(Debug, PartialEq, Eq, Structural)]
pub struct WakerSlot {
    registered: Option<u32>,
    woken: Option<u32>,
}

impl WakerSlot {
    /// Whose handle is registered, if any.
    pub closed spec fn registered_spec(&self) -> Option<u32> {
        self.registered
    }

    /// Whose wake-up is pending, if any.
    pub closed spec fn woken_spec(&self) -> Option<u32> {
        self.woken
    }

    /// An empty slot: nobody registered, no wake-up pending.
    pub fn new() -> (s: Self)
        ensures
            s.registered_spec() is None,
            s.woken_spec() is None,
    {
        WakerSlot { registered: None, woken: None }
    }

    /// Registers a waiter's handle, replacing any earlier registration.
    pub fn register(&mut self, handle: u32)
        ensures
            final(self).registered_spec() == Some(handle),
            final(self).woken_spec() == old(self).woken_spec(),
    {
        self.registered = Some(handle);
    }

    /// Wakes the registered waiter, if any: the registration is consumed
    /// and the handle becomes the pending wake-up.
    pub fn wake(&mut self)
        ensures
            final(self).registered_spec() is None,
            final(self).woken_spec() == if old(self).registered_spec() is Some {
                old(self).registered_spec()
            } else {
                old(self).woken_spec()
            },
    {
        if self.registered.is_some() {
            self.woken = self.registered;
            self.registered = None;
        }
    }

    /// Collects the pending wake-up, clearing it.
    pub fn take_woken(&mut self) -> (r: Option<u32>)
        ensures
            r == old(self).woken_spec(),
            final(self).woken_spec() is None,
            final(self).registered_spec() == old(self).registered_spec(),
    {
        let w = self.woken;
        self.woken = None;
        w
    }
}

} // verus!
