//! Which listener each global hotkey goes to.
use std::collections::HashMap;
use vstd::prelude::*;

verus! {

/// The listeners of the hotkeys that are registered, each under the number of its hotkey.
#[derive(Debug)]
pub struct HotkeyRoutes<S> {
    routes: HashMap<u32, S>,
    shutdown: bool,
}

/// The listeners once the system was asked for a hotkey.
pub open spec fn routed<S>(
    listeners: Map<u32, S>,
    id: u32,
    listener: S,
    registered: bool,
) -> Map<u32, S> {
    if registered {
        listeners.insert(id, listener)
    } else {
        listeners
    }
}

/// Where an event of a hotkey goes.
pub open spec fn route<S>(listeners: Map<u32, S>, id: u32) -> Option<S> {
    if listeners.contains_key(id) {
        Some(listeners[id])
    } else {
        None
    }
}

impl<S> HotkeyRoutes<S> {
    /// The listeners by the numbers of their hotkeys.
    pub closed spec fn listeners(self) -> Map<u32, S> {
        self.routes@
    }

    /// Whether the dispatcher is to end.
    pub closed spec fn ending(self) -> bool {
        self.shutdown
    }

    /// No hotkeys yet.
    pub fn new() -> (r: HotkeyRoutes<S>)
        ensures
            r.listeners() == Map::<u32, S>::empty(),
            !r.ending(),
    {
        HotkeyRoutes { routes: HashMap::new(), shutdown: false }
    }

    /// The dispatcher is to end before it handles the next event.
    pub fn request_shutdown(&mut self)
        ensures
            final(self).ending(),
            final(self).listeners() == old(self).listeners(),
    {
        self.shutdown = true;
    }

    /// Whether the dispatcher is to end.
    pub fn shutdown_requested(&self) -> (r: bool)
        ensures
            r == self.ending(),
    {
        self.shutdown
    }

    /// A hotkey was registered with the system: its events go to this listener from now on. Where
    /// the system refused, nothing changes and its error is passed on.
    pub fn register(&mut self, id: u32, listener: S, registered: Result<(), String>) -> (r: Result<
        (),
        String,
    >)
        ensures
            r == registered,
            final(self).ending() == old(self).ending(),
            final(self).listeners() == routed(old(self).listeners(), id, listener, registered is Ok),
    {
        broadcast use vstd::std_specs::hash::group_hash_axioms;

        match registered {
            Ok(done) => {
                self.routes.insert(id, listener);
                Ok(done)
            },
            Err(e) => Err(e),
        }
    }

    /// A hotkey goes: its events go nowhere from now on.
    pub fn unregister(&mut self, id: u32)
        ensures
            final(self).ending() == old(self).ending(),
            final(self).listeners() == old(self).listeners().remove(id),
    {
        broadcast use vstd::std_specs::hash::group_hash_axioms;

        self.routes.remove(&id);
    }

    /// Where an event of a hotkey goes.
    pub fn dispatch(&self, id: u32) -> (r: Option<&S>)
        ensures
            match r {
                Some(listener) => route(self.listeners(), id) == Some(*listener),
                None => route(self.listeners(), id) is None,
            },
    {
        broadcast use vstd::std_specs::hash::group_hash_axioms;

        self.routes.get(&id)
    }
}

/// The events of a hotkey go to the listener that was registered for it last, until the hotkey
/// goes; those of every other hotkey go where they went before. A hotkey that the system refused
/// changes nothing.
pub proof fn law_events_go_to_their_listener<S>(
    listeners: Map<u32, S>,
    id: u32,
    listener: S,
    other: u32,
)
    ensures
        route(routed(listeners, id, listener, true), id) == Some(listener),
        routed(listeners, id, listener, false) == listeners,
        other != id ==> route(routed(listeners, id, listener, true), other) == route(
            listeners,
            other,
        ),
        route(listeners.remove(id), id) is None,
        other != id ==> route(listeners.remove(id), other) == route(listeners, other),
        route(Map::<u32, S>::empty(), id) is None,
{
}

} // verus!
