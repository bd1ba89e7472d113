//! Events for the host program, each one a JSON text.
use vstd::prelude::*;
use vstd::string::*;

use crate::text::to_chars;

verus! {

/// What the host is told of an event: `{"event":"<name>","payload":<json>}`.
pub open spec fn message_of(event: Seq<char>, payload: Seq<char>) -> Seq<char> {
    "{\"event\":\""@ + event + "\",\"payload\":"@ + payload + "}"@
}

/// The message, where it can be handed over: it ends at a NUL, so it must hold none.
pub open spec fn deliverable(event: Seq<char>, payload: Seq<char>) -> Option<Seq<char>> {
    if message_of(event, payload).contains('\0') {
        None
    } else {
        Some(message_of(event, payload))
    }
}

/// The contents of an optional message.
pub open spec fn opt_message(m: Option<String>) -> Option<Seq<char>> {
    match m {
        Some(s) => Some(s@),
        None => None,
    }
}

/// Whether a text holds a NUL.
fn has_nul(s: &str) -> (r: bool)
    ensures
        r == s@.contains('\0'),
{
    let v = to_chars(s);
    let n: usize = v.len();
    let mut i: usize = 0;
    while i < n
        invariant
            i <= n == v@.len(),
            v@ == s@,
            forall|k: int| 0 <= k < i ==> #[trigger] s@[k] != '\0',
        decreases n - i,
    {
        if v[i] == '\0' {
            assert(s@[i as int] == '\0');
            return true;
        }
        i += 1;
    }
    false
}

/// The message of an event, where it can be handed over.
pub fn event_message(event: &str, payload_json: &str) -> (r: Option<String>)
    ensures
        opt_message(r) == deliverable(event@, payload_json@),
{
    let mut m = String::from_str("{\"event\":\"");
    m.append(event);
    m.append("\",\"payload\":");
    m.append(payload_json);
    m.append("}");
    if has_nul(m.as_str()) {
        None
    } else {
        Some(m)
    }
}

/// The way to the host: what it has registered to be called with events.
#[derive(Debug)]
pub struct EventBus<C> {
    callback: Option<C>,
}

impl<C> EventBus<C> {
    /// What the host has registered.
    pub closed spec fn registered(self) -> Option<C> {
        self.callback
    }

    /// What is sent of an event: nothing before the host has registered.
    pub open spec fn sent(self, event: Seq<char>, payload: Seq<char>) -> Option<Seq<char>> {
        if self.registered() is Some {
            deliverable(event, payload)
        } else {
            None
        }
    }

    /// A bus without a host.
    pub fn new() -> (r: EventBus<C>)
        ensures
            r.registered() is None,
    {
        EventBus { callback: None }
    }

    /// Registers the host. The first one stays; the result tells whether this one is it.
    pub fn set_callback(&mut self, callback: C) -> (r: bool)
        ensures
            r == (old(self).registered() is None),
            final(self).registered() == if r {
                Some(callback)
            } else {
                old(self).registered()
            },
    {
        if self.callback.is_some() {
            return false;
        }
        self.callback = Some(callback);
        true
    }

    /// Whether the host has registered.
    pub fn callback_registered(&self) -> (r: bool)
        ensures
            r == (self.registered() is Some),
    {
        self.callback.is_some()
    }

    /// What the host has registered.
    pub fn callback(&self) -> (r: Option<&C>)
        ensures
            match r {
                Some(c) => self.registered() == Some(*c),
                None => self.registered() is None,
            },
    {
        self.callback.as_ref()
    }

    /// An event with a payload that is JSON already.
    pub fn emit_raw(&self, event: &str, payload_json: &str) -> (r: Option<String>)
        ensures
            opt_message(r) == self.sent(event@, payload_json@),
    {
        if self.callback.is_none() {
            return None;
        }
        event_message(event, payload_json)
    }

    /// An event with a payload that was made into JSON, or `null` where that failed.
    pub fn emit(&self, event: &str, payload_json: Option<&str>) -> (r: Option<String>)
        ensures
            opt_message(r) == self.sent(
                event@,
                match payload_json {
                    Some(p) => p@,
                    None => "null"@,
                },
            ),
    {
        match payload_json {
            Some(p) => self.emit_raw(event, p),
            None => self.emit_raw(event, "null"),
        }
    }

    /// An event without a payload.
    pub fn emit_unit(&self, event: &str) -> (r: Option<String>)
        ensures
            opt_message(r) == self.sent(event@, "null"@),
    {
        self.emit_raw(event, "null")
    }
}

/// The host is told an event whole or not at all: the name and the payload as they are, in an
/// object, and only where it has registered and neither holds a NUL.
pub proof fn law_event_is_told_whole<C>(bus: EventBus<C>, event: Seq<char>, payload: Seq<char>)
    ensures
        bus.registered() is None ==> bus.sent(event, payload) is None,
        event.contains('\0') || payload.contains('\0') ==> bus.sent(event, payload) is None,
        bus.registered() is Some && !event.contains('\0') && !payload.contains('\0') ==> bus.sent(
            event,
            payload,
        ) == Some("{\"event\":\""@ + event + "\",\"payload\":"@ + payload + "}"@),
{
    broadcast use vstd::seq_lib::group_seq_properties;

    reveal_strlit("{\"event\":\"");
    reveal_strlit("\",\"payload\":");
    reveal_strlit("}");
    let a = "{\"event\":\""@;
    let b = "\",\"payload\":"@;
    let c = "}"@;
    assert(!a.contains('\0'));
    assert(!b.contains('\0'));
    assert(!c.contains('\0'));
    assert((a + event).contains('\0') <==> event.contains('\0'));
    assert((a + event + b).contains('\0') <==> event.contains('\0'));
    assert((a + event + b + payload).contains('\0') <==> event.contains('\0') || payload.contains(
        '\0',
    ));
    assert(message_of(event, payload).contains('\0') <==> event.contains('\0') || payload.contains(
        '\0',
    ));
}

} // verus!
