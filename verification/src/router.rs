//! The notification router: pure classification of incoming asynchronous
//! notifications into typed domain events.
//!
//! A notification arrives as a name and a list of (here unparsed) argument
//! payloads. Exactly one name, the buffer-detach notification, yields an
//! event; the buffer-changedtick notification is recognized and deliberately
//! dropped; every other name is ignored. Classification is total: no
//! notification, however malformed, can fail it, so the dispatch loop that
//! feeds it can never be stopped by an unexpected message.

use vstd::prelude::*;

use crate::bridge::EventBridge;

verus! {

/// A domain event the client cares about. `Delete` means the subscribed
/// buffer was detached or removed on the editor side.
#[derive(Clone, Copy, Debug, PartialEq, Eq, Structural)]
pub enum BufferEvent {
    Delete,
}

/// The wire name of the notification announcing that a buffer was detached.
pub open spec fn detach_event_name() -> Seq<char> {
    "nvim_buf_detach_event"@
}

/// The wire name of the notification announcing a buffer content change;
/// recognized and deliberately dropped.
pub open spec fn changedtick_event_name() -> Seq<char> {
    "nvim_buf_changedtick_event"@
}

/// What the router yields for a notification name. The arguments play no
/// part: the detach event needs no payload to be acted on.
pub open spec fn routed_event(name: Seq<char>) -> Option<BufferEvent> {
    if name == detach_event_name() {
        Some(BufferEvent::Delete)
    } else {
        None
    }
}

/// The events (none or one) a single notification contributes to the bridge.
pub open spec fn routed_as_seq(name: Seq<char>) -> Seq<BufferEvent> {
    match routed_event(name) {
        Some(event) => seq![event],
        None => Seq::empty(),
    }
}

/// Classify one notification. Never fails, whatever the name or arguments.
pub fn route_notification(name: &str, _args: &Vec<String>) -> (event: Option<BufferEvent>)
    ensures
        event == routed_event(name@),
{
    let name_owned = String::from_str(name);
    let detach = String::from_str("nvim_buf_detach_event");
    if name_owned == detach {
        Some(BufferEvent::Delete)
    } else {
        None
    }
}

/// Handles the asynchronous notifications delivered by the dispatch loop,
/// forwarding the routed events into the bridge it owns the write end of.
pub struct BufferEventHandler(pub EventBridge<BufferEvent>);

/// One wire notification: a name and its (unparsed) argument payloads.
pub struct Notification {
    pub name: String,
    pub args: Vec<String>,
}

/// The names of a stream of notifications, oldest first.
pub open spec fn names_of(notes: Seq<Notification>) -> Seq<Seq<char>> {
    notes.map_values(|note: Notification| note.name@)
}

/// All events a stream of notification names contributes to the bridge,
/// in arrival order.
pub open spec fn routed_events(names: Seq<Seq<char>>) -> Seq<BufferEvent>
    decreases names.len(),
{
    if names.len() == 0 {
        Seq::empty()
    } else {
        routed_events(names.drop_last()) + routed_as_seq(names.last())
    }
}

impl BufferEventHandler {
    /// Interpret the arguments of a detach notification. No payload is
    /// needed to act on a detach, so any arguments, including none at all,
    /// parse to `Delete`; parsing cannot fail.
    pub fn parse_buf_detach_event(&mut self, _args: &Vec<String>) -> (event: Result<
        BufferEvent,
        String,
    >)
        ensures
            event == Ok::<BufferEvent, String>(BufferEvent::Delete),
            final(self).0@ == old(self).0@,
    {
        Ok(BufferEvent::Delete)
    }

    /// Handle one asynchronous notification: route it, and send the routed
    /// event (if any) into the bridge. Unrecognized or malformed
    /// notifications leave the bridge untouched and never fail, so the
    /// dispatch loop keeps running whatever arrives.
    pub fn handle_notify(&mut self, name: &str, args: &Vec<String>)
        ensures
            final(self).0@ == old(self).0@ + routed_as_seq(name@),
    {
        let name_owned = String::from_str(name);
        let detach = String::from_str("nvim_buf_detach_event");
        let changedtick = String::from_str("nvim_buf_changedtick_event");
        if name_owned == detach {
            match self.parse_buf_detach_event(args) {
                Ok(event) => {
                    self.0.send(event);
                    proof {
                        assert(self.0@ =~= old(self).0@ + routed_as_seq(name@));
                    }
                },
                Err(_) => {
                    proof {
                        assert(self.0@ =~= old(self).0@ + routed_as_seq(name@));
                    }
                },
            }
        } else if name_owned == changedtick {
            // Recognized, acknowledged, and deliberately dropped.
            proof {
                assert(self.0@ =~= old(self).0@ + routed_as_seq(name@));
            }
        } else {
            // Unrecognized: silently ignored.
            proof {
                assert(self.0@ =~= old(self).0@ + routed_as_seq(name@));
            }
        }
    }

    /// Handle a synchronous request from the editor side. The client serves
    /// none, so every request is answered with the same error.
    pub fn handle_request(&mut self, _name: &str, _args: Vec<String>) -> (response: Result<
        String,
        String,
    >)
        ensures
            response matches Err(message) && message@ == "not implemented"@,
            final(self).0@ == old(self).0@,
    {
        Err(String::from_str("not implemented"))
    }

    /// Handle a whole burst of notifications, oldest first. The bridge
    /// receives exactly the routed events of the stream, in arrival order;
    /// no notification in the stream, recognized or not, stops the
    /// processing of the ones after it.
    pub fn handle_all_notifications(&mut self, notes: &Vec<Notification>)
        ensures
            final(self).0@ == old(self).0@ + routed_events(names_of(notes@)),
    {
        proof {
            assert(self.0@ =~= old(self).0@ + routed_events(names_of(notes@.take(0))));
        }
        let mut i: usize = 0;
        while i < notes.len()
            invariant
                0 <= i <= notes.len(),
                self.0@ == old(self).0@ + routed_events(names_of(notes@.take(i as int))),
            decreases notes.len() - i,
        {
            let note = &notes[i];
            self.handle_notify(note.name.as_str(), &note.args);
            proof {
                let done = notes@.take(i as int + 1);
                assert(done.drop_last() =~= notes@.take(i as int));
                assert(names_of(done).drop_last() =~= names_of(done.drop_last()));
                assert(names_of(done).last() == notes@[i as int].name@);
                assert(self.0@ =~= old(self).0@ + routed_events(names_of(done)));
            }
            i = i + 1;
        }
        proof {
            assert(notes@.take(notes@.len() as int) =~= notes@);
        }
    }
}

/// Every notification name outside the recognized set yields no event: the
/// router is a no-op on it, and since classification is a total function,
/// the dispatch loop goes on to the next message.
pub proof fn lemma_unrecognized_yields_nothing(name: Seq<char>)
    requires
        name != detach_event_name(),
    ensures
        routed_event(name) is None,
        routed_as_seq(name) == Seq::<BufferEvent>::empty(),
{
}

/// The changedtick notification is recognized and deliberately dropped: it
/// yields no event, whatever its arguments.
pub proof fn lemma_changedtick_dropped()
    ensures
        routed_event(changedtick_event_name()) is None,
{
    reveal_strlit("nvim_buf_detach_event");
    reveal_strlit("nvim_buf_changedtick_event");
    assert(detach_event_name().len() == 21);
    assert(changedtick_event_name().len() == 26);
}

/// The detach notification always yields exactly one `Delete` event.
/// `routed_event` reads only the name, so the arguments — empty, malformed
/// or otherwise — cannot change the outcome: classification never fails.
pub proof fn lemma_detach_always_delete()
    ensures
        routed_event(detach_event_name()) == Some(BufferEvent::Delete),
        routed_as_seq(detach_event_name()) == seq![BufferEvent::Delete],
{
}

} // verus!
