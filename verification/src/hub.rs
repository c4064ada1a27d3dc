//! The broadcast hub: what happens to the registry, and what goes out to the
//! sessions, when a connection is accepted, sends a frame, or closes.
//!
//! A session is `Connected` once accepted, `Registered` once it holds a name,
//! and `Closed` when it is gone. A session need not register before it chats:
//! its lines then go out under the name `Anonymous`.

use crate::channel::Channel;
use crate::envelope::{ChatRecord, ChatRecordView, Envelope, EnvelopeView, MsgTypes};
use crate::model::RegistryView;
use crate::registry::{BroadcastReport, Registry};
use vstd::prelude::*;

verus! {

/// Where a session stands in its life.
#[derive(Clone, Copy, Debug, PartialEq, Eq, Structural)]
pub enum SessionState {
    /// Accepted, with a channel, without a name.
    Connected,
    /// Accepted, and holding a name.
    Registered,
    /// Not, or no longer, known to the hub.
    Closed,
}

/// The state of `id` in a registry.
pub open spec fn session_state(view: RegistryView, id: u64) -> SessionState {
    if !view.is_live(id) {
        SessionState::Closed
    } else if view.is_bound(id) {
        SessionState::Registered
    } else {
        SessionState::Connected
    }
}

/// The name under which the lines of `id` go out.
pub open spec fn sender_name(view: RegistryView, id: u64) -> Seq<char> {
    match view.name_of(id) {
        Some(name) => name,
        None => "Anonymous"@,
    }
}

/// The roster of a registry, as an envelope.
pub open spec fn roster_envelope(view: RegistryView) -> EnvelopeView {
    EnvelopeView::users(view.roster())
}

/// The envelope that relays the line `text` under the name `from`.
pub open spec fn chat_envelope(from: Seq<char>, text: Seq<char>) -> EnvelopeView {
    EnvelopeView::message(ChatRecordView { from, message: text }.wire_text())
}

/// The registry after the hub has handled `envelope` from `id`: only a
/// `register` envelope that carries a name changes it.
pub open spec fn after_dispatch(
    view: RegistryView,
    id: u64,
    envelope: EnvelopeView,
) -> RegistryView {
    match (envelope.message_type, envelope.data) {
        (MsgTypes::Register, Some(name)) => view.register(id, name),
        _ => view,
    }
}

/// What the hub broadcasts when it handles `envelope` from `id`: the fresh
/// roster after a registration and on a roster request, the attributed line
/// for a chat message, nothing for a `register` or `message` without data.
pub open spec fn answer(
    view: RegistryView,
    id: u64,
    envelope: EnvelopeView,
) -> Option<EnvelopeView> {
    match envelope.message_type {
        MsgTypes::Users => Some(roster_envelope(view)),
        MsgTypes::Register => match envelope.data {
            Some(name) => Some(roster_envelope(view.register(id, name))),
            None => None,
        },
        MsgTypes::Message => match envelope.data {
            Some(text) => Some(chat_envelope(sender_name(view, id), text)),
            None => None,
        },
    }
}

/// A frame as the hub sees it: the envelope that it decodes to, if it does.
pub open spec fn decoded(frame: Option<Envelope>) -> Option<EnvelopeView> {
    match frame {
        Some(envelope) => Some(envelope@),
        None => None,
    }
}

/// The registry after the hub has handled a frame from `id`: a frame that does
/// not decode changes nothing.
pub open spec fn after_frame(
    view: RegistryView,
    id: u64,
    frame: Option<EnvelopeView>,
) -> RegistryView {
    match frame {
        Some(envelope) => after_dispatch(view, id, envelope),
        None => view,
    }
}

/// What the hub broadcasts when it handles a frame from `id`: nothing for a
/// frame that does not decode.
pub open spec fn frame_answer(
    view: RegistryView,
    id: u64,
    frame: Option<EnvelopeView>,
) -> Option<EnvelopeView> {
    match frame {
        Some(envelope) => answer(view, id, envelope),
        None => None,
    }
}

/// `report` is the broadcast of `envelope` to every session of `view`.
pub open spec fn carries(
    report: BroadcastReport,
    envelope: EnvelopeView,
    view: RegistryView,
) -> bool {
    &&& report.payload@ == envelope.wire_text()
    &&& report.targets() == view.live_ids()
}

/// `sent` is what comes back from a step that was to broadcast `out` to every
/// session of `view`: the report of that broadcast, or nothing where nothing
/// was to go out.
pub open spec fn reports(
    sent: Option<BroadcastReport>,
    out: Option<EnvelopeView>,
    view: RegistryView,
) -> bool {
    match out {
        Some(envelope) => sent matches Some(report) && carries(report, envelope, view),
        None => sent is None,
    }
}

/// The hub: the registry, and the protocol on top of it.
pub struct Hub {
    registry: Registry,
}

impl View for Hub {
    type V = RegistryView;

    closed spec fn view(&self) -> RegistryView {
        self.registry@
    }
}

impl Hub {
    /// A hub without sessions.
    pub fn new() -> (hub: Hub)
        ensures
            hub@ == RegistryView::empty(),
            hub@.wf(),
    {
        Hub { registry: Registry::new() }
    }

    /// The registry that the hub keeps.
    pub fn registry(&self) -> (registry: &Registry)
        ensures
            registry@ == self@,
    {
        &self.registry
    }

    /// Where `id` stands in its life.
    pub fn state_of(&self, id: u64) -> (state: SessionState)
        ensures
            state == session_state(self@, id),
    {
        if !self.registry.is_live(id) {
            SessionState::Closed
        } else {
            match self.registry.name_of(id) {
                Some(_) => SessionState::Registered,
                None => SessionState::Connected,
            }
        }
    }

    /// The current roster, as an envelope.
    pub fn roster(&self) -> (envelope: Envelope)
        ensures
            envelope@ == roster_envelope(self@),
    {
        Envelope::users(self.registry.names())
    }

    /// Broadcasts the current roster to every session.
    pub fn announce(&self) -> (report: BroadcastReport)
        ensures
            carries(report, roster_envelope(self@), self@),
    {
        let envelope = self.roster();
        self.registry.broadcast(&envelope)
    }

    /// Takes in an accepted connection: `id` becomes a live session that
    /// receives every later broadcast through `channel`.
    pub fn accept(&mut self, id: u64, channel: Channel)
        ensures
            final(self)@ == old(self)@.add(id, channel),
            final(self)@.wf(),
            session_state(final(self)@, id) != SessionState::Closed,
    {
        self.registry.add(id, channel);
    }

    /// Handles one decoded envelope from `id` and gives the report of what was
    /// broadcast, if anything was.
    ///
    /// `register` with a name binds it and broadcasts the fresh roster; `users`
    /// broadcasts the roster; `message` with a text broadcasts the line under
    /// the sender's name, or under `Anonymous` if it has none.
    pub fn dispatch(&mut self, id: u64, envelope: Envelope) -> (sent: Option<BroadcastReport>)
        ensures
            final(self)@ == after_dispatch(old(self)@, id, envelope@),
            final(self)@.wf(),
            reports(sent, answer(old(self)@, id, envelope@), final(self)@),
    {
        proof {
            use_type_invariant(&self.registry);
        }
        match envelope.message_type {
            MsgTypes::Users => Some(self.announce()),
            MsgTypes::Register => match envelope.data {
                Some(name) => {
                    self.registry.register(id, name);
                    Some(self.announce())
                },
                None => None,
            },
            MsgTypes::Message => match envelope.data {
                Some(text) => {
                    let from = match self.registry.name_of(id) {
                        Some(name) => name,
                        None => "Anonymous".to_owned(),
                    };
                    let record = ChatRecord { from, message: text };
                    let relayed = Envelope::message(record.encode());
                    Some(self.registry.broadcast(&relayed))
                },
                None => None,
            },
        }
    }

    /// Handles one inbound frame from `id`: `None` stands for a frame that
    /// could not be decoded as an envelope. Such a frame is dropped: nothing is
    /// broadcast and the registry stays as it is.
    pub fn on_frame(&mut self, id: u64, frame: Option<Envelope>) -> (sent: Option<BroadcastReport>)
        ensures
            final(self)@ == after_frame(old(self)@, id, decoded(frame)),
            final(self)@.wf(),
            reports(sent, frame_answer(old(self)@, id, decoded(frame)), final(self)@),
            frame is None ==> final(self)@ == old(self)@ && sent is None,
    {
        proof {
            use_type_invariant(&self.registry);
        }
        match frame {
            Some(envelope) => self.dispatch(id, envelope),
            None => None,
        }
    }

    /// Ends the session of `id`: forgets it, then broadcasts the roster to the
    /// sessions that remain.
    pub fn close(&mut self, id: u64) -> (report: BroadcastReport)
        ensures
            final(self)@ == old(self)@.remove(id),
            final(self)@.wf(),
            session_state(final(self)@, id) == SessionState::Closed,
            carries(report, roster_envelope(final(self)@), final(self)@),
    {
        self.registry.remove(id);
        self.announce()
    }
}

} // verus!
