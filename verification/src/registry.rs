//! The session registry: which connections are live, and which name each holds.
//!
//! The registry keeps two ordered maps under one key, the session's identifier:
//! the channel of every live session, and the display name of every session
//! that has registered one. A name is only ever bound to a live session, and
//! no session stands twice in either map: that is the registry's invariant,
//! which holds of every registry that exists.
//!
//! A method that changes the registry has it to itself for the whole call, so
//! no reader sees the two maps half updated.

use crate::channel::{offer, Channel};
use crate::envelope::Envelope;
use crate::json::texts;
use crate::model::{
    has_entry, lemma_add_step, lemma_register_step, lemma_remove_step, lemma_slot, put, without,
    RegistryView,
};
use vstd::prelude::*;

verus! {

/// One session's part in a broadcast.
#[derive(Clone, Copy, Debug, PartialEq, Eq)]
pub struct Delivery {
    /// The session whose channel was offered the payload.
    pub id: u64,
    /// Whether the channel took it; a channel whose consumer is gone does not.
    pub accepted: bool,
}

/// What one broadcast sent, and to whom.
#[derive(Clone, Debug, PartialEq, Eq)]
pub struct BroadcastReport {
    /// The text that every channel was offered.
    pub payload: String,
    /// One entry for each session that was live, oldest session first.
    pub deliveries: Vec<Delivery>,
}

impl BroadcastReport {
    /// The sessions whose channels were offered the payload, in order.
    pub open spec fn targets(&self) -> Seq<u64> {
        Seq::new(self.deliveries@.len(), |i: int| self.deliveries@[i].id)
    }
}

/// The bound names as plain values.
spec fn name_entries(names: Seq<(u64, String)>) -> Seq<(u64, Seq<char>)> {
    Seq::new(names.len(), |i: int| (names[i].0, names[i].1@))
}

/// Where the entry of `id` stands among `entries`, if it has one.
fn position<T>(entries: &Vec<(u64, T)>, id: u64) -> (slot: Option<usize>)
    ensures
        match slot {
            Some(i) => i < entries@.len() && entries@[i as int].0 == id,
            None => !has_entry(entries@, id),
        },
{
    let mut i: usize = 0;
    while i < entries.len()
        invariant
            i <= entries.len(),
            forall|k: int| 0 <= k < i ==> (#[trigger] entries@[k]).0 != id,
        decreases entries.len() - i,
    {
        if entries[i].0 == id {
            return Some(i);
        }
        i += 1;
    }
    None
}

/// A session holds a name in the model exactly if it does in the table.
proof fn lemma_name_entries(names: Seq<(u64, String)>, id: u64)
    ensures
        has_entry(name_entries(names), id) == has_entry(names, id),
{
    if has_entry(names, id) {
        let k = choose|k: int| 0 <= k < names.len() && (#[trigger] names[k]).0 == id;
        assert(name_entries(names)[k].0 == id);
    }
}

/// The registry of live sessions.
pub struct Registry {
    names: Vec<(u64, String)>,
    channels: Vec<(u64, Channel)>,
}

impl View for Registry {
    type V = RegistryView;

    closed spec fn view(&self) -> RegistryView {
        RegistryView { names: name_entries(self.names@), channels: self.channels@ }
    }
}

impl Registry {
    /// What holds of every registry: no session stands twice in either map,
    /// and every name belongs to a live session.
    #[verifier::type_invariant]
    pub open spec fn wf(self) -> bool {
        self@.wf()
    }

    /// A registry without sessions.
    pub fn new() -> (registry: Registry)
        ensures
            registry@ == RegistryView::empty(),
            registry@.wf(),
    {
        let registry = Registry { names: Vec::new(), channels: Vec::new() };
        assert(registry@.names =~= Seq::empty());
        registry
    }

    /// Takes the two maps out and leaves an empty registry behind.
    fn take(&mut self) -> (taken: Registry)
        ensures
            taken@ == old(self)@,
            taken@.wf(),
            taken.names == old(self).names,
            taken.channels == old(self).channels,
    {
        let mut taken = Registry::new();
        std::mem::swap(self, &mut taken);
        proof {
            use_type_invariant(&taken);
        }
        taken
    }

    /// Whether `id` is a live session.
    pub fn is_live(&self, id: u64) -> (live: bool)
        ensures
            live == self@.is_live(id),
    {
        position(&self.channels, id).is_some()
    }

    /// The number of live sessions.
    pub fn session_count(&self) -> (count: usize)
        ensures
            count == self@.channels.len(),
    {
        self.channels.len()
    }

    /// The name bound to `id`, if it has one.
    pub fn name_of(&self, id: u64) -> (name: Option<String>)
        ensures
            match name {
                Some(text) => self@.name_of(id) == Some(text@),
                None => self@.name_of(id) is None,
            },
    {
        proof {
            use_type_invariant(self);
        }
        let slot = position(&self.names, id);
        proof {
            lemma_name_entries(self.names@, id);
        }
        match slot {
            Some(i) => {
                proof {
                    lemma_slot(self@.names, id, i as int);
                }
                Some(self.names[i].1.clone())
            },
            None => None,
        }
    }

    /// The bound names, oldest binding first. Sessions without a name do not
    /// appear.
    pub fn names(&self) -> (roster: Vec<String>)
        ensures
            texts(roster@) == self@.roster(),
    {
        let mut roster: Vec<String> = Vec::new();
        let mut i: usize = 0;
        while i < self.names.len()
            invariant
                i <= self.names.len(),
                roster@.len() == i,
                forall|k: int| 0 <= k < i ==> (#[trigger] roster@[k])@ == self.names@[k].1@,
            decreases self.names.len() - i,
        {
            roster.push(self.names[i].1.clone());
            i += 1;
        }
        roster
    }

    /// Takes in a session with its channel. A new session goes to the end. A
    /// session that is already live keeps its place and its name, and its
    /// channel is replaced.
    pub fn add(&mut self, id: u64, channel: Channel)
        ensures
            final(self)@ == old(self)@.add(id, channel),
            final(self)@.wf(),
            final(self)@.is_live(id),
            final(self)@.names == old(self)@.names,
    {
        let Registry { names, mut channels } = self.take();
        let ghost before = old(self)@;
        match position(&channels, id) {
            Some(i) => {
                proof {
                    lemma_slot(before.channels, id, i as int);
                }
                channels[i] = (id, channel);
            },
            None => {
                channels.push((id, channel));
            },
        }
        proof {
            lemma_add_step(before, id, channel);
        }
        *self = Registry { names, channels };
    }

    /// Binds `name` to `id` and says whether it did. A session that is not
    /// live gets no name. A name that `id` already holds is replaced where it
    /// stands; a first name goes to the end. Names need not be unique.
    pub fn register(&mut self, id: u64, name: String) -> (bound: bool)
        ensures
            final(self)@ == old(self)@.register(id, name@),
            final(self)@.wf(),
            bound == old(self)@.is_live(id),
            bound ==> final(self)@.name_of(id) == Some(name@),
            !bound ==> final(self)@ == old(self)@,
    {
        if !self.is_live(id) {
            proof {
                use_type_invariant(&*self);
            }
            return false;
        }
        let Registry { mut names, channels } = self.take();
        let ghost before = old(self)@;
        let ghost text = name@;
        let slot = position(&names, id);
        proof {
            lemma_name_entries(names@, id);
        }
        match slot {
            Some(i) => {
                proof {
                    lemma_slot(before.names, id, i as int);
                }
                names[i] = (id, name);
            },
            None => {
                names.push((id, name));
            },
        }
        proof {
            assert(name_entries(names@) =~= put(before.names, id, text));
            lemma_register_step(before, id, text);
        }
        *self = Registry { names, channels };
        true
    }

    /// Forgets `id`: its name and its channel. Says whether it was live. On a
    /// session that the registry does not know, nothing changes.
    pub fn remove(&mut self, id: u64) -> (was_live: bool)
        ensures
            final(self)@ == old(self)@.remove(id),
            final(self)@.wf(),
            was_live == old(self)@.is_live(id),
            !final(self)@.is_live(id),
            final(self)@.name_of(id) is None,
    {
        let Registry { mut names, mut channels } = self.take();
        let ghost before = old(self)@;
        let slot = position(&names, id);
        proof {
            lemma_name_entries(names@, id);
        }
        match slot {
            Some(i) => {
                proof {
                    lemma_slot(before.names, id, i as int);
                }
                names.remove(i);
            },
            None => {},
        }
        let was_live = match position(&channels, id) {
            Some(j) => {
                proof {
                    lemma_slot(before.channels, id, j as int);
                }
                channels.remove(j);
                true
            },
            None => false,
        };
        proof {
            assert(name_entries(names@) =~= without(before.names, id));
            lemma_remove_step(before, id);
        }
        *self = Registry { names, channels };
        was_live
    }

    /// The same as `remove`.
    pub fn unregister(&mut self, id: u64) -> (was_live: bool)
        ensures
            final(self)@ == old(self)@.remove(id),
            final(self)@.wf(),
            was_live == old(self)@.is_live(id),
            !final(self)@.is_live(id),
            final(self)@.name_of(id) is None,
    {
        self.remove(id)
    }

    /// Writes `envelope` as text once and offers that text to the channel of
    /// every live session, oldest first. A channel whose consumer is gone does
    /// not stop the others.
    pub fn broadcast(&self, envelope: &Envelope) -> (report: BroadcastReport)
        ensures
            report.payload@ == envelope@.wire_text(),
            report.targets() == self@.live_ids(),
    {
        let payload = envelope.encode();
        let mut deliveries: Vec<Delivery> = Vec::new();
        let mut i: usize = 0;
        while i < self.channels.len()
            invariant
                i <= self.channels.len(),
                deliveries@.len() == i,
                forall|k: int| 0 <= k < i ==> (#[trigger] deliveries@[k]).id == self.channels@[k].0,
            decreases self.channels.len() - i,
        {
            let accepted = offer(&self.channels[i].1, payload.as_str());
            deliveries.push(Delivery { id: self.channels[i].0, accepted });
            i += 1;
        }
        BroadcastReport { payload, deliveries }
    }
}

} // verus!
