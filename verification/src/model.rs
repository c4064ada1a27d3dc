//! The registry as plain values: two ordered maps under one key, the session's
//! identifier, and what each operation of the registry does to them.
//!
//! An ordered map is a sequence of entries, each an identifier and what it is
//! mapped to, oldest entry first, in which no identifier stands twice.

use crate::channel::Channel;
use vstd::prelude::*;

verus! {

/// Whether `id` has an entry.
pub open spec fn has_entry<T>(entries: Seq<(u64, T)>, id: u64) -> bool {
    exists|i: int| 0 <= i < entries.len() && (#[trigger] entries[i]).0 == id
}

/// Where the entry of `id` stands, if it has one.
pub open spec fn slot_of<T>(entries: Seq<(u64, T)>, id: u64) -> int {
    choose|i: int| 0 <= i < entries.len() && (#[trigger] entries[i]).0 == id
}

/// What `id` is mapped to.
pub open spec fn value_of<T>(entries: Seq<(u64, T)>, id: u64) -> Option<T> {
    if has_entry(entries, id) {
        Some(entries[slot_of(entries, id)].1)
    } else {
        None
    }
}

/// No identifier stands twice.
pub open spec fn distinct<T>(entries: Seq<(u64, T)>) -> bool {
    forall|i: int, j: int|
        0 <= i < j < entries.len() ==> (#[trigger] entries[i]).0 != (#[trigger] entries[j]).0
}

/// The identifiers, oldest entry first.
pub open spec fn owners<T>(entries: Seq<(u64, T)>) -> Seq<u64> {
    Seq::new(entries.len(), |i: int| entries[i].0)
}

/// The values, oldest entry first.
pub open spec fn values<T>(entries: Seq<(u64, T)>) -> Seq<T> {
    Seq::new(entries.len(), |i: int| entries[i].1)
}

/// The map with `id` mapped to `value`: an entry that is there keeps its
/// place, a new one goes to the end.
pub open spec fn put<T>(entries: Seq<(u64, T)>, id: u64, value: T) -> Seq<(u64, T)> {
    if has_entry(entries, id) {
        entries.update(slot_of(entries, id), (id, value))
    } else {
        entries.push((id, value))
    }
}

/// The map without the entry of `id`; the others keep their order.
pub open spec fn without<T>(entries: Seq<(u64, T)>, id: u64) -> Seq<(u64, T)> {
    if has_entry(entries, id) {
        entries.remove(slot_of(entries, id))
    } else {
        entries
    }
}

/// In a map an entry stands where it is found.
pub proof fn lemma_slot<T>(entries: Seq<(u64, T)>, id: u64, i: int)
    requires
        distinct(entries),
        0 <= i < entries.len(),
        entries[i].0 == id,
    ensures
        has_entry(entries, id),
        slot_of(entries, id) == i,
        value_of(entries, id) == Some(entries[i].1),
{
    // Two entries of `id` could not both be the one that is found.
    let j = slot_of(entries, id);
    assert(entries[j].0 == id);
}

/// The identifiers of a map are those that have an entry, each once.
pub proof fn lemma_owners<T>(entries: Seq<(u64, T)>)
    requires
        distinct(entries),
    ensures
        owners(entries).no_duplicates(),
        forall|id: u64| #[trigger] owners(entries).contains(id) == has_entry(entries, id),
{
    assert forall|id: u64| #[trigger] owners(entries).contains(id) == has_entry(entries, id) by {
        if has_entry(entries, id) {
            assert(owners(entries)[slot_of(entries, id)] == id);
        }
    }
}

/// Putting an entry maps `id` to `value` and leaves every other entry, and the
/// order of those that were there, as it was.
pub proof fn lemma_put<T>(entries: Seq<(u64, T)>, id: u64, value: T)
    requires
        distinct(entries),
    ensures
        distinct(put(entries, id, value)),
        value_of(put(entries, id, value), id) == Some(value),
        forall|other: u64|
            other != id ==> #[trigger] value_of(put(entries, id, value), other) == value_of(
                entries,
                other,
            ),
        forall|other: u64|
            #[trigger] has_entry(put(entries, id, value), other) == (other == id || has_entry(
                entries,
                other,
            )),
        owners(put(entries, id, value)) == if has_entry(entries, id) {
            owners(entries)
        } else {
            owners(entries).push(id)
        },
{
    let after = put(entries, id, value);
    let at = if has_entry(entries, id) {
        slot_of(entries, id)
    } else {
        entries.len() as int
    };
    // Only the entry at `at` differs from what was there.
    assert forall|k: int| 0 <= k < entries.len() && k != at implies #[trigger] after[k]
        == entries[k] by {}
    assert(distinct(after));
    lemma_slot(after, id, at);
    assert forall|other: u64| other != id && has_entry(entries, other) implies #[trigger] has_entry(
        after,
        other,
    ) && value_of(after, other) == value_of(entries, other) by {
        let s = slot_of(entries, other);
        assert(after[s] == entries[s]);
        lemma_slot(entries, other, s);
        lemma_slot(after, other, s);
    }
    assert(owners(after) =~= if has_entry(entries, id) {
        owners(entries)
    } else {
        owners(entries).push(id)
    });
}

/// Taking an entry out leaves `id` without one, and every other entry, and
/// their order, as it was.
pub proof fn lemma_without<T>(entries: Seq<(u64, T)>, id: u64)
    requires
        distinct(entries),
    ensures
        distinct(without(entries, id)),
        !has_entry(without(entries, id), id),
        value_of(without(entries, id), id) is None,
        forall|other: u64|
            other != id ==> #[trigger] value_of(without(entries, id), other) == value_of(
                entries,
                other,
            ),
        forall|other: u64|
            #[trigger] has_entry(without(entries, id), other) == (other != id && has_entry(
                entries,
                other,
            )),
        owners(without(entries, id)) == if has_entry(entries, id) {
            owners(entries).remove(slot_of(entries, id))
        } else {
            owners(entries)
        },
        values(without(entries, id)) == if has_entry(entries, id) {
            values(entries).remove(slot_of(entries, id))
        } else {
            values(entries)
        },
{
    let after = without(entries, id);
    // Where an entry that stays stood before, and where one that stood stands.
    let from = |k: int|
        if has_entry(entries, id) && k >= slot_of(entries, id) {
            k + 1
        } else {
            k
        };
    let to = |s: int|
        if has_entry(entries, id) && s > slot_of(entries, id) {
            s - 1
        } else {
            s
        };
    assert forall|k: int| 0 <= k < after.len() implies #[trigger] after[k] == entries[from(k)]
        && after[k].0 != id by {}
    assert(distinct(after));
    assert forall|other: u64| other != id && has_entry(entries, other) implies #[trigger] has_entry(
        after,
        other,
    ) && value_of(after, other) == value_of(entries, other) by {
        let s = slot_of(entries, other);
        assert(after[to(s)] == entries[s]);
        lemma_slot(entries, other, s);
        lemma_slot(after, other, to(s));
    }
    assert(owners(after) =~= if has_entry(entries, id) {
        owners(entries).remove(slot_of(entries, id))
    } else {
        owners(entries)
    });
    assert(values(after) =~= if has_entry(entries, id) {
        values(entries).remove(slot_of(entries, id))
    } else {
        values(entries)
    });
}

/// What a registry holds, as plain values.
pub struct RegistryView {
    /// The bound names, each with the session that holds it, oldest binding first.
    pub names: Seq<(u64, Seq<char>)>,
    /// The live sessions, each with its channel, oldest session first.
    pub channels: Seq<(u64, Channel)>,
}

impl RegistryView {
    /// A registry without sessions.
    pub open spec fn empty() -> RegistryView {
        RegistryView { names: Seq::empty(), channels: Seq::empty() }
    }

    /// Whether `id` has a channel.
    pub open spec fn is_live(self, id: u64) -> bool {
        has_entry(self.channels, id)
    }

    /// Whether `id` holds a name.
    pub open spec fn is_bound(self, id: u64) -> bool {
        has_entry(self.names, id)
    }

    /// The name that `id` holds.
    pub open spec fn name_of(self, id: u64) -> Option<Seq<char>> {
        value_of(self.names, id)
    }

    /// The channel of `id`.
    pub open spec fn channel_of(self, id: u64) -> Option<Channel> {
        value_of(self.channels, id)
    }

    /// The live sessions, oldest first.
    pub open spec fn live_ids(self) -> Seq<u64> {
        owners(self.channels)
    }

    /// The bound names, oldest binding first.
    pub open spec fn roster(self) -> Seq<Seq<char>> {
        values(self.names)
    }

    /// Both maps are maps, and every name belongs to a live session.
    pub open spec fn wf(self) -> bool {
        &&& distinct(self.names)
        &&& distinct(self.channels)
        &&& forall|i: int| 0 <= i < self.names.len() ==> self.is_live((#[trigger] self.names[i]).0)
    }

    /// The registry after `id` came with `channel`: a new session goes to the
    /// end; a live one keeps its place and its name, and gets the new channel.
    pub open spec fn add(self, id: u64, channel: Channel) -> RegistryView {
        RegistryView { channels: put(self.channels, id, channel), ..self }
    }

    /// The registry after `id` asked for `name`: nothing changes for a session
    /// that is not live; a first name goes to the end; a later one takes the
    /// place of the earlier.
    pub open spec fn register(self, id: u64, name: Seq<char>) -> RegistryView {
        if self.is_live(id) {
            RegistryView { names: put(self.names, id, name), ..self }
        } else {
            self
        }
    }

    /// The registry after `id` left: its name and its channel are gone, the
    /// others keep their order.
    pub open spec fn remove(self, id: u64) -> RegistryView {
        RegistryView { names: without(self.names, id), channels: without(self.channels, id) }
    }
}

/// A session that is not live holds no name.
pub proof fn lemma_unbound_unless_live(view: RegistryView, id: u64)
    requires
        view.wf(),
    ensures
        view.is_bound(id) ==> view.is_live(id),
        !view.is_live(id) ==> view.name_of(id) is None,
{
    if view.is_bound(id) {
        assert(view.is_live(view.names[slot_of(view.names, id)].0));
    }
}

/// Accepting a session makes it live with the channel it came with, and
/// leaves every name and every other session as it was.
pub proof fn lemma_add_step(view: RegistryView, id: u64, channel: Channel)
    requires
        view.wf(),
    ensures
        view.add(id, channel).wf(),
        view.add(id, channel).names == view.names,
        view.add(id, channel).is_live(id),
        view.add(id, channel).channel_of(id) == Some(channel),
        forall|other: u64|
            other != id ==> #[trigger] view.add(id, channel).is_live(other) == view.is_live(other),
        forall|other: u64|
            other != id ==> #[trigger] view.add(id, channel).channel_of(other) == view.channel_of(
                other,
            ),
        view.add(id, channel).live_ids() == if view.is_live(id) {
            view.live_ids()
        } else {
            view.live_ids().push(id)
        },
{
    lemma_put(view.channels, id, channel);
    assert forall|i: int| 0 <= i < view.names.len() implies view.add(id, channel).is_live(
        (#[trigger] view.names[i]).0,
    ) by {
        assert(view.is_live(view.names[i].0));
    }
}

/// One registration binds the name to the session if it is live, and leaves
/// every other name, and the order of the roster, as it was.
pub proof fn lemma_register_step(view: RegistryView, id: u64, name: Seq<char>)
    requires
        view.wf(),
    ensures
        view.register(id, name).wf(),
        view.register(id, name).channels == view.channels,
        view.register(id, name).name_of(id) == if view.is_live(id) {
            Some(name)
        } else {
            None
        },
        forall|other: u64|
            other != id ==> #[trigger] view.register(id, name).name_of(other) == view.name_of(
                other,
            ),
        owners(view.register(id, name).names) == if view.is_live(id) && !view.is_bound(id) {
            owners(view.names).push(id)
        } else {
            owners(view.names)
        },
{
    lemma_unbound_unless_live(view, id);
    if view.is_live(id) {
        lemma_put(view.names, id, name);
        // Whoever holds a name now held one before, or is `id`.
        assert forall|i: int| 0 <= i < view.register(id, name).names.len() implies view.is_live(
            (#[trigger] view.register(id, name).names[i]).0,
        ) by {
            let owner = view.register(id, name).names[i].0;
            if owner != id {
                assert(has_entry(view.names, owner));
                assert(view.is_live(view.names[slot_of(view.names, owner)].0));
            }
        }
    }
}

/// One removal leaves the session neither live nor bound, and every other
/// session as it was.
pub proof fn lemma_remove_step(view: RegistryView, id: u64)
    requires
        view.wf(),
    ensures
        view.remove(id).wf(),
        !view.remove(id).is_live(id),
        !view.remove(id).is_bound(id),
        view.remove(id).name_of(id) is None,
        forall|other: u64|
            other != id ==> #[trigger] view.remove(id).is_live(other) == view.is_live(other),
        forall|other: u64|
            other != id ==> #[trigger] view.remove(id).name_of(other) == view.name_of(other),
{
    let after = view.remove(id);
    lemma_without(view.names, id);
    lemma_without(view.channels, id);
    // Whoever holds a name now held it before, is not `id`, and so is still live.
    assert forall|i: int| 0 <= i < after.names.len() implies after.is_live(
        (#[trigger] after.names[i]).0,
    ) by {
        let owner = after.names[i].0;
        assert(has_entry(after.names, owner));
        assert(view.is_live(view.names[slot_of(view.names, owner)].0));
    }
}

} // verus!
