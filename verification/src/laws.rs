//! What holds of the registry and the hub over whole runs, proved from the
//! models that the contracts of `registry` and `hub` speak of.

use crate::channel::Channel;
use crate::envelope::EnvelopeView;
use crate::hub::{after_dispatch, answer, chat_envelope, sender_name, session_state, SessionState};
use crate::model::{
    lemma_add_step, lemma_owners, lemma_put, lemma_register_step, lemma_remove_step, lemma_slot,
    lemma_unbound_unless_live, lemma_without, owners, slot_of, RegistryView,
};
use vstd::prelude::*;

verus! {

/// The registry after a run of registrations, each a session and the name it
/// asks for, in the order in which they are made.
pub open spec fn register_all(view: RegistryView, calls: Seq<(u64, Seq<char>)>) -> RegistryView
    decreases calls.len(),
{
    if calls.len() == 0 {
        view
    } else {
        register_all(view, calls.drop_last()).register(calls.last().0, calls.last().1)
    }
}

/// The name that the last registration of `id` in `calls` asks for.
pub open spec fn last_request(calls: Seq<(u64, Seq<char>)>, id: u64) -> Option<Seq<char>>
    decreases calls.len(),
{
    if calls.len() == 0 {
        None
    } else if calls.last().0 == id {
        Some(calls.last().1)
    } else {
        last_request(calls.drop_last(), id)
    }
}

/// The name that `id` should hold after `calls`: none if it is not live, else
/// the one it asked for last, else the one it held before.
pub open spec fn name_after(
    view: RegistryView,
    calls: Seq<(u64, Seq<char>)>,
    id: u64,
) -> Option<Seq<char>> {
    if !view.is_live(id) {
        None
    } else if last_request(calls, id) is Some {
        last_request(calls, id)
    } else {
        view.name_of(id)
    }
}

/// After any run of registrations the roster holds exactly the names that are
/// bound at that moment: a live session holds the name of its last
/// registration, or the one it had before if it made none; a session that is
/// not live holds none, whatever it asked for. Each entry of the roster is the
/// name of the session that stands there, and the sessions that held a name
/// before the run stand where they stood.
pub proof fn lemma_roster_after_registrations(view: RegistryView, calls: Seq<(u64, Seq<char>)>)
    requires
        view.wf(),
    ensures
        register_all(view, calls).wf(),
        register_all(view, calls).channels == view.channels,
        forall|id: u64| #[trigger]
            register_all(view, calls).name_of(id) == name_after(view, calls, id),
        register_all(view, calls).roster().len() == register_all(view, calls).names.len(),
        forall|k: int|
            0 <= k < register_all(view, calls).names.len() ==> register_all(view, calls).name_of(
                (#[trigger] register_all(view, calls).names[k]).0,
            ) == Some(register_all(view, calls).roster()[k]),
        owners(view.names).is_prefix_of(owners(register_all(view, calls).names)),
    decreases calls.len(),
{
    let after = register_all(view, calls);
    if calls.len() == 0 {
        assert forall|id: u64| !view.is_live(id) implies #[trigger] view.name_of(id) is None by {
            lemma_unbound_unless_live(view, id);
        }
    } else {
        let earlier = calls.drop_last();
        let mid = register_all(view, earlier);
        let id = calls.last().0;
        lemma_roster_after_registrations(view, earlier);
        lemma_register_step(mid, id, calls.last().1);
        assert forall|other: u64| #[trigger]
            after.name_of(other) == name_after(view, calls, other) by {}
    }
    assert forall|k: int| 0 <= k < after.names.len() implies after.name_of(
        (#[trigger] after.names[k]).0,
    ) == Some(after.roster()[k]) by {
        lemma_slot(after.names, after.names[k].0, k);
    }
}

/// Registrations only ever add to the end: the sessions that hold a name after
/// the first `m` registrations of a run stand, in the same order, at the front
/// of the roster after the whole run.
pub proof fn lemma_registration_order(view: RegistryView, calls: Seq<(u64, Seq<char>)>, m: int)
    requires
        view.wf(),
        0 <= m <= calls.len(),
    ensures
        owners(register_all(view, calls.take(m)).names).is_prefix_of(
            owners(register_all(view, calls).names),
        ),
    decreases calls.len(),
{
    if m == calls.len() {
        assert(calls.take(m) =~= calls);
    } else {
        let earlier = calls.drop_last();
        assert(earlier.take(m) =~= calls.take(m));
        lemma_registration_order(view, earlier, m);
        lemma_roster_after_registrations(view, earlier);
        lemma_register_step(register_all(view, earlier), calls.last().0, calls.last().1);
    }
}

/// After a session is removed it is not live, so no broadcast reaches its
/// channel, and it holds no name; the roster is the old one without its entry.
/// Every other session stays as it was.
pub proof fn lemma_removed_session_is_gone(view: RegistryView, id: u64)
    requires
        view.wf(),
    ensures
        view.remove(id).wf(),
        !view.remove(id).is_live(id),
        !view.remove(id).live_ids().contains(id),
        !view.remove(id).is_bound(id),
        view.remove(id).name_of(id) is None,
        view.remove(id).roster() == if view.is_bound(id) {
            view.roster().remove(slot_of(view.names, id))
        } else {
            view.roster()
        },
        forall|other: u64|
            other != id ==> #[trigger] view.remove(id).is_live(other) == view.is_live(other),
        forall|other: u64|
            other != id ==> #[trigger] view.remove(id).name_of(other) == view.name_of(other),
{
    lemma_remove_step(view, id);
    lemma_without(view.names, id);
    lemma_owners(view.remove(id).channels);
}

/// A removed session gets no name back by asking: whatever registrations
/// follow its removal, it stays out of the roster.
pub proof fn lemma_removed_session_stays_unnamed(
    view: RegistryView,
    id: u64,
    calls: Seq<(u64, Seq<char>)>,
)
    requires
        view.wf(),
    ensures
        !register_all(view.remove(id), calls).is_live(id),
        !register_all(view.remove(id), calls).is_bound(id),
        register_all(view.remove(id), calls).name_of(id) is None,
{
    lemma_remove_step(view, id);
    lemma_roster_after_registrations(view.remove(id), calls);
    assert(register_all(view.remove(id), calls).name_of(id) == name_after(
        view.remove(id),
        calls,
        id,
    ));
}

/// A broadcast goes to the live sessions and to no others, to each of them
/// once: the list of sessions that it is offered to holds every live session
/// and holds none twice.
pub proof fn lemma_broadcast_reaches_each_once(view: RegistryView)
    requires
        view.wf(),
    ensures
        view.live_ids().no_duplicates(),
        forall|id: u64| #[trigger] view.live_ids().contains(id) == view.is_live(id),
{
    lemma_owners(view.channels);
}

/// A session that is not live is left alone: removing it and registering a
/// name for it both leave the registry as it is.
pub proof fn lemma_unknown_session_is_left_alone(view: RegistryView, id: u64, name: Seq<char>)
    requires
        view.wf(),
        !view.is_live(id),
    ensures
        view.remove(id) == view,
        view.register(id, name) == view,
{
    lemma_unbound_unless_live(view, id);
}

/// Accepting a live session again only replaces its channel: the outcome is
/// the same as if the later channel had come alone.
pub proof fn lemma_add_again(view: RegistryView, id: u64, first: Channel, second: Channel)
    requires
        view.wf(),
    ensures
        view.add(id, first).add(id, second) == view.add(id, second),
{
    let once = view.add(id, first);
    lemma_put(view.channels, id, first);
    let at = if view.is_live(id) {
        slot_of(view.channels, id)
    } else {
        view.channels.len() as int
    };
    lemma_slot(once.channels, id, at);
    assert(once.add(id, second).channels =~= view.add(id, second).channels);
}

/// The registry after `a` and then `b` have registered `name`.
pub open spec fn both_registered(
    view: RegistryView,
    a: u64,
    b: u64,
    name: Seq<char>,
) -> RegistryView {
    view.register(a, name).register(b, name)
}

/// Names need not be unique: when two different live sessions register the
/// same name, in either order, both are bound to it, and it stands in the
/// roster twice, once for each.
pub proof fn lemma_two_sessions_one_name(view: RegistryView, a: u64, b: u64, name: Seq<char>)
    requires
        view.wf(),
        a != b,
        view.is_live(a),
        view.is_live(b),
    ensures
        both_registered(view, a, b, name).name_of(a) == Some(name),
        both_registered(view, a, b, name).name_of(b) == Some(name),
        both_registered(view, b, a, name).name_of(a) == Some(name),
        both_registered(view, b, a, name).name_of(b) == Some(name),
        slot_of(both_registered(view, a, b, name).names, a) != slot_of(
            both_registered(view, a, b, name).names,
            b,
        ),
        both_registered(view, a, b, name).roster()[slot_of(
            both_registered(view, a, b, name).names,
            a,
        )] == name,
        both_registered(view, a, b, name).roster()[slot_of(
            both_registered(view, a, b, name).names,
            b,
        )] == name,
{
    lemma_register_step(view, a, name);
    lemma_register_step(view.register(a, name), b, name);
    lemma_register_step(view, b, name);
    lemma_register_step(view.register(b, name), a, name);
}

/// The life of a session. Accepting it makes it live: connected if it was
/// closed. Registering makes a live session registered and leaves a closed one
/// closed. Removing closes it.
pub proof fn lemma_session_lifecycle(view: RegistryView, id: u64, channel: Channel, name: Seq<char>)
    requires
        view.wf(),
    ensures
        session_state(view.add(id, channel), id) != SessionState::Closed,
        session_state(view, id) == SessionState::Closed ==> session_state(
            view.add(id, channel),
            id,
        ) == SessionState::Connected,
        session_state(view, id) != SessionState::Closed ==> session_state(
            view.register(id, name),
            id,
        ) == SessionState::Registered,
        session_state(view, id) == SessionState::Closed ==> session_state(
            view.register(id, name),
            id,
        ) == SessionState::Closed,
        session_state(view.remove(id), id) == SessionState::Closed,
{
    lemma_add_step(view, id, channel);
    lemma_register_step(view, id, name);
    lemma_remove_step(view, id);
    lemma_unbound_unless_live(view, id);
}

/// A chat line is relayed whatever the state of its sender, and changes
/// nothing in the registry: it goes out under the sender's name if it holds
/// one, and under `Anonymous` if it does not.
pub proof fn lemma_chat_needs_no_registration(view: RegistryView, id: u64, text: Seq<char>)
    requires
        view.wf(),
    ensures
        after_dispatch(view, id, EnvelopeView::message(text)) == view,
        answer(view, id, EnvelopeView::message(text)) == Some(
            chat_envelope(sender_name(view, id), text),
        ),
        session_state(view, id) == SessionState::Registered ==> view.name_of(id) == Some(
            sender_name(view, id),
        ),
        session_state(view, id) != SessionState::Registered ==> sender_name(view, id)
            == "Anonymous"@,
{
    lemma_unbound_unless_live(view, id);
}

} // verus!
