//! What holds of the hub as a whole: who receives what, in which order,
//! and who no longer does.

use vstd::prelude::*;
use crate::events::EnvelopeModel;
use crate::registry::{
    RegistryModel, ViewerModel, spec_broadcast, spec_deregister, spec_register,
};
use crate::viewer_connection::{
    VerdictModel, join_notice, leave_notice, spec_judge, spec_receive, spec_subscribe,
    spec_unsubscribe,
};
use crate::json::{json_parsed, spec_decode_text, spec_encode_text, spec_frame};
use crate::wire::{decode_inverts_encode, spec_decode, spec_encode};

verus! {

/// In a well-formed registry a position is found again by the identifier
/// that stands there.
pub proof fn position_is_unique(registry: RegistryModel, at: int)
    requires
        registry.wf(),
        0 <= at < registry.viewers.len(),
    ensures
        registry.has(registry.viewers[at].viewer_id),
        registry.index_of(registry.viewers[at].viewer_id) == at,
        registry.record(registry.viewers[at].viewer_id) == Some(registry.viewers[at]),
{
    let id = registry.viewers[at].viewer_id;
    let found = registry.index_of(id);
    assert(registry.viewers[found].viewer_id == id);
    if found < at {
        assert(registry.viewers[found].viewer_id != registry.viewers[at].viewer_id);
    }
    if at < found {
        assert(registry.viewers[at].viewer_id != registry.viewers[found].viewer_id);
    }
}

/// A broadcast reaches the connections of its session, but for the one it
/// leaves out, and no other: each of those has the event at the end of its
/// queue, behind all that waited there, and every other connection is as it
/// was. Nobody joins or leaves by it.
pub proof fn broadcast_reaches_the_session(
    registry: RegistryModel,
    session: u128,
    exclude: Option<usize>,
    event: EnvelopeModel,
    viewer_id: usize,
)
    requires
        registry.wf(),
    ensures
        spec_broadcast(registry, session, exclude, event).wf(),
        spec_broadcast(registry, session, exclude, event).has(viewer_id) == registry.has(
            viewer_id,
        ),
        spec_broadcast(registry, session, exclude, event).session_of(viewer_id)
            == registry.session_of(viewer_id),
        spec_broadcast(registry, session, exclude, event).queue(viewer_id) == if registry.session_of(
            viewer_id,
        ) == Some(session) && exclude != Some(viewer_id) {
            registry.queue(viewer_id).push(event)
        } else {
            registry.queue(viewer_id)
        },
{
    let after = spec_broadcast(registry, session, exclude, event);
    assert forall|i: int| 0 <= i < after.viewers.len() implies #[trigger] after.viewers[i].viewer_id
        == registry.viewers[i].viewer_id by {}
    assert(after.wf());
    if registry.has(viewer_id) {
        let at = registry.index_of(viewer_id);
        assert(after.viewers[at].viewer_id == viewer_id);
        position_is_unique(after, at);
    }
    if after.has(viewer_id) {
        let at = after.index_of(viewer_id);
        assert(registry.viewers[at].viewer_id == viewer_id);
        position_is_unique(registry, at);
    }
}

/// A connection that registers gets an identifier that nobody holds, and an
/// empty queue; the others are as they were.
pub proof fn register_adds_one(registry: RegistryModel, session: u128, viewer_id: usize)
    requires
        registry.wf(),
        registry.next_id < usize::MAX,
    ensures
        spec_register(registry, session).wf(),
        !registry.has(registry.next_id),
        spec_register(registry, session).record(viewer_id) == if viewer_id == registry.next_id {
            Some(ViewerModel { session, viewer_id, outbound: Seq::empty() })
        } else {
            registry.record(viewer_id)
        },
{
    let after = spec_register(registry, session);
    let last = registry.viewers.len() as int;
    assert(after.wf());
    if registry.has(registry.next_id) {
        assert(registry.viewers[registry.index_of(registry.next_id)].viewer_id < registry.next_id);
    }
    position_is_unique(after, last);
    if viewer_id != registry.next_id {
        if registry.has(viewer_id) {
            let at = registry.index_of(viewer_id);
            assert(after.viewers[at].viewer_id == viewer_id);
            position_is_unique(after, at);
        }
        if after.has(viewer_id) {
            let at = after.index_of(viewer_id);
            assert(at != last);
            assert(registry.viewers[at].viewer_id == viewer_id);
            position_is_unique(registry, at);
        }
    }
}

/// A connection that deregisters is gone, and the others are as they were.
pub proof fn deregister_removes_one(registry: RegistryModel, gone: usize, viewer_id: usize)
    requires
        registry.wf(),
    ensures
        spec_deregister(registry, gone).wf(),
        spec_deregister(registry, gone).record(viewer_id) == if viewer_id == gone {
            None
        } else {
            registry.record(viewer_id)
        },
{
    let after = spec_deregister(registry, gone);
    if registry.has(gone) {
        let hole = registry.index_of(gone);
        assert forall|i: int| 0 <= i < after.viewers.len() implies #[trigger] after.viewers[i]
            == registry.viewers[if i < hole { i } else { i + 1 }] by {}
        assert(after.wf());
        if after.has(gone) {
            let at = after.index_of(gone);
            let from = if at < hole { at } else { at + 1 };
            assert(registry.viewers[from].viewer_id == gone);
            position_is_unique(registry, from);
        }
        if viewer_id != gone {
            if registry.has(viewer_id) {
                let at = registry.index_of(viewer_id);
                let to = if at < hole { at } else { at - 1 };
                assert(after.viewers[to].viewer_id == viewer_id);
                position_is_unique(after, to);
            }
            if after.has(viewer_id) {
                let at = after.index_of(viewer_id);
                let from = if at < hole { at } else { at + 1 };
                assert(registry.viewers[from].viewer_id == viewer_id);
                position_is_unique(registry, from);
            }
        }
    }
}

/// An event that is no chat message, sent by one connection of a session,
/// comes to any other connection of that session and not back to its
/// sender.
pub proof fn relayed_event_skips_its_sender(
    registry: RegistryModel,
    session: u128,
    sender: usize,
    other: usize,
    nickname: Seq<char>,
    event: EnvelopeModel,
)
    requires
        registry.wf(),
        registry.session_of(sender) == Some(session),
        registry.session_of(other) == Some(session),
        sender != other,
        !(event.data is ChatMessage),
    ensures
        spec_receive(registry, session, sender, nickname, Some(event), true).queue(other)
            == registry.queue(other).push(event),
        spec_receive(registry, session, sender, nickname, Some(event), true).queue(sender)
            == registry.queue(sender),
{
    broadcast_reaches_the_session(registry, session, Some(sender), event, other);
    broadcast_reaches_the_session(registry, session, Some(sender), event, sender);
}

/// A chat message comes to every connection of the sender's session, the
/// sender included, and under the name that the sender's connection is
/// bound to, whatever name the frame claimed.
pub proof fn chat_carries_the_bound_name(
    registry: RegistryModel,
    session: u128,
    sender: usize,
    receiver: usize,
    nickname: Seq<char>,
    event: EnvelopeModel,
    applied: bool,
)
    requires
        registry.wf(),
        registry.session_of(receiver) == Some(session),
        event.data is ChatMessage,
    ensures
        spec_receive(registry, session, sender, nickname, Some(event), applied).queue(receiver)
            == registry.queue(receiver).push(EnvelopeModel { user: Some(nickname), ..event }),
{
    let signed = EnvelopeModel { user: Some(nickname), ..event };
    broadcast_reaches_the_session(registry, session, None, signed, receiver);
}

/// Once a connection has deregistered no broadcast reaches it: it is not
/// in the registry after the broadcast, which therefore holds no queue for
/// it. What waited in its queue when it left does not matter.
pub proof fn deregistered_is_never_reached(
    registry: RegistryModel,
    gone: usize,
    session: u128,
    exclude: Option<usize>,
    event: EnvelopeModel,
)
    requires
        registry.wf(),
    ensures
        !spec_deregister(registry, gone).has(gone),
        !spec_broadcast(spec_deregister(registry, gone), session, exclude, event).has(gone),
        spec_broadcast(spec_deregister(registry, gone), session, exclude, event).queue(gone)
            == Seq::<EnvelopeModel>::empty(),
{
    deregister_removes_one(registry, gone, gone);
    broadcast_reaches_the_session(
        spec_deregister(registry, gone),
        session,
        exclude,
        event,
        gone,
    );
}

/// A connection that is not registered, and whose identifier has been
/// issued, stays out whatever happens next: a broadcast, another
/// registration, another departure.
pub proof fn absent_stays_absent(
    registry: RegistryModel,
    gone: usize,
    session: u128,
    exclude: Option<usize>,
    event: EnvelopeModel,
    leaver: usize,
)
    requires
        registry.wf(),
        !registry.has(gone),
        gone < registry.next_id,
    ensures
        !spec_broadcast(registry, session, exclude, event).has(gone),
        !spec_deregister(registry, leaver).has(gone),
        registry.next_id < usize::MAX ==> !spec_register(registry, session).has(gone) && gone
            < spec_register(registry, session).next_id,
{
    broadcast_reaches_the_session(registry, session, exclude, event, gone);
    deregister_removes_one(registry, leaver, gone);
    if registry.next_id < usize::MAX {
        register_adds_one(registry, session, gone);
    }
}

/// When a viewer joins and leaves at once, every other connection of the
/// session finds the arrival in its queue, and directly behind it the
/// departure.
pub proof fn join_precedes_leave(
    registry: RegistryModel,
    session: u128,
    nickname: Seq<char>,
    witness: usize,
)
    requires
        registry.wf(),
        registry.next_id < usize::MAX,
        registry.session_of(witness) == Some(session),
    ensures
        spec_unsubscribe(
            spec_subscribe(registry, session, nickname),
            session,
            registry.next_id,
            nickname,
        ).queue(witness) == registry.queue(witness).push(join_notice(nickname)).push(
            leave_notice(nickname),
        ),
{
    let joiner = registry.next_id;
    let registered = spec_register(registry, session);
    register_adds_one(registry, session, witness);
    let joined = spec_broadcast(registered, session, None, join_notice(nickname));
    broadcast_reaches_the_session(registered, session, None, join_notice(nickname), witness);
    let announced = spec_broadcast(joined, session, None, leave_notice(nickname));
    broadcast_reaches_the_session(joined, session, None, leave_notice(nickname), witness);
    deregister_removes_one(announced, joiner, witness);
}

/// A malformed frame, one that decodes to nothing, is discarded: it changes
/// no queue and removes nobody, its sender included.
pub proof fn malformed_frame_changes_nothing(
    registry: RegistryModel,
    session: u128,
    sender: usize,
    nickname: Seq<char>,
    applied: bool,
)
    ensures
        spec_judge(None, nickname) == VerdictModel::Discard,
        spec_receive(registry, session, sender, nickname, None, applied) == registry,
{
}

/// Reading undoes writing at the level of text as far as the parser reads
/// back the members that were written: where it does, the text of an
/// envelope decodes to that envelope.
pub proof fn text_round_trip(event: EnvelopeModel)
    requires
        json_parsed(spec_encode_text(event)) is Some,
        spec_frame(json_parsed(spec_encode_text(event))->0) == spec_encode(event),
    ensures
        spec_decode_text(spec_encode_text(event)) == Some(event),
{
    decode_inverts_encode(event);
}

/// A text that is no JSON, or whose frame is malformed, is a malformed
/// frame.
pub proof fn unreadable_text_is_discarded(text: Seq<char>, nickname: Seq<char>)
    requires
        json_parsed(text) is None || spec_decode(spec_frame(json_parsed(text)->0)) is None,
    ensures
        spec_judge(spec_decode_text(text), nickname) == VerdictModel::Discard,
{
}

} // verus!
