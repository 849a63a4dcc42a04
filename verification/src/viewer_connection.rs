//! The life of one connection, as steps on the registry: it subscribes,
//! each frame it sends is judged and settled, and it unsubscribes.
//!
//! Waiting for frames, writing queued envelopes out and applying an event
//! to the state of a session are the caller's part. The caller runs them
//! between these steps and tells `ws_settle` whether the session was found.

use vstd::prelude::*;
use crate::events::{EnvelopeModel, PayloadModel, WatchEvent, WatchEventData};
use crate::json::{decode_text, spec_decode_text};
use crate::registry::{
    ConnectedViewer, Registry, RegistryModel, record_model, spec_broadcast, spec_deregister,
    spec_register,
};
use crate::wire::event_model;

verus! {

/// What is to be done with a frame that a connection sent.
#[derive(Debug, PartialEq, Eq)]
pub enum Verdict {
    /// The frame is malformed: nothing happens, and the connection stays.
    Discard,
    /// A chat message, signed with the sender's own name: it goes to the
    /// whole session, the sender included, and touches no session state.
    Chat(WatchEvent),
    /// Any other event: it is applied to the state of the session and then
    /// goes to the others in the session.
    Relay(WatchEvent),
}

pub ghost enum VerdictModel {
    Discard,
    Chat(EnvelopeModel),
    Relay(EnvelopeModel),
}

impl View for Verdict {
    type V = VerdictModel;

    open spec fn view(&self) -> VerdictModel {
        match *self {
            Verdict::Discard => VerdictModel::Discard,
            Verdict::Chat(event) => VerdictModel::Chat(event@),
            Verdict::Relay(event) => VerdictModel::Relay(event@),
        }
    }
}

/// The announcement that a viewer has joined.
pub open spec fn join_notice(nickname: Seq<char>) -> EnvelopeModel {
    EnvelopeModel {
        user: Some(nickname),
        colour: None,
        data: PayloadModel::UserJoin,
        reflected: false,
    }
}

/// The announcement that a viewer has left.
pub open spec fn leave_notice(nickname: Seq<char>) -> EnvelopeModel {
    EnvelopeModel {
        user: Some(nickname),
        colour: None,
        data: PayloadModel::UserLeave,
        reflected: false,
    }
}

/// The verdict on what a frame from a connection that is bound to
/// `nickname` decoded to; `None` stands for a malformed frame. Whatever name
/// a chat message claims, it leaves under the sender's own.
pub open spec fn spec_judge(decoded: Option<EnvelopeModel>, nickname: Seq<char>) -> VerdictModel {
    match decoded {
        None => VerdictModel::Discard,
        Some(event) => {
            if event.data is ChatMessage {
                VerdictModel::Chat(EnvelopeModel { user: Some(nickname), ..event })
            } else {
                VerdictModel::Relay(event)
            }
        },
    }
}

/// The registry after a verdict has been carried out for the connection
/// `viewer_id` of `session`. An event to relay whose session was not found
/// is dropped.
pub open spec fn spec_settle(
    registry: RegistryModel,
    session: u128,
    viewer_id: usize,
    verdict: VerdictModel,
    applied: bool,
) -> RegistryModel {
    match verdict {
        VerdictModel::Discard => registry,
        VerdictModel::Chat(event) => spec_broadcast(registry, session, None, event),
        VerdictModel::Relay(event) => {
            if applied {
                spec_broadcast(registry, session, Some(viewer_id), event)
            } else {
                registry
            }
        },
    }
}

/// The registry after a frame has been judged and settled.
pub open spec fn spec_receive(
    registry: RegistryModel,
    session: u128,
    viewer_id: usize,
    nickname: Seq<char>,
    decoded: Option<EnvelopeModel>,
    applied: bool,
) -> RegistryModel {
    spec_settle(registry, session, viewer_id, spec_judge(decoded, nickname), applied)
}

/// The registry after a viewer has subscribed: registered, and announced to
/// the whole session, itself included.
pub open spec fn spec_subscribe(
    registry: RegistryModel,
    session: u128,
    nickname: Seq<char>,
) -> RegistryModel {
    spec_broadcast(spec_register(registry, session), session, None, join_notice(nickname))
}

/// The registry after a viewer has unsubscribed: first its departure is
/// announced to the whole session, then it is removed.
pub open spec fn spec_unsubscribe(
    registry: RegistryModel,
    session: u128,
    viewer_id: usize,
    nickname: Seq<char>,
) -> RegistryModel {
    spec_deregister(
        spec_broadcast(registry, session, None, leave_notice(nickname)),
        viewer_id,
    )
}

/// Delivers `event` to every connection of the session, but for the one
/// named by `viewer_id`.
pub fn ws_publish(
    registry: &mut Registry,
    session_uuid: u128,
    viewer_id: Option<usize>,
    event: &WatchEvent,
)
    requires
        old(registry).wf(),
    ensures
        final(registry).wf(),
        final(registry)@ == spec_broadcast(old(registry)@, session_uuid, viewer_id, event@),
{
    registry.broadcast(session_uuid, viewer_id, event);
}

/// Registers a connection to the session for the viewer `nickname` and
/// announces the viewer to the session. Returns the connection's identifier.
pub fn ws_subscribe(registry: &mut Registry, session_uuid: u128, nickname: &str) -> (viewer_id:
    usize)
    requires
        old(registry).wf(),
        old(registry)@.next_id < usize::MAX,
    ensures
        final(registry).wf(),
        viewer_id == old(registry)@.next_id,
        !old(registry)@.has(viewer_id),
        final(registry)@ == spec_subscribe(old(registry)@, session_uuid, nickname@),
{
    let viewer_id = registry.register(session_uuid);
    let notice = WatchEvent::announced(nickname.to_owned(), WatchEventData::UserJoin);
    registry.broadcast(session_uuid, None, &notice);
    viewer_id
}

/// Reads and judges a textual frame from a connection that is bound to
/// `nickname`.
pub fn ws_read(text: &str, nickname: &str) -> (verdict: Verdict)
    ensures
        verdict@ == spec_judge(spec_decode_text(text@), nickname@),
{
    ws_judge(decode_text(text), nickname)
}

/// Judges what a frame from a connection that is bound to `nickname`
/// decoded to.
pub fn ws_judge(decoded: Option<WatchEvent>, nickname: &str) -> (verdict: Verdict)
    ensures
        verdict@ == spec_judge(event_model(decoded), nickname@),
{
    match decoded {
        None => Verdict::Discard,
        Some(event) => {
            if event.data.is_chat() {
                Verdict::Chat(
                    WatchEvent {
                        user: Some(nickname.to_owned()),
                        colour: event.colour,
                        data: event.data,
                        reflected: event.reflected,
                    },
                )
            } else {
                Verdict::Relay(event)
            }
        },
    }
}

/// Carries out a verdict for the connection `viewer_id` of the session.
/// `applied` says whether the session was found and the event applied to
/// its state; it matters only for an event to relay.
pub fn ws_settle(
    registry: &mut Registry,
    session_uuid: u128,
    viewer_id: usize,
    verdict: &Verdict,
    applied: bool,
)
    requires
        old(registry).wf(),
    ensures
        final(registry).wf(),
        final(registry)@ == spec_settle(
            old(registry)@,
            session_uuid,
            viewer_id,
            verdict@,
            applied,
        ),
{
    match verdict {
        Verdict::Discard => {},
        Verdict::Chat(event) => {
            registry.broadcast(session_uuid, None, event);
        },
        Verdict::Relay(event) => {
            if applied {
                registry.broadcast(session_uuid, Some(viewer_id), event);
            }
        },
    }
}

/// Announces to the session that the viewer `nickname` has left, then
/// removes the connection. Returns its record, with what still waited in
/// its queue.
pub fn ws_unsubscribe(
    registry: &mut Registry,
    session_uuid: u128,
    viewer_id: usize,
    nickname: &str,
) -> (removed: Option<ConnectedViewer>)
    requires
        old(registry).wf(),
    ensures
        final(registry).wf(),
        !final(registry)@.has(viewer_id),
        final(registry)@ == spec_unsubscribe(
            old(registry)@,
            session_uuid,
            viewer_id,
            nickname@,
        ),
        record_model(removed) == spec_broadcast(
            old(registry)@,
            session_uuid,
            None,
            leave_notice(nickname@),
        ).record(viewer_id),
{
    let notice = WatchEvent::announced(nickname.to_owned(), WatchEventData::UserLeave);
    registry.broadcast(session_uuid, None, &notice);
    registry.deregister(viewer_id)
}

} // verus!
