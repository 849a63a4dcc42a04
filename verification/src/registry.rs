//! The registry of live connections, each with its session and its
//! outbound queue, and the fan-out of one event to the queues of a session.

use vstd::prelude::*;
use crate::events::{EnvelopeModel, WatchEvent};

verus! {

/// One live connection: its session, its identifier, and the envelopes that
/// wait to be written to it, oldest first.
#[derive(Debug, PartialEq, Eq)]
pub struct ConnectedViewer {
    pub session: u128,
    pub viewer_id: usize,
    pub outbound: Vec<WatchEvent>,
}

/// Mathematical value of a connection.
pub ghost struct ViewerModel {
    pub session: u128,
    pub viewer_id: usize,
    pub outbound: Seq<EnvelopeModel>,
}

/// The views of a run of envelopes, in the same order.
pub open spec fn queue_model(queue: Seq<WatchEvent>) -> Seq<EnvelopeModel> {
    queue.map_values(|event: WatchEvent| event@)
}

impl View for ConnectedViewer {
    type V = ViewerModel;

    open spec fn view(&self) -> ViewerModel {
        ViewerModel {
            session: self.session,
            viewer_id: self.viewer_id,
            outbound: queue_model(self.outbound@),
        }
    }
}

/// Mathematical value of the registry: the connections in the order in which
/// they registered, and the identifier that the next one will get.
pub ghost struct RegistryModel {
    pub viewers: Seq<ViewerModel>,
    pub next_id: usize,
}

impl RegistryModel {
    /// Whether a connection with this identifier is registered.
    pub open spec fn has(self, viewer_id: usize) -> bool {
        exists|i: int| 0 <= i < self.viewers.len() && #[trigger] self.viewers[i].viewer_id == viewer_id
    }

    /// No identifier is held twice, and none that is still to be issued.
    pub open spec fn wf(self) -> bool {
        &&& forall|i: int|
            0 <= i < self.viewers.len() ==> #[trigger] self.viewers[i].viewer_id < self.next_id
        &&& forall|i: int, j: int|
            0 <= i < j < self.viewers.len() ==> #[trigger] self.viewers[i].viewer_id
                != #[trigger] self.viewers[j].viewer_id
    }

    /// The position of a registered connection.
    pub open spec fn index_of(self, viewer_id: usize) -> int {
        choose|i: int|
            0 <= i < self.viewers.len() && #[trigger] self.viewers[i].viewer_id == viewer_id
    }

    /// The record of a connection, if it is registered.
    pub open spec fn record(self, viewer_id: usize) -> Option<ViewerModel> {
        if self.has(viewer_id) {
            Some(self.viewers[self.index_of(viewer_id)])
        } else {
            None
        }
    }

    /// What waits in the queue of a connection; nothing, if it is not
    /// registered.
    pub open spec fn queue(self, viewer_id: usize) -> Seq<EnvelopeModel> {
        match self.record(viewer_id) {
            Some(viewer) => viewer.outbound,
            None => Seq::empty(),
        }
    }

    /// The session of a connection, if it is registered.
    pub open spec fn session_of(self, viewer_id: usize) -> Option<u128> {
        match self.record(viewer_id) {
            Some(viewer) => Some(viewer.session),
            None => None,
        }
    }
}

/// Whether a broadcast to `session` that leaves out `exclude` reaches a
/// connection.
pub open spec fn receives(viewer: ViewerModel, session: u128, exclude: Option<usize>) -> bool {
    viewer.session == session && exclude != Some(viewer.viewer_id)
}

/// A connection after such a broadcast: the event at the end of its queue if
/// the broadcast reaches it, and unchanged if not.
pub open spec fn delivered(
    viewer: ViewerModel,
    session: u128,
    exclude: Option<usize>,
    event: EnvelopeModel,
) -> ViewerModel {
    if receives(viewer, session, exclude) {
        ViewerModel { outbound: viewer.outbound.push(event), ..viewer }
    } else {
        viewer
    }
}

/// The registry after a broadcast.
pub open spec fn spec_broadcast(
    registry: RegistryModel,
    session: u128,
    exclude: Option<usize>,
    event: EnvelopeModel,
) -> RegistryModel {
    RegistryModel {
        viewers: Seq::new(
            registry.viewers.len(),
            |i: int| delivered(registry.viewers[i], session, exclude, event),
        ),
        next_id: registry.next_id,
    }
}

/// The registry after a new connection to `session` has registered.
pub open spec fn spec_register(registry: RegistryModel, session: u128) -> RegistryModel {
    RegistryModel {
        viewers: registry.viewers.push(
            ViewerModel { session, viewer_id: registry.next_id, outbound: Seq::empty() },
        ),
        next_id: (registry.next_id + 1) as usize,
    }
}

/// The registry without a connection; unchanged, if it is not registered.
/// The others keep their order.
pub open spec fn spec_deregister(registry: RegistryModel, viewer_id: usize) -> RegistryModel {
    if registry.has(viewer_id) {
        RegistryModel {
            viewers: registry.viewers.remove(registry.index_of(viewer_id)),
            next_id: registry.next_id,
        }
    } else {
        registry
    }
}

/// The registry with the queue of a connection emptied; unchanged, if it is
/// not registered.
pub open spec fn spec_drained(registry: RegistryModel, viewer_id: usize) -> RegistryModel {
    if registry.has(viewer_id) {
        let at = registry.index_of(viewer_id);
        RegistryModel {
            viewers: registry.viewers.update(
                at,
                ViewerModel { outbound: Seq::empty(), ..registry.viewers[at] },
            ),
            next_id: registry.next_id,
        }
    } else {
        registry
    }
}

/// The view of an optional record.
pub open spec fn record_model(viewer: Option<ConnectedViewer>) -> Option<ViewerModel> {
    match viewer {
        Some(v) => Some(v@),
        None => None,
    }
}

/// The live connections of all sessions.
pub struct Registry {
    viewers: Vec<ConnectedViewer>,
    next_id: usize,
}

impl View for Registry {
    type V = RegistryModel;

    closed spec fn view(&self) -> RegistryModel {
        RegistryModel {
            viewers: self.viewers@.map_values(|viewer: ConnectedViewer| viewer@),
            next_id: self.next_id,
        }
    }
}

impl Registry {
    /// The invariant of the registry: see `RegistryModel::wf`.
    pub open spec fn wf(&self) -> bool {
        self@.wf()
    }

    /// An empty registry, whose first connection will be number 1.
    pub fn new() -> (registry: Self)
        ensures
            registry.wf(),
            registry@ == (RegistryModel { viewers: Seq::empty(), next_id: 1 }),
    {
        let registry = Registry { viewers: Vec::new(), next_id: 1 };
        assert(registry@.viewers =~= Seq::empty());
        registry
    }

    /// The number of live connections.
    pub fn len(&self) -> (count: usize)
        ensures
            count == self@.viewers.len(),
    {
        self.viewers.len()
    }

    /// Whether another identifier can be issued.
    pub fn has_room(&self) -> (room: bool)
        ensures
            room == (self@.next_id < usize::MAX),
    {
        self.next_id < usize::MAX
    }

    /// The position of a connection, if it is registered.
    fn position(&self, viewer_id: usize) -> (at: Option<usize>)
        ensures
            match at {
                Some(k) => k < self@.viewers.len() && self@.viewers[k as int].viewer_id
                    == viewer_id,
                None => !self@.has(viewer_id),
            },
    {
        let mut i: usize = 0;
        while i < self.viewers.len()
            invariant
                i <= self.viewers.len(),
                forall|j: int| 0 <= j < i ==> self@.viewers[j].viewer_id != viewer_id,
            decreases self.viewers.len() - i,
        {
            if self.viewers[i].viewer_id == viewer_id {
                return Some(i);
            }
            i += 1;
        }
        None
    }

    /// Whether a connection with this identifier is registered.
    pub fn contains(&self, viewer_id: usize) -> (found: bool)
        ensures
            found == self@.has(viewer_id),
    {
        self.position(viewer_id).is_some()
    }

    /// Adds a connection to `session` with an empty queue and returns its
    /// identifier, which no connection had before. From now on broadcasts to
    /// the session reach it.
    pub fn register(&mut self, session: u128) -> (viewer_id: usize)
        requires
            old(self).wf(),
            old(self)@.next_id < usize::MAX,
        ensures
            final(self).wf(),
            viewer_id == old(self)@.next_id,
            !old(self)@.has(viewer_id),
            final(self)@ == spec_register(old(self)@, session),
    {
        let viewer_id = self.next_id;
        self.next_id = self.next_id + 1;
        self.viewers.push(ConnectedViewer { session, viewer_id, outbound: Vec::new() });
        proof {
            let fresh = ViewerModel { session, viewer_id, outbound: Seq::empty() };
            assert(queue_model(Seq::<WatchEvent>::empty()) =~= Seq::empty());
            assert(self@.viewers =~= old(self)@.viewers.push(fresh));
        }
        viewer_id
    }

    /// Removes a connection and hands back its record, with what still
    /// waited in its queue. The other connections stay as they are, in their
    /// order. No later broadcast reaches the one removed.
    pub fn deregister(&mut self, viewer_id: usize) -> (removed: Option<ConnectedViewer>)
        requires
            old(self).wf(),
        ensures
            final(self).wf(),
            !final(self)@.has(viewer_id),
            record_model(removed) == old(self)@.record(viewer_id),
            final(self)@ == spec_deregister(old(self)@, viewer_id),
    {
        match self.position(viewer_id) {
            Some(at) => {
                let viewer = self.viewers.remove(at);
                proof {
                    assert(old(self)@.index_of(viewer_id) == at);
                    assert(self@.viewers =~= old(self)@.viewers.remove(at as int));
                    assert(old(self)@.viewers[at as int] == viewer@);
                }
                Some(viewer)
            },
            None => None,
        }
    }

    /// Puts a copy of `event` at the end of the queue of every connection of
    /// `session`, but for the one named by `exclude`. Connections of other
    /// sessions are not touched.
    pub fn broadcast(&mut self, session: u128, exclude: Option<usize>, event: &WatchEvent)
        requires
            old(self).wf(),
        ensures
            final(self).wf(),
            final(self)@ == spec_broadcast(old(self)@, session, exclude, event@),
    {
        let mut i: usize = 0;
        while i < self.viewers.len()
            invariant
                i <= self.viewers.len(),
                self.next_id == old(self).next_id,
                self@.viewers.len() == old(self)@.viewers.len(),
                forall|j: int|
                    0 <= j < i ==> #[trigger] self@.viewers[j] == delivered(
                        old(self)@.viewers[j],
                        session,
                        exclude,
                        event@,
                    ),
                forall|j: int|
                    i <= j < self@.viewers.len() ==> #[trigger] self@.viewers[j] == old(
                        self,
                    )@.viewers[j],
            decreases self.viewers.len() - i,
        {
            let ghost before = *self;
            let reached = self.viewers[i].session == session && match exclude {
                Some(id) => id != self.viewers[i].viewer_id,
                None => true,
            };
            if reached {
                let copy = event.clone();
                self.viewers[i].outbound.push(copy);
                assert(queue_model(self.viewers@[i as int].outbound@) =~= queue_model(
                    before.viewers@[i as int].outbound@,
                ).push(event@));
            }
            proof {
                assert(before@.viewers[i as int] == old(self)@.viewers[i as int]);
                assert(self@.viewers[i as int] == delivered(
                    before@.viewers[i as int],
                    session,
                    exclude,
                    event@,
                ));
                assert forall|j: int| 0 <= j < i implies self@.viewers[j] == delivered(
                    old(self)@.viewers[j],
                    session,
                    exclude,
                    event@,
                ) by {
                    assert(self.viewers@[j] == before.viewers@[j]);
                    assert(self@.viewers[j] == before@.viewers[j]);
                }
                assert forall|j: int| i < j < self@.viewers.len() implies self@.viewers[j] == old(
                    self,
                )@.viewers[j] by {
                    assert(self.viewers@[j] == before.viewers@[j]);
                    assert(self@.viewers[j] == before@.viewers[j]);
                }
            }
            i += 1;
        }
        assert(self@.viewers =~= spec_broadcast(
            old(self)@,
            session,
            exclude,
            event@,
        ).viewers);
    }

    /// Takes what waits in the queue of a connection, oldest first, and
    /// leaves the queue empty. For a connection that is not registered there
    /// is nothing to take.
    pub fn take_outbound(&mut self, viewer_id: usize) -> (pending: Vec<WatchEvent>)
        requires
            old(self).wf(),
        ensures
            final(self).wf(),
            queue_model(pending@) == old(self)@.queue(viewer_id),
            final(self)@ == spec_drained(old(self)@, viewer_id),
    {
        match self.position(viewer_id) {
            Some(at) => {
                let mut pending: Vec<WatchEvent> = Vec::new();
                core::mem::swap(&mut self.viewers[at].outbound, &mut pending);
                proof {
                    assert(old(self)@.index_of(viewer_id) == at);
                    assert(queue_model(Seq::<WatchEvent>::empty()) =~= Seq::empty());
                    assert(self@.viewers =~= spec_drained(old(self)@, viewer_id).viewers);
                }
                pending
            },
            None => {
                let pending: Vec<WatchEvent> = Vec::new();
                assert(queue_model(pending@) =~= Seq::empty());
                pending
            },
        }
    }
}

} // verus!
