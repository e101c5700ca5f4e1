//! How packets reach the opponent: which transport a build uses, and the
//! relay's bookkeeping of the peers and packets its connection reports.
use vstd::prelude::*;
use vstd::string::*;

use crate::bvs::{room_url_text, ServerView};
use crate::peer::PeerId;
use crate::text::concat2;

verus! {

broadcast use vstd::seq_lib::group_seq_properties;

/// Whether a peer joined or left.
#[derive(Debug, Clone, Copy, PartialEq, Eq, Structural)]
pub enum PeerState {
    Connected,
    Disconnected,
}

/// WebRTC where matchbox is available, the relay elsewhere.
#[derive(Debug, Clone, Copy, PartialEq, Eq, Structural)]
pub enum TransportKind {
    WebRtc,
    Relay,
}

impl TransportKind {
    /// The transport of this build: it has no WebRTC, so the relay.
    pub fn for_target() -> (r: TransportKind)
        ensures
            r == TransportKind::Relay,
    {
        TransportKind::Relay
    }
}

/// The address of a room for the relay: `relay=1` added to its query.
pub open spec fn relay_url_text(room_url: Seq<char>) -> Seq<char> {
    if room_url.contains('?') {
        room_url + "&relay=1"@
    } else {
        room_url + "?relay=1"@
    }
}

/// Whether the text holds the character `c`.
fn has_char(s: &str, c: char) -> (r: bool)
    ensures
        r == s@.contains(c),
{
    let n = s.unicode_len();
    let mut i: usize = 0;
    while i < n
        invariant
            n == s@.len(),
            i <= n,
            forall|k: int| 0 <= k < i ==> s@[k] != c,
        decreases n - i,
    {
        if s.get_char(i) == c {
            assert(s@[i as int] == c);
            return true;
        }
        i = i + 1;
    }
    false
}

/// The relay's address of the room at `room_url`.
pub fn relay_url(room_url: &str) -> (r: String)
    ensures
        r@ == relay_url_text(room_url@),
{
    if has_char(room_url, '?') {
        concat2(room_url, "&relay=1")
    } else {
        concat2(room_url, "?relay=1")
    }
}

/// What the matchbox server tells a relay client.
#[derive(Debug)]
pub enum ServerEvent {
    /// The server gave this client its id.
    IdAssigned(PeerId),
    /// A relay peer was paired with this client.
    NewRelayPeer(PeerId),
    /// A WebRTC peer was announced; the relay treats it as a relay peer.
    NewPeer(PeerId),
    /// A peer left.
    PeerLeft(PeerId),
    /// A peer signalled; the numbers are the `Relay` payload's data, when it has one.
    Signal(PeerId, Option<Vec<u64>>),
}

/// What the relay connection reports to its client.
#[derive(Debug)]
pub enum RelayEvent {
    IdAssigned(PeerId),
    Peer(PeerId, PeerState),
    Packet(PeerId, Vec<u8>),
}

/// The value of a relay event.
pub enum RelayEventView {
    IdAssigned(PeerId),
    Peer(PeerId, PeerState),
    Packet(PeerId, Seq<u8>),
}

impl View for RelayEvent {
    type V = RelayEventView;

    open spec fn view(&self) -> RelayEventView {
        match self {
            RelayEvent::IdAssigned(id) => RelayEventView::IdAssigned(*id),
            RelayEvent::Peer(p, s) => RelayEventView::Peer(*p, *s),
            RelayEvent::Packet(p, bytes) => RelayEventView::Packet(*p, bytes@),
        }
    }
}

/// The bytes of a relay payload: each number cut to its low eight bits.
pub open spec fn payload_bytes(values: Seq<u64>) -> Seq<u8> {
    Seq::new(values.len(), |i: int| (values[i] % 256) as u8)
}

/// The packet that a relay payload's numbers carry.
pub fn packet_of_values(values: &Vec<u64>) -> (r: Vec<u8>)
    ensures
        r@ == payload_bytes(values@),
{
    let mut r: Vec<u8> = Vec::new();
    let mut i: usize = 0;
    while i < values.len()
        invariant
            i <= values.len(),
            r@ == payload_bytes(values@.take(i as int)),
        decreases values.len() - i,
    {
        let b = (values[i] % 256) as u8;
        r.push(b);
        i = i + 1;
        assert(r@ =~= payload_bytes(values@.take(i as int)));
    }
    assert(values@.take(values.len() as int) =~= values@);
    r
}

/// What a server event reports: peers that join or are announced are
/// connected, peers that leave disconnected, and a signal is a packet when it
/// carries a relay payload; other signals report nothing.
pub open spec fn reported(e: ServerEvent) -> Option<RelayEventView> {
    match e {
        ServerEvent::IdAssigned(id) => Some(RelayEventView::IdAssigned(id)),
        ServerEvent::NewRelayPeer(p) => Some(RelayEventView::Peer(p, PeerState::Connected)),
        ServerEvent::NewPeer(p) => Some(RelayEventView::Peer(p, PeerState::Connected)),
        ServerEvent::PeerLeft(p) => Some(RelayEventView::Peer(p, PeerState::Disconnected)),
        ServerEvent::Signal(p, payload) => match payload {
            Some(values) => Some(RelayEventView::Packet(p, payload_bytes(values@))),
            None => None,
        },
    }
}

/// The relay event that a server event reports, if any.
pub fn handle_event(e: ServerEvent) -> (r: Option<RelayEvent>)
    ensures
        match r {
            Some(ev) => reported(e) == Some(ev@),
            None => reported(e) is None,
        },
{
    match e {
        ServerEvent::IdAssigned(id) => Some(RelayEvent::IdAssigned(id)),
        ServerEvent::NewRelayPeer(p) => Some(RelayEvent::Peer(p, PeerState::Connected)),
        ServerEvent::NewPeer(p) => Some(RelayEvent::Peer(p, PeerState::Connected)),
        ServerEvent::PeerLeft(p) => Some(RelayEvent::Peer(p, PeerState::Disconnected)),
        ServerEvent::Signal(p, payload) => match payload {
            Some(values) => Some(RelayEvent::Packet(p, packet_of_values(&values))),
            None => None,
        },
    }
}

/// The mathematical value of a relay client's bookkeeping: its id, whether
/// the connection is closed, the peers connected, and the peer changes and
/// packets not yet handed out, in order.
pub struct RelayPeersView {
    pub id: Option<PeerId>,
    pub closed: bool,
    pub connected: Set<PeerId>,
    pub peer_changes: Seq<(PeerId, PeerState)>,
    pub inbox: Seq<(PeerId, Seq<u8>)>,
}

/// The values of received packets.
pub open spec fn inbox_view(v: Seq<(PeerId, Vec<u8>)>) -> Seq<(PeerId, Seq<u8>)> {
    v.map_values(|x: (PeerId, Vec<u8>)| (x.0, x.1@))
}

/// A relay client's bookkeeping of what its connection reported.
#[derive(Debug)]
pub struct RelayPeers {
    id: Option<PeerId>,
    closed: bool,
    connected: Vec<PeerId>,
    peer_changes: Vec<(PeerId, PeerState)>,
    inbox: Vec<(PeerId, Vec<u8>)>,
}

impl View for RelayPeers {
    type V = RelayPeersView;

    closed spec fn view(&self) -> RelayPeersView {
        RelayPeersView {
            id: self.id,
            closed: self.closed,
            connected: self.connected@.to_set(),
            peer_changes: self.peer_changes@,
            inbox: inbox_view(self.inbox@),
        }
    }
}

impl RelayPeersView {
    /// The bookkeeping after the connection reported `e`.
    pub open spec fn applied(self, e: RelayEventView) -> RelayPeersView {
        match e {
            RelayEventView::IdAssigned(id) => RelayPeersView { id: Some(id), ..self },
            RelayEventView::Peer(p, s) => RelayPeersView {
                connected: if s == PeerState::Connected {
                    self.connected.insert(p)
                } else {
                    self.connected.remove(p)
                },
                peer_changes: self.peer_changes.push((p, s)),
                ..self
            },
            RelayEventView::Packet(p, bytes) => RelayPeersView {
                inbox: self.inbox.push((p, bytes)),
                ..self
            },
        }
    }
}

/// What can happen to a relay client's bookkeeping: the connection reports
/// an event, the connection closes, or the peer changes or the packets are
/// handed out.
pub enum RelayOp {
    Apply(RelayEventView),
    Close,
    TakePeerChanges,
    TakePackets,
}

impl RelayPeersView {
    /// The bookkeeping after `op`.
    pub open spec fn stepped(self, op: RelayOp) -> RelayPeersView {
        match op {
            RelayOp::Apply(e) => self.applied(e),
            RelayOp::Close => RelayPeersView { closed: true, ..self },
            RelayOp::TakePeerChanges => RelayPeersView { peer_changes: Seq::empty(), ..self },
            RelayOp::TakePackets => RelayPeersView { inbox: Seq::empty(), ..self },
        }
    }
}

/// The bookkeeping `v` after the operations `ops`, in order.
pub open spec fn after_ops(v: RelayPeersView, ops: Seq<RelayOp>) -> RelayPeersView
    decreases ops.len(),
{
    if ops.len() == 0 {
        v
    } else {
        after_ops(v, ops.drop_last()).stepped(ops.last())
    }
}

/// The state of `p` in the last peer event among `ops`, if any reports `p`.
pub open spec fn latest_state(ops: Seq<RelayOp>, p: PeerId) -> Option<PeerState>
    decreases ops.len(),
{
    if ops.len() == 0 {
        None
    } else {
        match ops.last() {
            RelayOp::Apply(RelayEventView::Peer(q, st)) => if q == p {
                Some(st)
            } else {
                latest_state(ops.drop_last(), p)
            },
            _ => latest_state(ops.drop_last(), p),
        }
    }
}

/// The peer events among `ops`, in order.
pub open spec fn peer_events(ops: Seq<RelayOp>) -> Seq<(PeerId, PeerState)>
    decreases ops.len(),
{
    if ops.len() == 0 {
        Seq::empty()
    } else {
        match ops.last() {
            RelayOp::Apply(RelayEventView::Peer(q, st)) => peer_events(ops.drop_last()).push((q, st)),
            _ => peer_events(ops.drop_last()),
        }
    }
}

/// The bookkeeping of a fresh client.
pub open spec fn fresh_relay_peers() -> RelayPeersView {
    RelayPeersView {
        id: None,
        closed: false,
        connected: Set::empty(),
        peer_changes: Seq::empty(),
        inbox: Seq::empty(),
    }
}

/// A peer is connected after any history exactly when the last peer event
/// about it says it joined, or, when no event is about it, it was connected
/// before.
pub proof fn lemma_connected_follows_the_latest_event(v: RelayPeersView, ops: Seq<RelayOp>, p: PeerId)
    ensures
        after_ops(v, ops).connected.contains(p) <==> (latest_state(ops, p) == Some(
            PeerState::Connected,
        ) || (latest_state(ops, p) is None && v.connected.contains(p))),
    decreases ops.len(),
{
    if ops.len() > 0 {
        lemma_connected_follows_the_latest_event(v, ops.drop_last(), p);
    }
}

/// From a fresh client, the connected peers are the distinct peers whose
/// latest event says they joined, so their number is the count of those.
pub proof fn lemma_connected_count(ops: Seq<RelayOp>)
    ensures
        after_ops(fresh_relay_peers(), ops).connected == Set::new(
            |p: PeerId| latest_state(ops, p) == Some(PeerState::Connected),
        ),
        after_ops(fresh_relay_peers(), ops).connected.len() == Set::new(
            |p: PeerId| latest_state(ops, p) == Some(PeerState::Connected),
        ).len(),
{
    assert forall|p: PeerId| #[trigger] after_ops(fresh_relay_peers(), ops).connected.contains(p)
        <==> latest_state(ops, p) == Some(PeerState::Connected) by {
        lemma_connected_follows_the_latest_event(fresh_relay_peers(), ops, p);
    }
    assert(after_ops(fresh_relay_peers(), ops).connected =~= Set::new(
        |p: PeerId| latest_state(ops, p) == Some(PeerState::Connected),
    ));
}

/// A client is closed after any history exactly when it was closed before
/// or the history closes it: once closed, it stays closed.
pub proof fn lemma_closed_stays_closed(v: RelayPeersView, ops: Seq<RelayOp>)
    ensures
        after_ops(v, ops).closed <==> (v.closed || ops.contains(RelayOp::Close)),
        v.closed ==> after_ops(v, ops).closed,
    decreases ops.len(),
{
    if ops.len() > 0 {
        let init = ops.drop_last();
        lemma_closed_stays_closed(v, init);
        assert(ops =~= init.push(ops.last()));
        if init.contains(RelayOp::Close) {
            let k = choose|k: int| 0 <= k < init.len() && init[k] == RelayOp::Close;
            assert(ops[k] == RelayOp::Close);
        }
        if ops.last() == RelayOp::Close {
            assert(ops[ops.len() - 1] == RelayOp::Close);
        }
        if ops.contains(RelayOp::Close) {
            let k = choose|k: int| 0 <= k < ops.len() && ops[k] == RelayOp::Close;
            if k < ops.len() - 1 {
                assert(init[k] == RelayOp::Close);
            }
        }
    }
}

/// While the peer changes are not handed out, each peer event reported is
/// added to them, in order: after they were handed out, they are exactly the
/// peer events since.
pub proof fn lemma_peer_changes_since_last_call(v: RelayPeersView, ops: Seq<RelayOp>)
    requires
        !ops.contains(RelayOp::TakePeerChanges),
    ensures
        after_ops(v, ops).peer_changes == v.peer_changes + peer_events(ops),
        after_ops(v.stepped(RelayOp::TakePeerChanges), ops).peer_changes == peer_events(ops),
    decreases ops.len(),
{
    if ops.len() > 0 {
        let init = ops.drop_last();
        assert(!init.contains(RelayOp::TakePeerChanges)) by {
            if init.contains(RelayOp::TakePeerChanges) {
                let k = choose|k: int| 0 <= k < init.len() && init[k] == RelayOp::TakePeerChanges;
                assert(ops[k] == RelayOp::TakePeerChanges);
            }
        }
        assert(ops.last() != RelayOp::TakePeerChanges) by {
            assert(ops[ops.len() - 1] == ops.last());
        }
        lemma_peer_changes_since_last_call(v, init);
        let w = v.stepped(RelayOp::TakePeerChanges);
        lemma_peer_changes_since_last_call(w, init);
        match ops.last() {
            RelayOp::Apply(RelayEventView::Peer(q, st)) => {
                assert(v.peer_changes + peer_events(init).push((q, st)) =~= (v.peer_changes
                    + peer_events(init)).push((q, st)));
                assert(w.peer_changes + peer_events(init) =~= peer_events(init));
            },
            _ => {
                assert(w.peer_changes + peer_events(init) =~= peer_events(init));
            },
        }
    } else {
        assert(v.peer_changes + Seq::<(PeerId, PeerState)>::empty() =~= v.peer_changes);
    }
}

impl RelayPeers {
    /// The bookkeeping keeps each connected peer once.
    pub closed spec fn wf(&self) -> bool {
        self.connected@.no_duplicates()
    }

    /// The number of connected peers is the size of their set.
    proof fn lemma_count(&self)
        requires
            self.wf(),
        ensures
            self.connected@.len() == self@.connected.len(),
            self@.connected.finite(),
    {
        self.connected@.unique_seq_to_set();
    }

    /// A fresh client: no id, open, no peer, nothing received.
    pub fn new() -> (r: RelayPeers)
        ensures
            r.wf(),
            r@ == fresh_relay_peers(),
    {
        let r = RelayPeers {
            id: None,
            closed: false,
            connected: Vec::new(),
            peer_changes: Vec::new(),
            inbox: Vec::new(),
        };
        assert(r.connected@.to_set() =~= Set::<PeerId>::empty());
        assert(inbox_view(r.inbox@) =~= Seq::<(PeerId, Seq<u8>)>::empty());
        r
    }

    fn remove_connected(&mut self, p: PeerId)
        requires
            old(self).wf(),
        ensures
            final(self).wf(),
            final(self)@ == (RelayPeersView { connected: old(self)@.connected.remove(p), ..old(self)@ }),
    {
        let ghost old_c = self.connected@;
        let mut kept: Vec<PeerId> = Vec::new();
        let mut i: usize = 0;
        while i < self.connected.len()
            invariant
                old_c == self.connected@,
                old_c.no_duplicates(),
                i <= old_c.len(),
                kept@.no_duplicates(),
                forall|q: PeerId| kept@.contains(q) <==> (old_c.take(i as int).contains(q) && q != p),
            decreases old_c.len() - i,
        {
            let q = self.connected[i];
            let ghost before = kept@;
            let ghost pre = old_c.take(i as int);
            assert(old_c.take(i as int + 1) =~= pre.push(q));
            assert forall|x: PeerId| #[trigger] pre.push(q).contains(x) <==> (pre.contains(x) || x == q) by {
                if pre.push(q).contains(x) {
                    let k = choose|k: int| 0 <= k < pre.push(q).len() && pre.push(q)[k] == x;
                    if k < pre.len() {
                        assert(pre[k] == x);
                    }
                }
                if x == q {
                    assert(pre.push(q)[pre.len() as int] == q);
                }
                if pre.contains(x) {
                    let k = choose|k: int| 0 <= k < pre.len() && pre[k] == x;
                    assert(pre.push(q)[k] == x);
                }
            }
            if q != p {
                assert(!pre.contains(q)) by {
                    if pre.contains(q) {
                        let k = choose|k: int| 0 <= k < i && pre[k] == q;
                        assert(old_c[k] == old_c[i as int]);
                    }
                }
                assert(!before.contains(q));
                kept.push(q);
                assert forall|a: int, b: int| 0 <= a < b < kept@.len() implies kept@[a] != kept@[b] by {
                    if b == before.len() {
                        assert(before[a] == kept@[a]);
                    } else {
                        assert(before[a] != before[b]);
                    }
                }
                assert forall|x: PeerId| #[trigger] kept@.contains(x) <==> (before.contains(x) || x == q) by {
                    if kept@.contains(x) {
                        let k = choose|k: int| 0 <= k < kept@.len() && kept@[k] == x;
                        if k < before.len() {
                            assert(before[k] == x);
                        }
                    }
                    if x == q {
                        assert(kept@[before.len() as int] == q);
                    }
                    if before.contains(x) {
                        let k = choose|k: int| 0 <= k < before.len() && before[k] == x;
                        assert(kept@[k] == x);
                    }
                }
            }
            i = i + 1;
        }
        assert(old_c.take(old_c.len() as int) =~= old_c);
        self.connected = kept;
        assert(self.connected@.to_set() =~= old_c.to_set().remove(p));
    }

    /// Records what the connection reported: the id, a peer joining (kept
    /// once) or leaving, or a packet.
    pub fn apply(&mut self, e: RelayEvent)
        requires
            old(self).wf(),
        ensures
            final(self).wf(),
            final(self)@ == old(self)@.applied(e@),
            final(self)@ == old(self)@.stepped(RelayOp::Apply(e@)),
    {
        match e {
            RelayEvent::IdAssigned(id) => {
                self.id = Some(id);
            },
            RelayEvent::Peer(p, s) => {
                match s {
                    PeerState::Connected => {
                        if !self.is_connected(p) {
                            self.connected.push(p);
                            assert(self.connected@.to_set() =~= old(self).connected@.to_set().insert(p));
                        } else {
                            assert(old(self).connected@.to_set().insert(p) =~= old(self).connected@.to_set());
                        }
                    },
                    PeerState::Disconnected => {
                        self.remove_connected(p);
                    },
                }
                self.peer_changes.push((p, s));
            },
            RelayEvent::Packet(p, bytes) => {
                let ghost v = bytes@;
                self.inbox.push((p, bytes));
                assert(inbox_view(self.inbox@) =~= inbox_view(old(self).inbox@).push((p, v)));
            },
        }
    }

    fn is_connected(&self, p: PeerId) -> (r: bool)
        ensures
            r == self@.connected.contains(p),
            r == self.connected@.contains(p),
    {
        let mut i: usize = 0;
        while i < self.connected.len()
            invariant
                i <= self.connected@.len(),
                forall|k: int| 0 <= k < i ==> self.connected@[k] != p,
            decreases self.connected@.len() - i,
        {
            if self.connected[i] == p {
                assert(self.connected@[i as int] == p);
                return true;
            }
            i = i + 1;
        }
        false
    }

    /// The connection is gone: the client is closed.
    pub fn close(&mut self)
        ensures
            final(self).wf() == old(self).wf(),
            final(self)@ == (RelayPeersView { closed: true, ..old(self)@ }),
            final(self)@ == old(self)@.stepped(RelayOp::Close),
    {
        self.closed = true;
    }

    /// The id the server gave this client, if any yet.
    pub fn id(&self) -> (r: Option<PeerId>)
        ensures
            r == self@.id,
    {
        self.id
    }

    /// Hands out the peer changes since the last call, in order.
    pub fn update_peers(&mut self) -> (r: Vec<(PeerId, PeerState)>)
        ensures
            final(self).wf() == old(self).wf(),
            r@ == old(self)@.peer_changes,
            final(self)@ == (RelayPeersView { peer_changes: Seq::empty(), ..old(self)@ }),
            final(self)@ == old(self)@.stepped(RelayOp::TakePeerChanges),
    {
        let mut taken: Vec<(PeerId, PeerState)> = Vec::new();
        std::mem::swap(&mut taken, &mut self.peer_changes);
        taken
    }

    /// The number of peers connected.
    pub fn connected_peers_count(&self) -> (r: usize)
        requires
            self.wf(),
        ensures
            r == self@.connected.len(),
    {
        proof {
            self.lemma_count();
        }
        self.connected.len()
    }

    /// Hands out the packets received since the last call, in order.
    pub fn receive(&mut self) -> (r: Vec<(PeerId, Vec<u8>)>)
        ensures
            final(self).wf() == old(self).wf(),
            inbox_view(r@) == old(self)@.inbox,
            final(self)@ == (RelayPeersView { inbox: Seq::empty(), ..old(self)@ }),
            final(self)@ == old(self)@.stepped(RelayOp::TakePackets),
    {
        let mut taken: Vec<(PeerId, Vec<u8>)> = Vec::new();
        std::mem::swap(&mut taken, &mut self.inbox);
        assert(inbox_view(self.inbox@) =~= Seq::<(PeerId, Seq<u8>)>::empty());
        taken
    }

    /// Whether the connection is gone.
    pub fn is_closed(&self) -> (r: bool)
        ensures
            r == self@.closed,
    {
        self.closed
    }

    /// Whether the connection still runs: until it is closed.
    pub fn is_routine_running(&self) -> (r: bool)
        ensures
            r == !self@.closed,
    {
        !self.closed
    }
}

/// The peer changes handed out are those since the last call: after they were
/// taken, a peer change reported is the only one.
pub proof fn lemma_changes_since_last_call(v: RelayPeersView, p: PeerId, s: PeerState)
    ensures
        (RelayPeersView { peer_changes: Seq::empty(), ..v }).applied(
            RelayEventView::Peer(p, s),
        ).peer_changes == seq![(p, s)],
{
    assert(Seq::<(PeerId, PeerState)>::empty().push((p, s)) =~= seq![(p, s)]);
}

/// The packets handed out are those since the last call: after they were
/// taken, a packet received is the only one.
pub proof fn lemma_packets_since_last_call(v: RelayPeersView, p: PeerId, bytes: Seq<u8>)
    ensures
        (RelayPeersView { inbox: Seq::empty(), ..v }).applied(
            RelayEventView::Packet(p, bytes),
        ).inbox == seq![(p, bytes)],
{
    assert(Seq::<(PeerId, Seq<u8>)>::empty().push((p, bytes)) =~= seq![(p, bytes)]);
}

/// A peer that joins and then leaves is no longer connected, and the others
/// are as they were.
pub proof fn lemma_join_then_leave(v: RelayPeersView, p: PeerId)
    ensures
        v.applied(RelayEventView::Peer(p, PeerState::Connected)).applied(
            RelayEventView::Peer(p, PeerState::Disconnected),
        ).connected == v.connected.remove(p),
{
    assert(v.connected.insert(p).remove(p) =~= v.connected.remove(p));
}

/// Every room address the match connects to already has a query (`?next=2`),
/// so the relay joins it with `&relay=1`.
pub proof fn lemma_room_urls_join_the_relay(server: ServerView, room: Seq<char>)
    ensures
        relay_url_text(room_url_text(server, room)) == room_url_text(server, room) + "&relay=1"@,
{
    reveal_strlit("?next=2");
    let u = room_url_text(server, room);
    let prefix = server.protocol + "://"@ + server.host + crate::bvs::port_text(server.port) + server.path
        + room;
    assert(u == prefix + "?next=2"@);
    assert(u[prefix.len() as int] == '?');
}

/// What one read of the relay's WebSocket gave.
#[derive(Debug)]
pub enum ReadOutcome {
    /// A text message that reads as a server event.
    Event(ServerEvent),
    /// A text message that does not.
    Unreadable,
    /// The server closed the connection.
    CloseFrame,
    /// A ping, a pong or a raw frame.
    Control,
    /// A binary message, which the relay does not use.
    Binary,
    /// Nothing to read yet.
    WouldBlock,
    /// The connection was already closed.
    ConnectionClosed,
    /// Reading failed.
    Failed,
}

/// What the worker does after a read: the relay event to hand on, if any;
/// whether the connection lives on; whether the round made progress.
#[derive(Debug)]
pub struct ReadStep {
    pub event: Option<RelayEvent>,
    pub alive: bool,
    pub progressed: bool,
}

/// The step after the read `o`, in a round that made progress already or not.
pub open spec fn read_step_spec(o: ReadKind, progressed: bool) -> (Option<RelayEventView>, bool, bool) {
    match o {
        ReadKind::Event(e) => (reported(e), true, true),
        ReadKind::WouldBlock => (None, true, progressed),
        ReadKind::Ends => (None, false, true),
        ReadKind::Ignored => (None, true, true),
    }
}

/// The kinds of read that matter to the worker.
pub enum ReadKind {
    Event(ServerEvent),
    WouldBlock,
    Ends,
    Ignored,
}

/// The kind of a read.
pub open spec fn read_kind(o: ReadOutcome) -> ReadKind {
    match o {
        ReadOutcome::Event(e) => ReadKind::Event(e),
        ReadOutcome::WouldBlock => ReadKind::WouldBlock,
        ReadOutcome::CloseFrame => ReadKind::Ends,
        ReadOutcome::ConnectionClosed => ReadKind::Ends,
        ReadOutcome::Failed => ReadKind::Ends,
        ReadOutcome::Unreadable => ReadKind::Ignored,
        ReadOutcome::Control => ReadKind::Ignored,
        ReadOutcome::Binary => ReadKind::Ignored,
    }
}

/// Decides what follows a read: server events are handed on as relay events
/// (when they report one), a closed or failed connection ends, anything else
/// is skipped; only an empty read leaves the round's progress as it was.
pub fn read_step(o: ReadOutcome, progressed: bool) -> (r: ReadStep)
    ensures
        ({
            let (event, alive, prog) = read_step_spec(read_kind(o), progressed);
            &&& r.alive == alive
            &&& r.progressed == prog
            &&& match r.event {
                Some(ev) => event == Some(ev@),
                None => event is None,
            }
        }),
{
    match o {
        ReadOutcome::Event(e) => ReadStep { event: handle_event(e), alive: true, progressed: true },
        ReadOutcome::WouldBlock => ReadStep { event: None, alive: true, progressed },
        ReadOutcome::CloseFrame | ReadOutcome::ConnectionClosed | ReadOutcome::Failed => ReadStep {
            event: None,
            alive: false,
            progressed: true,
        },
        ReadOutcome::Unreadable | ReadOutcome::Control | ReadOutcome::Binary => ReadStep {
            event: None,
            alive: true,
            progressed: true,
        },
    }
}

/// What sending a text on the relay's WebSocket gave.
#[derive(Debug, Clone, Copy, PartialEq, Eq, Structural)]
pub enum SendOutcome {
    /// The text went out.
    Sent,
    /// The socket was busy: the text waits in the buffer for a flush.
    WouldBlock,
    /// Sending failed.
    Failed,
}

/// What flushing the relay's WebSocket gave.
#[derive(Debug, Clone, Copy, PartialEq, Eq, Structural)]
pub enum FlushOutcome {
    Flushed,
    WouldBlock,
    Failed,
}

/// One round of the relay worker on its connection: whether the connection
/// lives on, whether the round made progress, and whether buffered text
/// still waits for a flush.
#[derive(Debug)]
pub struct RelayRound {
    alive: bool,
    progressed: bool,
    pending_flush: bool,
}

/// The mathematical value of a worker round.
pub struct RelayRoundView {
    pub alive: bool,
    pub progressed: bool,
    pub pending_flush: bool,
}

impl View for RelayRound {
    type V = RelayRoundView;

    closed spec fn view(&self) -> RelayRoundView {
        RelayRoundView { alive: self.alive, progressed: self.progressed, pending_flush: self.pending_flush }
    }
}

/// The round after a text was sent with outcome `o`: a busy socket leaves a
/// flush pending, a failure ends the connection.
pub open spec fn after_send(r: RelayRoundView, o: SendOutcome) -> RelayRoundView {
    match o {
        SendOutcome::Sent => r,
        SendOutcome::WouldBlock => RelayRoundView { pending_flush: true, ..r },
        SendOutcome::Failed => RelayRoundView { alive: false, ..r },
    }
}

impl RelayRound {
    /// A round starts: a connection whose client closed it ends at once (the
    /// socket is closed), which counts as progress; a flush may be pending
    /// from the round before.
    pub fn start(closed: bool, pending_flush: bool) -> (r: RelayRound)
        ensures
            r@ == (RelayRoundView { alive: !closed, progressed: closed, pending_flush }),
    {
        RelayRound { alive: !closed, progressed: closed, pending_flush }
    }

    /// Whether the connection lives on.
    pub fn alive(&self) -> (r: bool)
        ensures
            r == self@.alive,
    {
        self.alive
    }

    /// Whether the round made progress.
    pub fn progressed(&self) -> (r: bool)
        ensures
            r == self@.progressed,
    {
        self.progressed
    }

    /// Whether buffered text waits for a flush.
    pub fn pending_flush(&self) -> (r: bool)
        ensures
            r == self@.pending_flush,
    {
        self.pending_flush
    }

    /// A text the client asked for was sent with outcome `o`: progress.
    pub fn on_outgoing(&mut self, o: SendOutcome)
        ensures
            final(self)@ == after_send(RelayRoundView { progressed: true, ..old(self)@ }, o),
    {
        self.progressed = true;
        self.on_send(o);
    }

    fn on_send(&mut self, o: SendOutcome)
        ensures
            final(self)@ == after_send(old(self)@, o),
    {
        match o {
            SendOutcome::Sent => {},
            SendOutcome::WouldBlock => {
                self.pending_flush = true;
            },
            SendOutcome::Failed => {
                self.alive = false;
            },
        }
    }

    /// The client is gone: the connection ends.
    pub fn on_client_gone(&mut self)
        ensures
            final(self)@ == (RelayRoundView { alive: false, progressed: true, ..old(self)@ }),
    {
        self.alive = false;
        self.progressed = true;
    }

    /// A keep-alive was sent with outcome `o`.
    pub fn on_keep_alive(&mut self, o: SendOutcome)
        ensures
            final(self)@ == after_send(old(self)@, o),
    {
        self.on_send(o);
    }

    /// A pending flush was tried with outcome `o`: progress, and the flush is
    /// done, still pending, or the connection ends.
    pub fn on_flush(&mut self, o: FlushOutcome)
        ensures
            final(self)@ == match o {
                FlushOutcome::Flushed => RelayRoundView {
                    progressed: true,
                    pending_flush: false,
                    ..old(self)@
                },
                FlushOutcome::WouldBlock => RelayRoundView { progressed: true, ..old(self)@ },
                FlushOutcome::Failed => RelayRoundView { progressed: true, alive: false, ..old(self)@ },
            },
    {
        self.progressed = true;
        match o {
            FlushOutcome::Flushed => {
                self.pending_flush = false;
            },
            FlushOutcome::WouldBlock => {},
            FlushOutcome::Failed => {
                self.alive = false;
            },
        }
    }

    /// The round ends with the read `o`: the connection lives on and the
    /// round progressed as `read_step` decides, and the relay event to hand
    /// to the client, if any, is returned.
    pub fn on_read(&mut self, o: ReadOutcome) -> (r: Option<RelayEvent>)
        ensures
            ({
                let (event, alive, prog) = read_step_spec(read_kind(o), old(self)@.progressed);
                &&& final(self)@ == (RelayRoundView { alive, progressed: prog, ..old(self)@ })
                &&& match r {
                    Some(ev) => event == Some(ev@),
                    None => event is None,
                }
            }),
    {
        let step = read_step(o, self.progressed);
        self.alive = step.alive;
        self.progressed = step.progressed;
        step.event
    }

    /// The relay event read was handed to the client or not: when the client
    /// is gone, the connection ends.
    pub fn on_delivery(&mut self, delivered: bool)
        ensures
            final(self)@ == (RelayRoundView { alive: old(self)@.alive && delivered, ..old(self)@ }),
    {
        self.alive = self.alive && delivered;
    }
}

/// What one poll of the match takes from a relay client that has its id,
/// after its peer changes: the packets, while the connection is open and a
/// peer is connected, or the news that the connection is gone.
pub struct PollPlan {
    pub receive: bool,
    pub connection_lost: bool,
}

/// Decides what a poll takes from a relay client with its id, closed or
/// not, with `connected_peers` peers connected.
pub fn poll_plan(closed: bool, connected_peers: usize) -> (r: PollPlan)
    ensures
        r.receive == (!closed && connected_peers > 0),
        r.connection_lost == closed,
{
    PollPlan { receive: !closed && connected_peers > 0, connection_lost: closed }
}

/// Whether a keep-alive is due, `elapsed_ms` after the last one: every 15 seconds.
pub fn keep_alive_due(elapsed_ms: u64) -> (r: bool)
    ensures
        r == (elapsed_ms >= 15_000),
{
    elapsed_ms >= 15_000
}

/// How long the worker sleeps after a round: a busy round resets the pause
/// to 2 ms; an idle one sleeps `idle_ms` and doubles the next pause, up to 40 ms.
pub fn next_idle_ms(busy: bool, idle_ms: u64) -> (r: u64)
    requires
        idle_ms <= 40,
    ensures
        r == if busy {
            2
        } else if idle_ms * 2 <= 40 {
            (idle_ms * 2) as u64
        } else {
            40
        },
        r <= 40,
{
    if busy {
        2
    } else if idle_ms * 2 <= 40 {
        idle_ms * 2
    } else {
        40
    }
}

} // verus!
