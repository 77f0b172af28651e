//! The signaling server: its clients, their peers and their messages.

use vstd::prelude::*;
use crate::negotiation::{is_action_for, OfferAction, OfferSession, OfferStage};
use crate::peer_connection::PeerConnection;
use crate::peers::PeerTable;
use crate::signaling::{route_of, MessageRoute, SignalingMessage};

verus! {

/// Whether `c` is a digit of lower-case hexadecimal.
pub open spec fn is_lower_hex_digit(c: char) -> bool {
    ('0' as u32 <= c as u32 && c as u32 <= '9' as u32) || ('a' as u32 <= c as u32 && c as u32
        <= 'f' as u32)
}

/// Whether `text` is a random (version 4) UUID in its hyphenated lower-case
/// form: five groups of 8, 4, 4, 4 and 12 hexadecimal digits, a version digit
/// of 4 and a variant digit of 8, 9, a or b.
pub open spec fn is_random_uuid_text(text: Seq<char>) -> bool {
    &&& text.len() == 36
    &&& forall|i: int|
        0 <= i < 36 ==> if i == 8 || i == 13 || i == 18 || i == 23 {
            #[trigger] text[i] == '-'
        } else {
            is_lower_hex_digit(text[i])
        }
    &&& text[14] == '4'
    &&& (text[19] == '8' || text[19] == '9' || text[19] == 'a' || text[19] == 'b')
}

/// A fresh random UUID, as text.
///
/// Calls `uuid::Uuid::new_v4` and formats the result with `Display`, which
/// writes the hyphenated lower-case form. `new_v4` sets the version bits to 4
/// and the variant bits to 10, which puts `4` at index 14 and one of `8`, `9`,
/// `a`, `b` at index 19. The other digits are random: nothing more is said of
/// them.
#[verifier::external_body]
fn random_uuid_text() -> (text: String)
    ensures
        is_random_uuid_text(text@),
{
    uuid::Uuid::new_v4().to_string()
}

/// A fresh id for a client that connects to the signaling socket.
pub fn new_client_id() -> (id: String)
    ensures
        is_random_uuid_text(id@),
{
    random_uuid_text()
}

/// What the server does with a message that a client sent.
#[derive(Debug)]
pub enum SignalingDecision {
    /// Negotiate an answer to the client's offer, starting with this step.
    Negotiate { session: OfferSession, first: OfferAction },
    /// Hand the candidate to the WebRTC element of the client's peer, if the
    /// client has one.
    AddIceCandidate { candidate: String, sdp_mline_index: u32 },
    /// The message is not one a client sends; it is dropped with a warning.
    Unexpected,
}

/// An event on a client's signaling socket.
#[derive(Debug)]
pub enum SocketEvent {
    /// A text message arrived.
    Text(String),
    /// A message that is not text arrived.
    NonText,
    /// Receiving failed.
    Error,
    /// The client closed the socket.
    Closed,
}

/// What the server does after an event on a client's socket.
#[derive(Debug)]
pub enum SocketAction<P> {
    /// Parse the text as a signaling message and handle it.
    HandleText(String),
    /// Wait for the next message.
    Skip,
    /// Stop reading the socket. The client's peer, if it had one, has left
    /// the table and its pipeline is to be stopped.
    Disconnect(Option<P>),
}

/// Whether each peer in `peers` is stored under its own client id.
pub open spec fn keyed_by_own_id<M, E, S>(peers: Map<Seq<char>, PeerConnection<M, E, S>>) -> bool {
    forall|k: Seq<char>| #[trigger] peers.contains_key(k) ==> peers[k].id@ == k
}

/// A signaling server: the peers of the clients that negotiated a session,
/// each stored under its own client id.
pub struct WebRtcServer<M, E, S> {
    peers: PeerTable<PeerConnection<M, E, S>>,
}

impl<M, E, S> View for WebRtcServer<M, E, S> {
    type V = Map<Seq<char>, PeerConnection<M, E, S>>;

    /// The peer of each client that holds a media session, by client id.
    closed spec fn view(&self) -> Map<Seq<char>, PeerConnection<M, E, S>> {
        self.peers@
    }
}

impl<M, E, S> WebRtcServer<M, E, S> {
    /// The server's internal invariant: each peer is stored under its own id.
    #[verifier::type_invariant]
    closed spec fn peers_keyed_by_id(&self) -> bool {
        keyed_by_own_id(self.peers@)
    }

    /// The ids of the clients that hold a media session, in the order in
    /// which they first registered a peer.
    pub closed spec fn client_ids(&self) -> Seq<Seq<char>> {
        self.peers.ids()
    }

    /// A server without peers.
    pub fn new() -> (server: Self)
        ensures
            server@ == Map::<Seq<char>, PeerConnection<M, E, S>>::empty(),
            server.client_ids() == Seq::<Seq<char>>::empty(),
            keyed_by_own_id(server@),
    {
        let server = WebRtcServer { peers: PeerTable::new() };
        assert(server.client_ids() =~= Seq::<Seq<char>>::empty());
        server
    }

    /// The table of peers.
    pub fn peers(&self) -> (table: &PeerTable<PeerConnection<M, E, S>>)
        ensures
            table@ == self@,
            table.ids() == self.client_ids(),
            keyed_by_own_id(table@),
    {
        proof {
            use_type_invariant(self);
        }
        &self.peers
    }

    /// Decides what to do with a message that the client `peer_id` sent: an
    /// offer starts a negotiation for that client, a candidate goes to that
    /// client's peer, an answer is unexpected.
    pub fn handle_signaling_message(&self, peer_id: &str, message: SignalingMessage) -> (decision:
        SignalingDecision)
        ensures
            match route_of(message) {
                MessageRoute::Negotiate { sdp } => decision matches SignalingDecision::Negotiate {
                    session,
                    first,
                } && session@.peer_id == peer_id@ && session@.sdp == sdp@ && session@.stage
                    == OfferStage::LaunchPipeline && session@.answer_sdp == Seq::<char>::empty()
                    && session@.failure == Seq::<char>::empty() && is_action_for(first, session@),
                MessageRoute::AddIceCandidate { candidate, sdp_mline_index } => decision
                    == SignalingDecision::AddIceCandidate { candidate, sdp_mline_index },
                MessageRoute::Unexpected => decision is Unexpected,
            },
    {
        match message.route() {
            MessageRoute::Negotiate { sdp } => {
                let (session, first) = OfferSession::start(peer_id, sdp);
                SignalingDecision::Negotiate { session, first }
            },
            MessageRoute::AddIceCandidate { candidate, sdp_mline_index } => {
                SignalingDecision::AddIceCandidate { candidate, sdp_mline_index }
            },
            MessageRoute::Unexpected => SignalingDecision::Unexpected,
        }
    }

    /// The peer to whose WebRTC element a candidate of the client `peer_id`
    /// goes; without a peer the candidate is dropped with a warning.
    pub fn add_ice_candidate(&self, peer_id: &str) -> (peer: Option<&PeerConnection<M, E, S>>)
        ensures
            peer is Some == self@.contains_key(peer_id@),
            peer matches Some(p) ==> *p == self@[peer_id@] && p.id@ == peer_id@,
    {
        proof {
            use_type_invariant(self);
        }
        self.peers.get(peer_id)
    }

    /// Enters `peer` into the table under its own client id. A peer that the
    /// client had before is replaced and returned.
    pub fn register_peer(&mut self, peer: PeerConnection<M, E, S>) -> (previous: Option<
        PeerConnection<M, E, S>,
    >)
        ensures
            final(self)@ == old(self)@.insert(peer.id@, peer),
            keyed_by_own_id(final(self)@),
            previous is Some == old(self)@.contains_key(peer.id@),
            previous matches Some(p) ==> p == old(self)@[peer.id@] && p.id@ == peer.id@,
            old(self)@.contains_key(peer.id@) ==> final(self).client_ids() == old(
                self,
            ).client_ids(),
            !old(self)@.contains_key(peer.id@) ==> final(self).client_ids() == old(
                self,
            ).client_ids().push(peer.id@),
    {
        proof {
            use_type_invariant(&*self);
        }
        let id = peer.id.clone();
        let mut taken = WebRtcServer::new();
        std::mem::swap(self, &mut taken);
        let WebRtcServer { mut peers } = taken;
        let previous = peers.insert(id, peer);
        *self = WebRtcServer { peers };
        previous
    }

    /// Takes the peer of the client `peer_id` out of the table and returns
    /// it, so that its pipeline can be stopped.
    pub fn remove_peer(&mut self, peer_id: &str) -> (removed: Option<PeerConnection<M, E, S>>)
        ensures
            final(self)@ == old(self)@.remove(peer_id@),
            keyed_by_own_id(final(self)@),
            removed is Some == old(self)@.contains_key(peer_id@),
            removed matches Some(p) ==> p == old(self)@[peer_id@] && p.id@ == peer_id@,
    {
        proof {
            use_type_invariant(&*self);
        }
        let mut taken = WebRtcServer::new();
        std::mem::swap(self, &mut taken);
        let WebRtcServer { mut peers } = taken;
        let removed = peers.remove(peer_id);
        *self = WebRtcServer { peers };
        removed
    }

    /// Decides what to do after an event on the socket of the client
    /// `peer_id`: text is handled, other messages are skipped, and an error or
    /// the end of the socket disconnects the client, whose peer leaves the
    /// table.
    pub fn on_socket_event(&mut self, peer_id: &str, event: SocketEvent) -> (action: SocketAction<
        PeerConnection<M, E, S>,
    >)
        ensures
            keyed_by_own_id(final(self)@),
            match event {
                SocketEvent::Text(text) => action == SocketAction::<PeerConnection<M, E, S>>::HandleText(text)
                    && final(self)@ == old(self)@,
                SocketEvent::NonText => action is Skip && final(self)@ == old(self)@,
                _ => action matches SocketAction::Disconnect(removed) && final(self)@ == old(
                    self,
                )@.remove(peer_id@) && removed is Some == old(self)@.contains_key(peer_id@) && (
                removed matches Some(p) ==> p == old(self)@[peer_id@] && p.id@ == peer_id@),
            },
    {
        proof {
            use_type_invariant(&*self);
        }
        match event {
            SocketEvent::Text(text) => SocketAction::HandleText(text),
            SocketEvent::NonText => SocketAction::Skip,
            _ => SocketAction::Disconnect(self.remove_peer(peer_id)),
        }
    }

    /// The peers that a frame is pushed to: each peer in the table, once, in
    /// the order of the table.
    pub fn frame_targets(&self) -> (targets: Vec<&PeerConnection<M, E, S>>)
        ensures
            targets@.len() == self.client_ids().len(),
            targets@.len() == self@.len(),
            forall|i: int|
                0 <= i < targets@.len() ==> *#[trigger] targets@[i] == self@[self.client_ids()[i]]
                    && targets@[i].id@ == self.client_ids()[i],
            forall|k: Seq<char>| #[trigger] self@.contains_key(k) <==> self.client_ids().contains(k),
            self.client_ids().no_duplicates(),
    {
        proof {
            use_type_invariant(self);
            use_type_invariant(&self.peers);
            self.peers.lemma_view();
            self.peers.lemma_ids_no_duplicates();
        }
        let n: usize = self.peers.len();
        let mut targets: Vec<&PeerConnection<M, E, S>> = Vec::with_capacity(n);
        let mut i: usize = 0;
        while i < n
            invariant
                self.peers.well_formed(),
                keyed_by_own_id(self@),
                forall|k: Seq<char>| #[trigger] self@.contains_key(k) <==> self.client_ids().contains(k),
                n == self.client_ids().len(),
                i <= n,
                targets@.len() == i,
                forall|j: int|
                    0 <= j < i ==> *#[trigger] targets@[j] == self@[self.client_ids()[j]]
                        && targets@[j].id@ == self.client_ids()[j],
            decreases n - i,
        {
            let (_, peer) = self.peers.entry(i);
            proof {
                assert(self.client_ids()[i as int] == self.peers.id_at(i as int));
                assert(self.client_ids().contains(self.client_ids()[i as int]));
            }
            targets.push(peer);
            i += 1;
        }
        targets
    }
}

/// A peer registered for a client is the one that a candidate of that
/// client reaches, and the peers of the other clients stay as they were.
pub proof fn lemma_registered_peer_is_found<P>(
    peers: Map<Seq<char>, P>,
    peer_id: Seq<char>,
    peer: P,
    other: Seq<char>,
)
    ensures
        peers.insert(peer_id, peer).contains_key(peer_id),
        peers.insert(peer_id, peer)[peer_id] == peer,
        other != peer_id ==> (peers.insert(peer_id, peer).contains_key(other) == peers.contains_key(
            other,
        ) && (peers.contains_key(other) ==> peers.insert(peer_id, peer)[other] == peers[other])),
{
}

/// A client that disconnected has no peer left: a later candidate of that
/// client reaches no peer, a second disconnection finds nothing to stop, and
/// the peers of the other clients stay as they were.
pub proof fn lemma_disconnected_client_has_no_peer<P>(
    peers: Map<Seq<char>, P>,
    peer_id: Seq<char>,
    other: Seq<char>,
)
    ensures
        !peers.remove(peer_id).contains_key(peer_id),
        peers.remove(peer_id).remove(peer_id) == peers.remove(peer_id),
        other != peer_id ==> (peers.remove(peer_id).contains_key(other) == peers.contains_key(other)
            && (peers.contains_key(other) ==> peers.remove(peer_id)[other] == peers[other])),
{
    assert(peers.remove(peer_id).remove(peer_id) =~= peers.remove(peer_id));
}

/// Registering and removing peers keeps each peer stored under its own
/// client id, whatever the peer and whatever the id removed.
pub proof fn lemma_keyed_by_own_id_kept<M, E, S>(
    peers: Map<Seq<char>, PeerConnection<M, E, S>>,
    peer: PeerConnection<M, E, S>,
    peer_id: Seq<char>,
)
    requires
        keyed_by_own_id(peers),
    ensures
        keyed_by_own_id(peers.insert(peer.id@, peer)),
        keyed_by_own_id(peers.remove(peer_id)),
{
}

/// A client that negotiates again keeps a single peer: the new one replaces
/// the old and the number of peers stays the same; a new client adds one.
pub proof fn lemma_one_peer_per_client<P>(peers: Map<Seq<char>, P>, peer_id: Seq<char>, peer: P)
    requires
        peers.dom().finite(),
    ensures
        peers.contains_key(peer_id) ==> peers.insert(peer_id, peer).len() == peers.len(),
        !peers.contains_key(peer_id) ==> peers.insert(peer_id, peer).len() == peers.len() + 1,
{
}

} // verus!
