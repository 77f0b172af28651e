//! Messages exchanged with clients over the signaling socket.

use vstd::prelude::*;

verus! {

/// A signaling message, as sent by a client or by the server.
#[derive(Debug)]
pub enum SignalingMessage {
    /// A session description offered by a client.
    Offer { sdp: String, id: String },
    /// The session description with which the server answers an offer.
    Answer { sdp: String, id: String },
    /// An ICE candidate for the media line with the given index.
    Ice { candidate: String, sdp_mline_index: u32, id: String },
}

/// What the server does with a message that a client sent.
#[derive(Debug)]
pub enum MessageRoute {
    /// Negotiate a media session that answers the offered description.
    Negotiate { sdp: String },
    /// Hand the candidate to the WebRTC element of the client's peer.
    AddIceCandidate { candidate: String, sdp_mline_index: u32 },
    /// A message that a client is not expected to send: it is dropped.
    Unexpected,
}

/// The route of a message received from a client.
pub open spec fn route_of(message: SignalingMessage) -> MessageRoute {
    match message {
        SignalingMessage::Offer { sdp, .. } => MessageRoute::Negotiate { sdp },
        SignalingMessage::Ice { candidate, sdp_mline_index, .. } => MessageRoute::AddIceCandidate {
            candidate,
            sdp_mline_index,
        },
        SignalingMessage::Answer { .. } => MessageRoute::Unexpected,
    }
}

/// Every candidate a client sends, on any media line, goes to the client's
/// peer unchanged; every offer is negotiated with its own description; only
/// an answer is unexpected.
pub proof fn lemma_route_keeps_message_content(
    candidate: String,
    sdp_mline_index: u32,
    sdp: String,
    id: String,
)
    ensures
        route_of(SignalingMessage::Ice { candidate, sdp_mline_index, id }) matches MessageRoute::AddIceCandidate { candidate: c, sdp_mline_index: m }
            && c == candidate && m == sdp_mline_index,
        route_of(SignalingMessage::Offer { sdp, id }) matches MessageRoute::Negotiate { sdp: s }
            && s == sdp,
        route_of(SignalingMessage::Answer { sdp, id }) is Unexpected,
{
}

impl SignalingMessage {
    /// Decides what the server does with this message from a client.
    ///
    /// The `id` that a client writes into its message is not consulted: the
    /// server always acts for the client on whose socket the message came.
    pub fn route(self) -> (route: MessageRoute)
        ensures
            route == route_of(self),
            self matches SignalingMessage::Offer { sdp, .. } ==> route
                == (MessageRoute::Negotiate { sdp }),
            self matches SignalingMessage::Ice { candidate, sdp_mline_index, .. } ==> route
                == (MessageRoute::AddIceCandidate { candidate, sdp_mline_index }),
            self is Answer ==> route is Unexpected,
    {
        match self {
            SignalingMessage::Offer { sdp, .. } => MessageRoute::Negotiate { sdp },
            SignalingMessage::Ice { candidate, sdp_mline_index, .. } => MessageRoute::AddIceCandidate {
                candidate,
                sdp_mline_index,
            },
            SignalingMessage::Answer { .. } => MessageRoute::Unexpected,
        }
    }

    /// The answer that the server sends to the client `peer_id`.
    pub fn answer(sdp: String, peer_id: &str) -> (message: SignalingMessage)
        ensures
            message matches SignalingMessage::Answer { sdp: s, id } && s == sdp && id@ == peer_id@,
    {
        SignalingMessage::Answer { sdp, id: peer_id.to_owned() }
    }

    /// The message that forwards a local ICE candidate to the client `peer_id`.
    pub fn ice(candidate: String, sdp_mline_index: u32, peer_id: &str) -> (message: SignalingMessage)
        ensures
            message matches SignalingMessage::Ice { candidate: c, sdp_mline_index: m, id }
                && c == candidate && m == sdp_mline_index && id@ == peer_id@,
    {
        SignalingMessage::Ice { candidate, sdp_mline_index, id: peer_id.to_owned() }
    }
}

} // verus!
