use dora_gst_webrtc_sink::negotiation::{OfferAction, OfferStage};
use dora_gst_webrtc_sink::peer_connection::PeerConnection;
use dora_gst_webrtc_sink::server::{
    new_client_id, SignalingDecision, SocketAction, SocketEvent, WebRtcServer,
};
use dora_gst_webrtc_sink::signaling::SignalingMessage;

type TestPeer = PeerConnection<u32, (), ()>;
type TestServer = WebRtcServer<u32, (), ()>;

fn peer(id: &str, pipeline: u32) -> TestPeer {
    PeerConnection::new(id.to_string(), pipeline, (), ())
}

fn pipeline_of(p: Option<&TestPeer>) -> Option<u32> {
    p.map(|p| p.pipeline)
}

#[test]
fn offer_starts_a_negotiation_for_the_socket_client() {
    let server: TestServer = WebRtcServer::new();
    let message = SignalingMessage::Offer { sdp: "v=0".to_string(), id: "claimed".to_string() };
    match server.handle_signaling_message("socket-client", message) {
        SignalingDecision::Negotiate { session, first } => {
            assert_eq!(session.stage(), OfferStage::LaunchPipeline);
            assert!(matches!(first, OfferAction::LaunchPipeline { .. }));
        }
        other => panic!("unexpected decision {:?}", other),
    }
}

#[test]
fn candidate_reaches_registered_peer_only() {
    let mut server: TestServer = WebRtcServer::new();
    assert!(server.add_ice_candidate("a").is_none());
    assert!(server.register_peer(peer("a", 11)).is_none());
    assert_eq!(pipeline_of(server.add_ice_candidate("a")), Some(11));
    assert_eq!(server.add_ice_candidate("a").unwrap().id, "a");
    assert!(server.add_ice_candidate("b").is_none());
    let message = SignalingMessage::Ice { candidate: "cand".to_string(), sdp_mline_index: 1, id: "a".to_string() };
    match server.handle_signaling_message("a", message) {
        SignalingDecision::AddIceCandidate { candidate, sdp_mline_index } => {
            assert_eq!(candidate, "cand");
            assert_eq!(sdp_mline_index, 1);
        }
        other => panic!("unexpected decision {:?}", other),
    }
}

#[test]
fn answer_from_client_is_dropped() {
    let server: TestServer = WebRtcServer::new();
    let message = SignalingMessage::Answer { sdp: "v=0".to_string(), id: "a".to_string() };
    assert!(matches!(server.handle_signaling_message("a", message), SignalingDecision::Unexpected));
}

#[test]
fn renegotiation_replaces_the_peer() {
    let mut server: TestServer = WebRtcServer::new();
    server.register_peer(peer("a", 1));
    assert_eq!(server.register_peer(peer("a", 2)).map(|p| p.pipeline), Some(1));
    assert_eq!(server.peers().len(), 1);
    assert_eq!(pipeline_of(server.add_ice_candidate("a")), Some(2));
}

#[test]
fn peers_are_stored_under_their_own_ids() {
    let mut server: TestServer = WebRtcServer::new();
    server.register_peer(peer("b", 2));
    server.register_peer(peer("a", 1));
    let table = server.peers();
    for i in 0..table.len() {
        let (id, p) = table.entry(i);
        assert_eq!(*id, p.id);
    }
}

#[test]
fn socket_events_drive_the_client() {
    let mut server: TestServer = WebRtcServer::new();
    server.register_peer(peer("a", 5));
    server.register_peer(peer("b", 6));
    assert!(matches!(server.on_socket_event("a", SocketEvent::Text("{}".to_string())), SocketAction::HandleText(t) if t == "{}"));
    assert!(matches!(server.on_socket_event("a", SocketEvent::NonText), SocketAction::Skip));
    assert_eq!(server.peers().len(), 2);
    assert!(matches!(server.on_socket_event("a", SocketEvent::Closed), SocketAction::Disconnect(Some(p)) if p.pipeline == 5 && p.id == "a"));
    assert!(server.add_ice_candidate("a").is_none());
    assert_eq!(pipeline_of(server.add_ice_candidate("b")), Some(6));
    assert!(matches!(server.on_socket_event("a", SocketEvent::Error), SocketAction::Disconnect(None)));
    assert!(matches!(server.on_socket_event("b", SocketEvent::Error), SocketAction::Disconnect(Some(p)) if p.pipeline == 6));
    assert_eq!(server.peers().len(), 0);
}

#[test]
fn removing_unknown_peer_finds_nothing() {
    let mut server: TestServer = WebRtcServer::new();
    assert!(server.remove_peer("nobody").is_none());
}

#[test]
fn frames_go_to_each_peer_once() {
    let mut server: TestServer = WebRtcServer::new();
    assert!(server.frame_targets().is_empty());
    server.register_peer(peer("a", 1));
    server.register_peer(peer("b", 2));
    server.register_peer(peer("c", 3));
    server.register_peer(peer("a", 4));
    server.remove_peer("b");
    let targets: Vec<(String, u32)> = server.frame_targets().into_iter().map(|p| (p.id.clone(), p.pipeline)).collect();
    assert_eq!(targets, vec![("a".to_string(), 4), ("c".to_string(), 3)]);
}

#[test]
fn client_ids_are_random_v4_uuids() {
    let id = new_client_id();
    assert_eq!(id.len(), 36);
    for (i, c) in id.chars().enumerate() {
        if i == 8 || i == 13 || i == 18 || i == 23 {
            assert_eq!(c, '-');
        } else {
            assert!(c.is_ascii_digit() || ('a'..='f').contains(&c), "{}", id);
        }
    }
    assert_eq!(id.chars().nth(14), Some('4'));
    assert!(matches!(id.chars().nth(19), Some('8' | '9' | 'a' | 'b')));
    assert_ne!(id, new_client_id());
}
