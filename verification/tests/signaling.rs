use dora_gst_webrtc_sink::signaling::{MessageRoute, SignalingMessage};

#[test]
fn offer_routes_to_negotiation_with_its_sdp() {
    let message = SignalingMessage::Offer { sdp: "v=0 offer".to_string(), id: "someone-else".to_string() };
    match message.route() {
        MessageRoute::Negotiate { sdp } => assert_eq!(sdp, "v=0 offer"),
        other => panic!("unexpected route {:?}", other),
    }
}

#[test]
fn ice_routes_to_candidate_with_its_line_index() {
    let message = SignalingMessage::Ice {
        candidate: "candidate:1 1 UDP 2122252543 10.0.0.2 50000 typ host".to_string(),
        sdp_mline_index: 3,
        id: "c".to_string(),
    };
    match message.route() {
        MessageRoute::AddIceCandidate { candidate, sdp_mline_index } => {
            assert_eq!(candidate, "candidate:1 1 UDP 2122252543 10.0.0.2 50000 typ host");
            assert_eq!(sdp_mline_index, 3);
        }
        other => panic!("unexpected route {:?}", other),
    }
}

#[test]
fn answer_from_client_is_unexpected() {
    let message = SignalingMessage::Answer { sdp: "v=0".to_string(), id: "c".to_string() };
    assert!(matches!(message.route(), MessageRoute::Unexpected));
}

#[test]
fn answer_message_is_addressed_to_the_peer() {
    match SignalingMessage::answer("v=0 answer".to_string(), "peer-7") {
        SignalingMessage::Answer { sdp, id } => {
            assert_eq!(sdp, "v=0 answer");
            assert_eq!(id, "peer-7");
        }
        other => panic!("unexpected message {:?}", other),
    }
}

#[test]
fn ice_message_carries_candidate_index_and_peer() {
    match SignalingMessage::ice("cand".to_string(), 0, "peer-8") {
        SignalingMessage::Ice { candidate, sdp_mline_index, id } => {
            assert_eq!(candidate, "cand");
            assert_eq!(sdp_mline_index, 0);
            assert_eq!(id, "peer-8");
        }
        other => panic!("unexpected message {:?}", other),
    }
}
