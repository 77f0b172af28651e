use dora_gst_webrtc_sink::media::pipeline_description;
use dora_gst_webrtc_sink::negotiation::{
    AnswerPlan, OfferAction, OfferSession, OfferStage, PipelineState, StepOutcome,
};
use dora_gst_webrtc_sink::signaling::SignalingMessage;

fn start() -> (OfferSession, OfferAction) {
    OfferSession::start("peer-1", "v=0 offer".to_string())
}

/// Drives a session through `outcomes`, returning the actions handed out.
fn drive(outcomes: Vec<StepOutcome>) -> (OfferSession, Vec<OfferAction>) {
    let (mut session, first) = start();
    let mut actions = vec![first];
    for outcome in outcomes {
        assert!(OfferSession::accepts(session.stage(), &outcome));
        actions.push(session.advance(outcome));
    }
    (session, actions)
}

fn done(n: usize) -> Vec<StepOutcome> {
    (0..n).map(|_| StepOutcome::Done).collect()
}

fn failure_after(prefix: usize, outcome: StepOutcome) -> String {
    let mut outcomes = done(prefix);
    outcomes.push(outcome);
    let (session, actions) = drive(outcomes);
    assert_eq!(session.stage(), OfferStage::Failed);
    assert!(session.is_over());
    match actions.last().unwrap() {
        OfferAction::Fail { error } => error.clone(),
        other => panic!("expected failure, got {:?}", other),
    }
}

#[test]
fn negotiation_starts_by_launching_the_pipeline() {
    let (session, action) = start();
    assert_eq!(session.stage(), OfferStage::LaunchPipeline);
    match action {
        OfferAction::LaunchPipeline { description } => assert_eq!(description, pipeline_description()),
        other => panic!("unexpected action {:?}", other),
    }
}

#[test]
fn successful_negotiation_sends_the_answer() {
    let mut outcomes = done(16);
    outcomes.push(StepOutcome::Answered(AnswerPlan::UseAnswer));
    outcomes.push(StepOutcome::Done);
    outcomes.push(StepOutcome::Description("v=0 answer".to_string()));
    outcomes.push(StepOutcome::Done);
    let (session, actions) = drive(outcomes);
    assert_eq!(session.stage(), OfferStage::Finished);
    assert_eq!(actions.len(), 21);
    assert!(matches!(&actions[1], OfferAction::WatchBus));
    match &actions[2] {
        OfferAction::ConfigureWebrtcbin { element, stun_server } => {
            assert_eq!(element, "webrtc");
            assert_eq!(stun_server, "stun://stun.l.google.com:19302");
        }
        other => panic!("unexpected action {:?}", other),
    }
    assert!(matches!(&actions[3], OfferAction::LookupWebrtcbin { name } if name == "webrtc"));
    assert!(matches!(&actions[4], OfferAction::LookupAppsrc { name } if name == "videosrc"));
    assert!(matches!(&actions[5], OfferAction::SetState { state: PipelineState::Ready }));
    assert!(matches!(&actions[6], OfferAction::AwaitState { timeout_secs: 5 }));
    assert!(matches!(&actions[7], OfferAction::ParseSdp { sdp } if sdp == "v=0 offer"));
    assert!(matches!(&actions[8], OfferAction::SetRemoteDescription));
    assert!(matches!(&actions[9], OfferAction::Pause { millis: 100 }));
    assert!(matches!(&actions[10], OfferAction::RegisterPeer { peer_id } if peer_id == "peer-1"));
    assert!(matches!(&actions[11], OfferAction::SetState { state: PipelineState::Playing }));
    assert!(matches!(&actions[12], OfferAction::AwaitState { timeout_secs: 5 }));
    assert!(matches!(&actions[13], OfferAction::Pause { millis: 200 }));
    match &actions[14] {
        OfferAction::SendFrame { frame } => {
            assert_eq!(frame.len(), 640 * 480 * 3);
            assert!(frame.iter().all(|b| *b == 0));
        }
        other => panic!("unexpected action {:?}", other),
    }
    assert!(matches!(&actions[15], OfferAction::WatchPads));
    assert!(matches!(&actions[16], OfferAction::CreateAnswer));
    assert!(matches!(&actions[17], OfferAction::Pause { millis: 100 }));
    assert!(matches!(&actions[18], OfferAction::SetLocalDescription));
    match &actions[19] {
        OfferAction::Send { message: SignalingMessage::Answer { sdp, id } } => {
            assert_eq!(sdp, "v=0 answer");
            assert_eq!(id, "peer-1");
        }
        other => panic!("unexpected action {:?}", other),
    }
    assert!(matches!(&actions[20], OfferAction::Finish));
}

#[test]
fn answer_falls_back_to_local_description() {
    let mut outcomes = done(16);
    outcomes.push(StepOutcome::Answered(AnswerPlan::UseLocalDescription));
    outcomes.push(StepOutcome::Done);
    outcomes.push(StepOutcome::Description("v=0 local".to_string()));
    let (session, actions) = drive(outcomes);
    assert_eq!(session.stage(), OfferStage::SendAnswer);
    assert!(matches!(&actions[18], OfferAction::ReadLocalDescription));
    assert!(matches!(&actions[19],
        OfferAction::Send { message: SignalingMessage::Answer { sdp, id } } if sdp == "v=0 local" && id == "peer-1"));
}

#[test]
fn missing_local_description_finishes_without_answer() {
    let mut outcomes = done(16);
    outcomes.push(StepOutcome::Answered(AnswerPlan::UseLocalDescription));
    outcomes.push(StepOutcome::Done);
    outcomes.push(StepOutcome::Missing);
    let (session, actions) = drive(outcomes);
    assert_eq!(session.stage(), OfferStage::Finished);
    assert!(matches!(actions.last().unwrap(), OfferAction::Finish));
}

#[test]
fn no_reply_to_answer_request_finishes() {
    let mut outcomes = done(16);
    outcomes.push(StepOutcome::Answered(AnswerPlan::NoAnswer));
    outcomes.push(StepOutcome::Done);
    let (session, actions) = drive(outcomes);
    assert_eq!(session.stage(), OfferStage::Finished);
    assert!(matches!(actions.last().unwrap(), OfferAction::Finish));
}

#[test]
fn failures_carry_their_errors() {
    assert_eq!(failure_after(0, StepOutcome::Error("no element \"appsrc\"".to_string())), "no element \"appsrc\"");
    assert_eq!(failure_after(0, StepOutcome::Missing), "Failed to create pipeline");
    assert_eq!(failure_after(2, StepOutcome::Missing), "Failed to get webrtcbin");
    assert_eq!(failure_after(3, StepOutcome::Missing), "Failed to get webrtcbin");
    assert_eq!(failure_after(4, StepOutcome::Missing), "Failed to get appsrc");
    assert_eq!(failure_after(5, StepOutcome::Error("state change failed".to_string())), "state change failed");
    assert_eq!(failure_after(6, StepOutcome::Missing), "Failed to set pipeline to READY state");
    assert_eq!(failure_after(7, StepOutcome::Missing), "Failed to parse SDP");
    assert_eq!(
        failure_after(8, StepOutcome::Rejected("bad sdp".to_string())),
        "Failed to set remote description: bad sdp"
    );
    assert_eq!(failure_after(8, StepOutcome::Missing), "Failed to set remote description");
    assert_eq!(failure_after(11, StepOutcome::Error("cannot play".to_string())), "cannot play");
}

#[test]
fn waiting_for_playing_only_warns() {
    let mut outcomes = done(12);
    outcomes.push(StepOutcome::Missing);
    let (session, actions) = drive(outcomes);
    assert_eq!(session.stage(), OfferStage::SettlePlaying);
    assert!(matches!(actions.last().unwrap(), OfferAction::Pause { millis: 200 }));
}

#[test]
fn peer_is_registered_only_after_remote_description() {
    let (session, actions) = drive(done(10));
    assert_eq!(session.stage(), OfferStage::RegisterPeer);
    let registered_at = actions.iter().position(|a| matches!(a, OfferAction::RegisterPeer { .. })).unwrap();
    let remote_at = actions.iter().position(|a| matches!(a, OfferAction::SetRemoteDescription)).unwrap();
    assert!(remote_at < registered_at);
    let (failed, actions) = drive({
        let mut o = done(8);
        o.push(StepOutcome::Missing);
        o
    });
    assert_eq!(failed.stage(), OfferStage::Failed);
    assert!(!actions.iter().any(|a| matches!(a, OfferAction::RegisterPeer { .. })));
}

#[test]
fn finished_and_failed_accept_nothing() {
    for stage in [OfferStage::Finished, OfferStage::Failed] {
        assert!(!OfferSession::accepts(stage, &StepOutcome::Done));
        assert!(!OfferSession::accepts(stage, &StepOutcome::Missing));
        assert!(!OfferSession::accepts(stage, &StepOutcome::Error("e".to_string())));
    }
    assert!(!OfferSession::accepts(OfferStage::WatchBus, &StepOutcome::Missing));
    assert!(OfferSession::accepts(OfferStage::CreateAnswer, &StepOutcome::Answered(AnswerPlan::NoAnswer)));
}
