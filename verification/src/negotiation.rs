//! Answering a client's offer, step by step.
//!
//! A negotiation is a sequence of steps of media work. The session below
//! decides, from the outcome of each step, which step comes next; the caller
//! performs each step it is handed and reports how it went. Each failure ends
//! the negotiation with the error that the client's socket handler logs.

use vstd::prelude::*;
use vstd::string::*;
use crate::media::{
    appsrc_element, appsrc_element_spec, blank_frame, blank_frame_spec, pipeline_description,
    pipeline_description_spec, stun_server, stun_server_spec, webrtc_element, webrtc_element_spec,
    STATE_TIMEOUT_SECS,
};
use crate::signaling::SignalingMessage;

verus! {

/// What the reply to the request for an answer offers.
#[derive(Debug, Clone, Copy, PartialEq, Eq, Structural)]
pub enum AnswerPlan {
    /// The reply holds an answer: it becomes the local description and is sent.
    UseAnswer,
    /// The reply holds no answer: the element's local description, if it has
    /// one, is sent instead.
    UseLocalDescription,
    /// There was no reply: nothing is sent.
    NoAnswer,
}

/// The step that a negotiation waits on.
#[derive(Debug, Clone, Copy, PartialEq, Eq, Structural)]
pub enum OfferStage {
    /// Build the peer's pipeline from its launch description.
    LaunchPipeline,
    /// Start watching the pipeline's bus.
    WatchBus,
    /// Point the WebRTC element at the STUN server and connect its signals.
    ConfigureWebrtcbin,
    /// Look up the WebRTC element.
    LookupWebrtcbin,
    /// Look up the frame source and make it a live source in time format.
    LookupAppsrc,
    /// Ask the pipeline to become ready.
    SetReady,
    /// Wait until the pipeline is ready.
    AwaitReady,
    /// Parse the offered session description.
    ParseSdp,
    /// Set the offer as the remote description and wait for the reply.
    SetRemoteDescription,
    /// Let the remote description settle.
    SettleRemote,
    /// Enter the peer into the table of peers that receive frames.
    RegisterPeer,
    /// Ask the pipeline to play.
    SetPlaying,
    /// Wait until the pipeline plays; a failure here is only reported.
    AwaitPlaying,
    /// Let the pipeline start.
    SettlePlaying,
    /// Push a blank frame to every peer.
    SendTestFrame,
    /// Watch the WebRTC element for new pads.
    WatchPads,
    /// Ask the WebRTC element for an answer and wait for the reply.
    CreateAnswer,
    /// Let the answer settle, then act on the reply as planned.
    SettleAnswer(AnswerPlan),
    /// Make the answer the local description; report its SDP text.
    SetLocalDescription,
    /// Read the element's local description; report its SDP text, if any.
    ReadLocalDescription,
    /// Send the answer to the client.
    SendAnswer,
    /// The negotiation is over and succeeded.
    Finished,
    /// The negotiation is over and failed.
    Failed,
}

/// How a step went, as reported by whoever performed it.
#[derive(Debug)]
pub enum StepOutcome {
    /// The step succeeded.
    Done,
    /// The step's call failed with this error.
    Error(String),
    /// What the step needed is not there: an element or reply is missing, a
    /// cast, a parse or a wait did not succeed.
    Missing,
    /// The remote description was refused with this error.
    Rejected(String),
    /// The request for an answer was replied to as described.
    Answered(AnswerPlan),
    /// The step produced this session description, as SDP text.
    Description(String),
}

/// A state of the pipeline that a step asks for.
#[derive(Debug, Clone, Copy, PartialEq, Eq, Structural)]
pub enum PipelineState {
    Ready,
    Playing,
}

/// A step of media work that the negotiation asks for.
#[derive(Debug)]
pub enum OfferAction {
    /// Build a pipeline from this launch description.
    LaunchPipeline { description: String },
    /// Watch the pipeline's bus on a thread of its own.
    WatchBus,
    /// Look up the WebRTC element `element`, set its STUN server and connect
    /// its negotiation, ICE candidate and connection state signals.
    ConfigureWebrtcbin { element: String, stun_server: String },
    /// Look up the WebRTC element by this name.
    LookupWebrtcbin { name: String },
    /// Look up the frame source by this name, as an application source.
    LookupAppsrc { name: String },
    /// Ask the pipeline to change to this state.
    SetState { state: PipelineState },
    /// Wait this many seconds at most for the pipeline's state change.
    AwaitState { timeout_secs: u64 },
    /// Parse this session description.
    ParseSdp { sdp: String },
    /// Set the parsed offer as the remote description and wait for the reply.
    SetRemoteDescription,
    /// Sleep this many milliseconds.
    Pause { millis: u64 },
    /// Enter the peer of this client into the table of peers.
    RegisterPeer { peer_id: String },
    /// Push this frame to every peer.
    SendFrame { frame: Vec<u8> },
    /// Watch the WebRTC element for new pads.
    WatchPads,
    /// Ask the WebRTC element for an answer and wait for the reply.
    CreateAnswer,
    /// Make the answer the local description and wait.
    SetLocalDescription,
    /// Read the element's local description.
    ReadLocalDescription,
    /// Serialize this message and send it to the client.
    Send { message: SignalingMessage },
    /// The negotiation succeeded.
    Finish,
    /// The negotiation failed with this error.
    Fail { error: String },
}

/// Whether a step at `stage` can end with `outcome`.
pub open spec fn accepts(stage: OfferStage, outcome: StepOutcome) -> bool {
    match stage {
        OfferStage::LaunchPipeline => outcome is Done || outcome is Error || outcome is Missing,
        OfferStage::ConfigureWebrtcbin | OfferStage::LookupWebrtcbin | OfferStage::LookupAppsrc
        | OfferStage::AwaitReady | OfferStage::ParseSdp | OfferStage::AwaitPlaying => outcome is Done
            || outcome is Missing,
        OfferStage::SetReady | OfferStage::SetPlaying => outcome is Done || outcome is Error,
        OfferStage::SetRemoteDescription => outcome is Done || outcome is Rejected
            || outcome is Missing,
        OfferStage::CreateAnswer => outcome is Answered,
        OfferStage::SetLocalDescription => outcome is Description,
        OfferStage::ReadLocalDescription => outcome is Description || outcome is Missing,
        OfferStage::Finished | OfferStage::Failed => false,
        _ => outcome is Done,
    }
}

/// The stage that follows `stage` when its step ends with `outcome`.
pub open spec fn next_stage(stage: OfferStage, outcome: StepOutcome) -> OfferStage {
    match stage {
        OfferStage::LaunchPipeline => if outcome is Done {
            OfferStage::WatchBus
        } else {
            OfferStage::Failed
        },
        OfferStage::WatchBus => OfferStage::ConfigureWebrtcbin,
        OfferStage::ConfigureWebrtcbin => if outcome is Done {
            OfferStage::LookupWebrtcbin
        } else {
            OfferStage::Failed
        },
        OfferStage::LookupWebrtcbin => if outcome is Done {
            OfferStage::LookupAppsrc
        } else {
            OfferStage::Failed
        },
        OfferStage::LookupAppsrc => if outcome is Done {
            OfferStage::SetReady
        } else {
            OfferStage::Failed
        },
        OfferStage::SetReady => if outcome is Done {
            OfferStage::AwaitReady
        } else {
            OfferStage::Failed
        },
        OfferStage::AwaitReady => if outcome is Done {
            OfferStage::ParseSdp
        } else {
            OfferStage::Failed
        },
        OfferStage::ParseSdp => if outcome is Done {
            OfferStage::SetRemoteDescription
        } else {
            OfferStage::Failed
        },
        OfferStage::SetRemoteDescription => if outcome is Done {
            OfferStage::SettleRemote
        } else {
            OfferStage::Failed
        },
        OfferStage::SettleRemote => OfferStage::RegisterPeer,
        OfferStage::RegisterPeer => OfferStage::SetPlaying,
        OfferStage::SetPlaying => if outcome is Done {
            OfferStage::AwaitPlaying
        } else {
            OfferStage::Failed
        },
        OfferStage::AwaitPlaying => OfferStage::SettlePlaying,
        OfferStage::SettlePlaying => OfferStage::SendTestFrame,
        OfferStage::SendTestFrame => OfferStage::WatchPads,
        OfferStage::WatchPads => OfferStage::CreateAnswer,
        OfferStage::CreateAnswer => match outcome {
            StepOutcome::Answered(plan) => OfferStage::SettleAnswer(plan),
            _ => OfferStage::Failed,
        },
        OfferStage::SettleAnswer(plan) => match plan {
            AnswerPlan::UseAnswer => OfferStage::SetLocalDescription,
            AnswerPlan::UseLocalDescription => OfferStage::ReadLocalDescription,
            AnswerPlan::NoAnswer => OfferStage::Finished,
        },
        OfferStage::SetLocalDescription => OfferStage::SendAnswer,
        OfferStage::ReadLocalDescription => if outcome is Description {
            OfferStage::SendAnswer
        } else {
            OfferStage::Finished
        },
        OfferStage::SendAnswer => OfferStage::Finished,
        OfferStage::Finished => OfferStage::Finished,
        OfferStage::Failed => OfferStage::Failed,
    }
}

/// The error with which a step at `stage` that ends with `outcome` fails the
/// negotiation.
pub open spec fn failure_text(stage: OfferStage, outcome: StepOutcome) -> Seq<char> {
    match outcome {
        StepOutcome::Error(text) => text@,
        StepOutcome::Rejected(text) => "Failed to set remote description: "@ + text@,
        _ => match stage {
            OfferStage::LaunchPipeline => "Failed to create pipeline"@,
            OfferStage::ConfigureWebrtcbin | OfferStage::LookupWebrtcbin => "Failed to get webrtcbin"@,
            OfferStage::LookupAppsrc => "Failed to get appsrc"@,
            OfferStage::AwaitReady => "Failed to set pipeline to READY state"@,
            OfferStage::ParseSdp => "Failed to parse SDP"@,
            OfferStage::SetRemoteDescription => "Failed to set remote description"@,
            _ => Seq::empty(),
        },
    }
}

/// What a negotiation knows: for whom it runs, what was offered, where it
/// stands, the answer it is about to send and the error it failed with.
pub struct OfferSessionView {
    pub peer_id: Seq<char>,
    pub sdp: Seq<char>,
    pub stage: OfferStage,
    pub answer_sdp: Seq<char>,
    pub failure: Seq<char>,
}

/// Whether `action` is the step that a negotiation in state `s` asks for.
pub open spec fn is_action_for(action: OfferAction, s: OfferSessionView) -> bool {
    match s.stage {
        OfferStage::LaunchPipeline => action matches OfferAction::LaunchPipeline { description }
            && description@ == pipeline_description_spec(),
        OfferStage::WatchBus => action is WatchBus,
        OfferStage::ConfigureWebrtcbin => action matches OfferAction::ConfigureWebrtcbin {
            element,
            stun_server,
        } && element@ == webrtc_element_spec() && stun_server@ == stun_server_spec(),
        OfferStage::LookupWebrtcbin => action matches OfferAction::LookupWebrtcbin { name }
            && name@ == webrtc_element_spec(),
        OfferStage::LookupAppsrc => action matches OfferAction::LookupAppsrc { name } && name@
            == appsrc_element_spec(),
        OfferStage::SetReady => action matches OfferAction::SetState { state } && state
            == PipelineState::Ready,
        OfferStage::SetPlaying => action matches OfferAction::SetState { state } && state
            == PipelineState::Playing,
        OfferStage::AwaitReady | OfferStage::AwaitPlaying => action matches OfferAction::AwaitState {
            timeout_secs,
        } && timeout_secs == STATE_TIMEOUT_SECS,
        OfferStage::ParseSdp => action matches OfferAction::ParseSdp { sdp } && sdp@ == s.sdp,
        OfferStage::SetRemoteDescription => action is SetRemoteDescription,
        OfferStage::SettleRemote | OfferStage::SettleAnswer(_) => action matches OfferAction::Pause {
            millis,
        } && millis == 100,
        OfferStage::SettlePlaying => action matches OfferAction::Pause { millis } && millis == 200,
        OfferStage::RegisterPeer => action matches OfferAction::RegisterPeer { peer_id } && peer_id@
            == s.peer_id,
        OfferStage::SendTestFrame => action matches OfferAction::SendFrame { frame } && frame@
            == blank_frame_spec(),
        OfferStage::WatchPads => action is WatchPads,
        OfferStage::CreateAnswer => action is CreateAnswer,
        OfferStage::SetLocalDescription => action is SetLocalDescription,
        OfferStage::ReadLocalDescription => action is ReadLocalDescription,
        OfferStage::SendAnswer => action matches OfferAction::Send { message }
            && message matches SignalingMessage::Answer { sdp, id } && sdp@ == s.answer_sdp && id@
            == s.peer_id,
        OfferStage::Finished => action is Finish,
        OfferStage::Failed => action matches OfferAction::Fail { error } && error@ == s.failure,
    }
}

/// The negotiation of a media session that answers one client's offer.
#[derive(Debug)]
pub struct OfferSession {
    peer_id: String,
    sdp: String,
    stage: OfferStage,
    answer_sdp: String,
    failure: String,
}

impl View for OfferSession {
    type V = OfferSessionView;

    closed spec fn view(&self) -> OfferSessionView {
        OfferSessionView {
            peer_id: self.peer_id@,
            sdp: self.sdp@,
            stage: self.stage,
            answer_sdp: self.answer_sdp@,
            failure: self.failure@,
        }
    }
}

impl OfferSession {
    /// Starts negotiating an answer to the offer `sdp` of the client
    /// `peer_id`: the first step builds the peer's pipeline.
    pub fn start(peer_id: &str, sdp: String) -> (started: (OfferSession, OfferAction))
        ensures
            started.0@.peer_id == peer_id@,
            started.0@.sdp == sdp@,
            started.0@.stage == OfferStage::LaunchPipeline,
            started.0@.answer_sdp == Seq::<char>::empty(),
            started.0@.failure == Seq::<char>::empty(),
            is_action_for(started.1, started.0@),
    {
        let session = OfferSession {
            peer_id: peer_id.to_owned(),
            sdp,
            stage: OfferStage::LaunchPipeline,
            answer_sdp: String::new(),
            failure: String::new(),
        };
        let action = session.action();
        (session, action)
    }

    /// The step that the negotiation waits on.
    pub fn stage(&self) -> (stage: OfferStage)
        ensures
            stage == self@.stage,
    {
        self.stage
    }

    /// Whether the negotiation is over.
    pub fn is_over(&self) -> (over: bool)
        ensures
            over == (self@.stage == OfferStage::Finished || self@.stage == OfferStage::Failed),
    {
        match self.stage {
            OfferStage::Finished | OfferStage::Failed => true,
            _ => false,
        }
    }

    /// Whether a step at `stage` can end with `outcome`.
    pub fn accepts(stage: OfferStage, outcome: &StepOutcome) -> (ok: bool)
        ensures
            ok == accepts(stage, *outcome),
    {
        match stage {
            OfferStage::LaunchPipeline => match outcome {
                StepOutcome::Done | StepOutcome::Error(_) | StepOutcome::Missing => true,
                _ => false,
            },
            OfferStage::ConfigureWebrtcbin | OfferStage::LookupWebrtcbin
            | OfferStage::LookupAppsrc | OfferStage::AwaitReady | OfferStage::ParseSdp
            | OfferStage::AwaitPlaying => match outcome {
                StepOutcome::Done | StepOutcome::Missing => true,
                _ => false,
            },
            OfferStage::SetReady | OfferStage::SetPlaying => match outcome {
                StepOutcome::Done | StepOutcome::Error(_) => true,
                _ => false,
            },
            OfferStage::SetRemoteDescription => match outcome {
                StepOutcome::Done | StepOutcome::Rejected(_) | StepOutcome::Missing => true,
                _ => false,
            },
            OfferStage::CreateAnswer => match outcome {
                StepOutcome::Answered(_) => true,
                _ => false,
            },
            OfferStage::SetLocalDescription => match outcome {
                StepOutcome::Description(_) => true,
                _ => false,
            },
            OfferStage::ReadLocalDescription => match outcome {
                StepOutcome::Description(_) | StepOutcome::Missing => true,
                _ => false,
            },
            OfferStage::Finished | OfferStage::Failed => false,
            _ => match outcome {
                StepOutcome::Done => true,
                _ => false,
            },
        }
    }

    /// The step that the negotiation asks for in its present state.
    pub fn action(&self) -> (action: OfferAction)
        ensures
            is_action_for(action, self@),
            self@.stage == OfferStage::ParseSdp ==> (action matches OfferAction::ParseSdp { sdp }
                && sdp@ == self@.sdp),
            self@.stage == OfferStage::RegisterPeer ==> (action matches OfferAction::RegisterPeer {
                peer_id,
            } && peer_id@ == self@.peer_id),
            self@.stage == OfferStage::SendAnswer ==> (action matches OfferAction::Send { message }
                && message matches SignalingMessage::Answer { sdp, id } && sdp@ == self@.answer_sdp
                && id@ == self@.peer_id),
            self@.stage == OfferStage::LaunchPipeline ==> (action matches OfferAction::LaunchPipeline {
                description,
            } && description@ == pipeline_description_spec()),
            self@.stage == OfferStage::Failed ==> (action matches OfferAction::Fail { error }
                && error@ == self@.failure),
    {
        match self.stage {
            OfferStage::LaunchPipeline => OfferAction::LaunchPipeline {
                description: pipeline_description(),
            },
            OfferStage::WatchBus => OfferAction::WatchBus,
            OfferStage::ConfigureWebrtcbin => OfferAction::ConfigureWebrtcbin {
                element: webrtc_element().to_owned(),
                stun_server: stun_server().to_owned(),
            },
            OfferStage::LookupWebrtcbin => OfferAction::LookupWebrtcbin {
                name: webrtc_element().to_owned(),
            },
            OfferStage::LookupAppsrc => OfferAction::LookupAppsrc {
                name: appsrc_element().to_owned(),
            },
            OfferStage::SetReady => OfferAction::SetState { state: PipelineState::Ready },
            OfferStage::SetPlaying => OfferAction::SetState { state: PipelineState::Playing },
            OfferStage::AwaitReady | OfferStage::AwaitPlaying => OfferAction::AwaitState {
                timeout_secs: STATE_TIMEOUT_SECS,
            },
            OfferStage::ParseSdp => OfferAction::ParseSdp { sdp: self.sdp.clone() },
            OfferStage::SetRemoteDescription => OfferAction::SetRemoteDescription,
            OfferStage::SettleRemote | OfferStage::SettleAnswer(_) => OfferAction::Pause {
                millis: 100,
            },
            OfferStage::SettlePlaying => OfferAction::Pause { millis: 200 },
            OfferStage::RegisterPeer => OfferAction::RegisterPeer { peer_id: self.peer_id.clone() },
            OfferStage::SendTestFrame => OfferAction::SendFrame { frame: blank_frame() },
            OfferStage::WatchPads => OfferAction::WatchPads,
            OfferStage::CreateAnswer => OfferAction::CreateAnswer,
            OfferStage::SetLocalDescription => OfferAction::SetLocalDescription,
            OfferStage::ReadLocalDescription => OfferAction::ReadLocalDescription,
            OfferStage::SendAnswer => OfferAction::Send {
                message: SignalingMessage::answer(self.answer_sdp.clone(), self.peer_id.as_str()),
            },
            OfferStage::Finished => OfferAction::Finish,
            OfferStage::Failed => OfferAction::Fail { error: self.failure.clone() },
        }
    }

    /// The error with which a step at `stage` that ends with `outcome` fails.
    fn failure_text(stage: OfferStage, outcome: &StepOutcome) -> (text: String)
        ensures
            text@ == failure_text(stage, *outcome),
    {
        match outcome {
            StepOutcome::Error(text) => text.clone(),
            StepOutcome::Rejected(text) => String::from_str(
                "Failed to set remote description: ",
            ).concat(text.as_str()),
            _ => match stage {
                OfferStage::LaunchPipeline => String::from_str("Failed to create pipeline"),
                OfferStage::ConfigureWebrtcbin | OfferStage::LookupWebrtcbin => String::from_str(
                    "Failed to get webrtcbin",
                ),
                OfferStage::LookupAppsrc => String::from_str("Failed to get appsrc"),
                OfferStage::AwaitReady => String::from_str("Failed to set pipeline to READY state"),
                OfferStage::ParseSdp => String::from_str("Failed to parse SDP"),
                OfferStage::SetRemoteDescription => String::from_str(
                    "Failed to set remote description",
                ),
                _ => String::new(),
            },
        }
    }

    /// The stage that follows `stage` when its step ends with `outcome`.
    fn next_stage(stage: OfferStage, outcome: &StepOutcome) -> (next: OfferStage)
        ensures
            next == next_stage(stage, *outcome),
    {
        let done = match outcome {
            StepOutcome::Done => true,
            _ => false,
        };
        match stage {
            OfferStage::LaunchPipeline => if done {
                OfferStage::WatchBus
            } else {
                OfferStage::Failed
            },
            OfferStage::WatchBus => OfferStage::ConfigureWebrtcbin,
            OfferStage::ConfigureWebrtcbin => if done {
                OfferStage::LookupWebrtcbin
            } else {
                OfferStage::Failed
            },
            OfferStage::LookupWebrtcbin => if done {
                OfferStage::LookupAppsrc
            } else {
                OfferStage::Failed
            },
            OfferStage::LookupAppsrc => if done {
                OfferStage::SetReady
            } else {
                OfferStage::Failed
            },
            OfferStage::SetReady => if done {
                OfferStage::AwaitReady
            } else {
                OfferStage::Failed
            },
            OfferStage::AwaitReady => if done {
                OfferStage::ParseSdp
            } else {
                OfferStage::Failed
            },
            OfferStage::ParseSdp => if done {
                OfferStage::SetRemoteDescription
            } else {
                OfferStage::Failed
            },
            OfferStage::SetRemoteDescription => if done {
                OfferStage::SettleRemote
            } else {
                OfferStage::Failed
            },
            OfferStage::SettleRemote => OfferStage::RegisterPeer,
            OfferStage::RegisterPeer => OfferStage::SetPlaying,
            OfferStage::SetPlaying => if done {
                OfferStage::AwaitPlaying
            } else {
                OfferStage::Failed
            },
            OfferStage::AwaitPlaying => OfferStage::SettlePlaying,
            OfferStage::SettlePlaying => OfferStage::SendTestFrame,
            OfferStage::SendTestFrame => OfferStage::WatchPads,
            OfferStage::WatchPads => OfferStage::CreateAnswer,
            OfferStage::CreateAnswer => match outcome {
                StepOutcome::Answered(plan) => OfferStage::SettleAnswer(*plan),
                _ => OfferStage::Failed,
            },
            OfferStage::SettleAnswer(plan) => match plan {
                AnswerPlan::UseAnswer => OfferStage::SetLocalDescription,
                AnswerPlan::UseLocalDescription => OfferStage::ReadLocalDescription,
                AnswerPlan::NoAnswer => OfferStage::Finished,
            },
            OfferStage::SetLocalDescription => OfferStage::SendAnswer,
            OfferStage::ReadLocalDescription => match outcome {
                StepOutcome::Description(_) => OfferStage::SendAnswer,
                _ => OfferStage::Finished,
            },
            OfferStage::SendAnswer => OfferStage::Finished,
            OfferStage::Finished => OfferStage::Finished,
            OfferStage::Failed => OfferStage::Failed,
        }
    }

    /// Records how the pending step went and returns the next step.
    ///
    /// An SDP text that a step reports becomes the answer to send; a step
    /// that fails the negotiation records the error to report.
    pub fn advance(&mut self, outcome: StepOutcome) -> (action: OfferAction)
        requires
            accepts(old(self)@.stage, outcome),
        ensures
            final(self)@.stage == next_stage(old(self)@.stage, outcome),
            final(self)@.peer_id == old(self)@.peer_id,
            final(self)@.sdp == old(self)@.sdp,
            final(self)@.answer_sdp == (match outcome {
                StepOutcome::Description(text) => text@,
                _ => old(self)@.answer_sdp,
            }),
            final(self)@.failure == (if final(self)@.stage == OfferStage::Failed {
                failure_text(old(self)@.stage, outcome)
            } else {
                old(self)@.failure
            }),
            is_action_for(action, final(self)@),
    {
        let next = Self::next_stage(self.stage, &outcome);
        if next == OfferStage::Failed {
            self.failure = Self::failure_text(self.stage, &outcome);
        }
        match outcome {
            StepOutcome::Description(text) => {
                self.answer_sdp = text;
            },
            _ => {},
        }
        self.stage = next;
        self.action()
    }
}

/// The position of `stage` in the order in which a negotiation visits its
/// stages; the two ends come last.
pub open spec fn stage_rank(stage: OfferStage) -> nat {
    match stage {
        OfferStage::LaunchPipeline => 0,
        OfferStage::WatchBus => 1,
        OfferStage::ConfigureWebrtcbin => 2,
        OfferStage::LookupWebrtcbin => 3,
        OfferStage::LookupAppsrc => 4,
        OfferStage::SetReady => 5,
        OfferStage::AwaitReady => 6,
        OfferStage::ParseSdp => 7,
        OfferStage::SetRemoteDescription => 8,
        OfferStage::SettleRemote => 9,
        OfferStage::RegisterPeer => 10,
        OfferStage::SetPlaying => 11,
        OfferStage::AwaitPlaying => 12,
        OfferStage::SettlePlaying => 13,
        OfferStage::SendTestFrame => 14,
        OfferStage::WatchPads => 15,
        OfferStage::CreateAnswer => 16,
        OfferStage::SettleAnswer(_) => 17,
        OfferStage::SetLocalDescription => 18,
        OfferStage::ReadLocalDescription => 19,
        OfferStage::SendAnswer => 20,
        OfferStage::Finished => 21,
        OfferStage::Failed => 22,
    }
}

/// The stage that a negotiation at `stage` reaches after steps that end
/// with `outcomes`, in order.
pub open spec fn run(stage: OfferStage, outcomes: Seq<StepOutcome>) -> OfferStage
    decreases outcomes.len(),
{
    if outcomes.len() == 0 {
        stage
    } else {
        run(next_stage(stage, outcomes[0]), outcomes.drop_first())
    }
}

/// Whether each of `outcomes`, in order, is one that the step it reports on
/// can end with, starting at `stage`.
pub open spec fn valid_run(stage: OfferStage, outcomes: Seq<StepOutcome>) -> bool
    decreases outcomes.len(),
{
    outcomes.len() == 0 || (accepts(stage, outcomes[0]) && valid_run(
        next_stage(stage, outcomes[0]),
        outcomes.drop_first(),
    ))
}

/// Every step moves a negotiation forward: it never returns to a stage it
/// has passed, and a finished or failed negotiation takes no more steps.
pub proof fn lemma_step_moves_forward(stage: OfferStage, outcome: StepOutcome)
    ensures
        accepts(stage, outcome) ==> stage_rank(next_stage(stage, outcome)) > stage_rank(stage),
        !accepts(OfferStage::Finished, outcome),
        !accepts(OfferStage::Failed, outcome),
        stage_rank(stage) < 16 && accepts(stage, outcome) && next_stage(stage, outcome)
            != OfferStage::Failed ==> stage_rank(next_stage(stage, outcome)) == stage_rank(stage)
            + 1,
        stage_rank(stage) == 16 && accepts(stage, outcome) ==> stage_rank(
            next_stage(stage, outcome),
        ) == 17,
{
}

/// A negotiation ends: from any stage, a run of steps reaches a stage at
/// least as many places further on, so no run from the start is longer
/// than 22 steps.
pub proof fn lemma_negotiation_ends(stage: OfferStage, outcomes: Seq<StepOutcome>)
    requires
        valid_run(stage, outcomes),
    ensures
        stage_rank(stage) + outcomes.len() <= stage_rank(run(stage, outcomes)),
        stage_rank(run(stage, outcomes)) <= 22,
        stage == OfferStage::LaunchPipeline ==> outcomes.len() <= 22,
    decreases outcomes.len(),
{
    if outcomes.len() > 0 {
        lemma_step_moves_forward(stage, outcomes[0]);
        lemma_negotiation_ends(next_stage(stage, outcomes[0]), outcomes.drop_first());
    }
}

proof fn lemma_run_prefix(stage: OfferStage, outcomes: Seq<StepOutcome>, i: int)
    requires
        0 <= i < outcomes.len(),
    ensures
        run(stage, outcomes.take(i + 1)) == run(
            next_stage(stage, outcomes[0]),
            outcomes.drop_first().take(i),
        ),
{
    let t = outcomes.take(i + 1);
    assert(t[0] == outcomes[0]);
    assert(t.drop_first() =~= outcomes.drop_first().take(i));
}

proof fn lemma_failed_run(outcomes: Seq<StepOutcome>)
    requires
        valid_run(OfferStage::Failed, outcomes),
    ensures
        outcomes.len() == 0,
{
    if outcomes.len() > 0 {
        lemma_step_moves_forward(OfferStage::Failed, outcomes[0]);
    }
}

/// A run that gets past the stage `mark`, among the stages up to the request
/// for an answer, without failing has passed through `mark` with a step that
/// did not fail.
pub proof fn lemma_run_passes(stage: OfferStage, outcomes: Seq<StepOutcome>, mark: OfferStage)
    requires
        valid_run(stage, outcomes),
        stage_rank(stage) <= stage_rank(mark) <= 16,
        stage_rank(mark) < stage_rank(run(stage, outcomes)),
        run(stage, outcomes) != OfferStage::Failed,
    ensures
        exists|i: int|
            0 <= i < outcomes.len() && run(stage, #[trigger] outcomes.take(i)) == mark
                && next_stage(mark, outcomes[i]) != OfferStage::Failed,
    decreases outcomes.len(),
{
    lemma_negotiation_ends(stage, outcomes);
    if outcomes.len() == 0 {
        assert(false);
    } else {
        let next = next_stage(stage, outcomes[0]);
        let rest = outcomes.drop_first();
        lemma_step_moves_forward(stage, outcomes[0]);
        if next == OfferStage::Failed {
            lemma_failed_run(rest);
            assert(run(next, rest) == next);
            assert(run(stage, outcomes) == OfferStage::Failed);
        } else if stage == mark {
            assert(outcomes.take(0) =~= Seq::<StepOutcome>::empty());
            assert(run(stage, outcomes.take(0)) == mark);
        } else {
            assert(stage_rank(stage) != stage_rank(mark));
            lemma_run_passes(next, rest, mark);
            let j: int = choose|j: int|
                0 <= j < rest.len() && run(next, #[trigger] rest.take(j)) == mark
                    && next_stage(mark, rest[j]) != OfferStage::Failed;
            lemma_run_prefix(stage, outcomes, j);
            assert(outcomes[j + 1] == rest[j]);
            assert(run(stage, outcomes.take(j + 1)) == mark);
        }
    }
}

/// A peer is entered into the table of peers only after the client's offer
/// was accepted as the remote description.
pub proof fn lemma_peer_registered_after_remote_description(outcomes: Seq<StepOutcome>)
    requires
        valid_run(OfferStage::LaunchPipeline, outcomes),
        run(OfferStage::LaunchPipeline, outcomes) == OfferStage::RegisterPeer,
    ensures
        exists|i: int|
            0 <= i < outcomes.len() && run(OfferStage::LaunchPipeline, #[trigger] outcomes.take(i))
                == OfferStage::SetRemoteDescription && outcomes[i] is Done,
{
    lemma_run_passes(OfferStage::LaunchPipeline, outcomes, OfferStage::SetRemoteDescription);
}

/// An answer is sent to a client only after the client's peer was entered
/// into the table of peers and its pipeline was asked to play.
pub proof fn lemma_answer_sent_after_registration(outcomes: Seq<StepOutcome>)
    requires
        valid_run(OfferStage::LaunchPipeline, outcomes),
        run(OfferStage::LaunchPipeline, outcomes) == OfferStage::SendAnswer,
    ensures
        exists|i: int|
            0 <= i < outcomes.len() && run(OfferStage::LaunchPipeline, #[trigger] outcomes.take(i))
                == OfferStage::RegisterPeer,
        exists|i: int|
            0 <= i < outcomes.len() && run(OfferStage::LaunchPipeline, #[trigger] outcomes.take(i))
                == OfferStage::SetPlaying && outcomes[i] is Done,
{
    lemma_run_passes(OfferStage::LaunchPipeline, outcomes, OfferStage::RegisterPeer);
    lemma_run_passes(OfferStage::LaunchPipeline, outcomes, OfferStage::SetPlaying);
}

/// The blank frame that follows a new peer's start is pushed only after that
/// peer was entered into the table and its pipeline was asked to play, so
/// the new peer is among those that receive it.
pub proof fn lemma_test_frame_after_registration(outcomes: Seq<StepOutcome>)
    requires
        valid_run(OfferStage::LaunchPipeline, outcomes),
        run(OfferStage::LaunchPipeline, outcomes) == OfferStage::SendTestFrame,
    ensures
        exists|i: int|
            0 <= i < outcomes.len() && run(OfferStage::LaunchPipeline, #[trigger] outcomes.take(i))
                == OfferStage::RegisterPeer,
        exists|i: int|
            0 <= i < outcomes.len() && run(OfferStage::LaunchPipeline, #[trigger] outcomes.take(i))
                == OfferStage::SetPlaying && outcomes[i] is Done,
{
    lemma_run_passes(OfferStage::LaunchPipeline, outcomes, OfferStage::RegisterPeer);
    lemma_run_passes(OfferStage::LaunchPipeline, outcomes, OfferStage::SetPlaying);
}

/// Each failing step ends the negotiation with its own error: the error of
/// the failed call, or the fixed message of the step whose lookup, wait,
/// parse or reply came up empty.
pub proof fn lemma_failure_texts(text: String)
    ensures
        failure_text(OfferStage::LaunchPipeline, StepOutcome::Error(text)) == text@,
        failure_text(OfferStage::SetReady, StepOutcome::Error(text)) == text@,
        failure_text(OfferStage::SetPlaying, StepOutcome::Error(text)) == text@,
        failure_text(OfferStage::SetRemoteDescription, StepOutcome::Rejected(text))
            == "Failed to set remote description: "@ + text@,
        failure_text(OfferStage::LaunchPipeline, StepOutcome::Missing)
            == "Failed to create pipeline"@,
        failure_text(OfferStage::ConfigureWebrtcbin, StepOutcome::Missing)
            == "Failed to get webrtcbin"@,
        failure_text(OfferStage::LookupWebrtcbin, StepOutcome::Missing)
            == "Failed to get webrtcbin"@,
        failure_text(OfferStage::LookupAppsrc, StepOutcome::Missing) == "Failed to get appsrc"@,
        failure_text(OfferStage::AwaitReady, StepOutcome::Missing)
            == "Failed to set pipeline to READY state"@,
        failure_text(OfferStage::ParseSdp, StepOutcome::Missing) == "Failed to parse SDP"@,
        failure_text(OfferStage::SetRemoteDescription, StepOutcome::Missing)
            == "Failed to set remote description"@,
{
}

/// The offer is parsed whole: the step that parses it carries exactly the
/// description the client offered, whatever its length; and the answer sent
/// is exactly the description the answer step reported, to the negotiating
/// client.
pub proof fn lemma_steps_carry_whole_descriptions(action: OfferAction, s: OfferSessionView)
    requires
        is_action_for(action, s),
    ensures
        s.stage == OfferStage::ParseSdp ==> (action matches OfferAction::ParseSdp { sdp } && sdp@
            == s.sdp && sdp@.len() == s.sdp.len()),
        s.stage == OfferStage::SendAnswer ==> (action matches OfferAction::Send { message }
            && message matches SignalingMessage::Answer { sdp, id } && sdp@ == s.answer_sdp && id@
            == s.peer_id),
{
}

/// The action that asks to enter a peer into the table is handed out only
/// at the stage that does so, and then names the negotiating client.
pub proof fn lemma_register_action(action: OfferAction, s: OfferSessionView)
    requires
        is_action_for(action, s),
        action is RegisterPeer,
    ensures
        s.stage == OfferStage::RegisterPeer,
        action->peer_id@ == s.peer_id,
{
}

} // verus!
