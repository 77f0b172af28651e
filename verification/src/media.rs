//! The media pipeline that each peer gets, and the frames pushed into it.

use vstd::prelude::*;
use vstd::string::*;

verus! {

/// Width in pixels of the frames that the pipeline accepts.
pub const FRAME_WIDTH: usize = 640;

/// Height in pixels of the frames that the pipeline accepts.
pub const FRAME_HEIGHT: usize = 480;

/// Bytes per pixel of an RGB8 frame.
pub const BYTES_PER_PIXEL: usize = 3;

/// Size in bytes of one RGB8 frame of the pipeline's format.
pub const FRAME_BYTES: usize = FRAME_WIDTH * FRAME_HEIGHT * BYTES_PER_PIXEL;

/// Seconds to wait for the pipeline to settle in a requested state.
pub const STATE_TIMEOUT_SECS: u64 = 5;

/// Name of the element that receives the frames.
pub open spec fn appsrc_element_spec() -> Seq<char> {
    "videosrc"@
}

/// Name of the WebRTC element.
pub open spec fn webrtc_element_spec() -> Seq<char> {
    "webrtc"@
}

/// The STUN server that the WebRTC element uses.
pub open spec fn stun_server_spec() -> Seq<char> {
    "stun://stun.l.google.com:19302"@
}

/// Caps and processing between the frame source and the WebRTC element:
/// raw RGB at 640x480 and 30 frames per second, encoded as VP8 with the
/// low-latency deadline, packed as RTP with payload type 96.
pub open spec fn pipeline_body_spec() -> Seq<char> {
    " caps=video/x-raw,format=RGB,width=640,height=480,framerate=30/1 is-live=true format=time ! videoconvert ! vp8enc deadline=1 ! rtpvp8pay ! application/x-rtp,media=video,encoding-name=VP8,payload=96 ! webrtcbin name="@
}

/// The launch description of a peer's pipeline.
pub open spec fn pipeline_description_spec() -> Seq<char> {
    "appsrc name="@ + appsrc_element_spec() + pipeline_body_spec() + webrtc_element_spec()
        + " bundle-policy=max-bundle"@
}

/// A frame of the pipeline's format in which every byte is zero.
pub open spec fn blank_frame_spec() -> Seq<u8> {
    Seq::new(FRAME_BYTES as nat, |i: int| 0u8)
}

/// Name of the element that receives the frames.
pub fn appsrc_element() -> (name: &'static str)
    ensures
        name@ == appsrc_element_spec(),
{
    "videosrc"
}

/// Name of the WebRTC element.
pub fn webrtc_element() -> (name: &'static str)
    ensures
        name@ == webrtc_element_spec(),
{
    "webrtc"
}

/// The STUN server that the WebRTC element uses.
pub fn stun_server() -> (uri: &'static str)
    ensures
        uri@ == stun_server_spec(),
{
    "stun://stun.l.google.com:19302"
}

/// The launch description of a peer's pipeline: an application source named
/// by [`appsrc_element`] feeding, through conversion, VP8 encoding and RTP
/// packing, a WebRTC element named by [`webrtc_element`].
pub fn pipeline_description() -> (description: String)
    ensures
        description@ == pipeline_description_spec(),
{
    let description = String::from_str("appsrc name=").concat(appsrc_element()).concat(
        " caps=video/x-raw,format=RGB,width=640,height=480,framerate=30/1 is-live=true format=time ! videoconvert ! vp8enc deadline=1 ! rtpvp8pay ! application/x-rtp,media=video,encoding-name=VP8,payload=96 ! webrtcbin name=",
    ).concat(webrtc_element()).concat(" bundle-policy=max-bundle");
    description
}

/// The pipeline description names the frame source and the WebRTC element
/// by the names under which a negotiation looks them up.
pub proof fn lemma_description_names_elements()
    ensures
        exists|i: int|
            0 <= i && i + 5 + appsrc_element_spec().len() <= pipeline_description_spec().len()
                && #[trigger] pipeline_description_spec().subrange(
                i,
                i + 5 + appsrc_element_spec().len(),
            ) == "name="@ + appsrc_element_spec(),
        exists|j: int|
            0 <= j && j + 5 + webrtc_element_spec().len() <= pipeline_description_spec().len()
                && #[trigger] pipeline_description_spec().subrange(
                j,
                j + 5 + webrtc_element_spec().len(),
            ) == "name="@ + webrtc_element_spec(),
{
    reveal_strlit("appsrc name=");
    reveal_strlit("name=");
    reveal_strlit("videosrc");
    reveal_strlit("webrtc");
    reveal_strlit(" bundle-policy=max-bundle");
    reveal_strlit(
        " caps=video/x-raw,format=RGB,width=640,height=480,framerate=30/1 is-live=true format=time ! videoconvert ! vp8enc deadline=1 ! rtpvp8pay ! application/x-rtp,media=video,encoding-name=VP8,payload=96 ! webrtcbin name=",
    );
    let d = pipeline_description_spec();
    let a = appsrc_element_spec();
    let w = webrtc_element_spec();
    let body = pipeline_body_spec();
    assert(d.subrange(7, 7 + 5 + a.len() as int) =~= "name="@ + a);
    let j: int = 12 + a.len() + body.len() - 5;
    assert(d.subrange(j, j + 5 + w.len() as int) =~= "name="@ + w);
}

/// A frame of the pipeline's format in which every byte is zero; it is pushed
/// to the peers once a new peer's pipeline is playing.
pub fn blank_frame() -> (frame: Vec<u8>)
    ensures
        frame@ == blank_frame_spec(),
        frame@.len() == 640 * 480 * 3,
        forall|i: int| 0 <= i < frame@.len() ==> frame@[i] == 0,
{
    let mut frame: Vec<u8> = Vec::with_capacity(FRAME_BYTES);
    let mut i: usize = 0;
    while i < FRAME_BYTES
        invariant
            i <= FRAME_BYTES,
            frame@ == Seq::new(i as nat, |k: int| 0u8),
        decreases FRAME_BYTES - i,
    {
        frame.push(0u8);
        i += 1;
        assert(frame@ =~= Seq::new(i as nat, |k: int| 0u8));
    }
    frame
}

/// The presentation timestamp of a frame: the running time of its pipeline,
/// that is the clock time less the pipeline's base time, when both are known.
pub open spec fn frame_pts_spec(now: Option<u64>, base_time: Option<u64>) -> Option<u64> {
    match (now, base_time) {
        (Some(now), Some(base)) => Some((now - base) as u64),
        _ => None,
    }
}

/// The presentation timestamp, in nanoseconds, to give a frame pushed now.
///
/// Clock times cannot run backwards past the base time of a pipeline of that
/// clock: a clock time below the base time is not a valid input.
pub fn frame_pts(now: Option<u64>, base_time: Option<u64>) -> (pts: Option<u64>)
    requires
        (now, base_time) matches (Some(n), Some(b)) ==> b <= n,
    ensures
        pts == frame_pts_spec(now, base_time),
        (now, base_time) matches (Some(n), Some(b)) ==> (pts matches Some(p) && p == n - b),
        now is None || base_time is None ==> pts is None,
{
    match (now, base_time) {
        (Some(now), Some(base)) => Some(now - base),
        _ => None,
    }
}

/// A frame's timestamp is the full running time of its pipeline, with no
/// part of it lost: the clock time less the base time, taken as an integer.
pub proof fn lemma_pts_is_running_time(now: u64, base_time: u64)
    requires
        base_time <= now,
    ensures
        frame_pts_spec(Some(now), Some(base_time)) matches Some(p) && p == now - base_time,
        frame_pts_spec(None, Some(base_time)) is None,
        frame_pts_spec(Some(now), None) is None,
{
}

/// A message posted on a pipeline's bus, by kind.
#[derive(Debug, Clone, Copy, PartialEq, Eq, Structural)]
pub enum BusMessageKind {
    StateChanged,
    Error,
    Warning,
    EndOfStream,
    Other,
}

/// What the watcher of a pipeline's bus does with a message.
#[derive(Debug, Clone, Copy, PartialEq, Eq, Structural)]
pub enum BusAction {
    /// Log the state change at debug level and keep watching.
    LogStateChange,
    /// Log the error and keep watching.
    LogError,
    /// Log the warning and keep watching.
    LogWarning,
    /// Log that the stream ended and stop watching.
    Stop,
    /// Keep watching.
    Ignore,
}

/// The watcher's reaction to a bus message of the given kind.
pub open spec fn bus_action_spec(kind: BusMessageKind) -> BusAction {
    match kind {
        BusMessageKind::StateChanged => BusAction::LogStateChange,
        BusMessageKind::Error => BusAction::LogError,
        BusMessageKind::Warning => BusAction::LogWarning,
        BusMessageKind::EndOfStream => BusAction::Stop,
        BusMessageKind::Other => BusAction::Ignore,
    }
}

/// Decides what the watcher of a pipeline's bus does with a message: only
/// the end of the stream stops it.
pub fn bus_action(kind: BusMessageKind) -> (action: BusAction)
    ensures
        action == bus_action_spec(kind),
        action == BusAction::Stop <==> kind == BusMessageKind::EndOfStream,
{
    match kind {
        BusMessageKind::StateChanged => BusAction::LogStateChange,
        BusMessageKind::Error => BusAction::LogError,
        BusMessageKind::Warning => BusAction::LogWarning,
        BusMessageKind::EndOfStream => BusAction::Stop,
        BusMessageKind::Other => BusAction::Ignore,
    }
}

} // verus!
