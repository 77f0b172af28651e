//! A client's peer: the media objects of its session.

use vstd::prelude::*;

verus! {

/// The media session of one client: its pipeline, the pipeline's WebRTC
/// element and the source into which frames are pushed.
///
/// The media objects are whatever the media framework hands out; the library
/// only keeps them together with the client's id.
#[derive(Debug)]
pub struct PeerConnection<Pipeline, Element, Source> {
    pub id: String,
    pub pipeline: Pipeline,
    pub webrtcbin: Element,
    pub appsrc: Source,
}

impl<Pipeline, Element, Source> PeerConnection<Pipeline, Element, Source> {
    /// The session of the client `id`, made of the given media objects.
    pub fn new(id: String, pipeline: Pipeline, webrtcbin: Element, appsrc: Source) -> (peer: Self)
        ensures
            peer.id == id,
            peer.pipeline == pipeline,
            peer.webrtcbin == webrtcbin,
            peer.appsrc == appsrc,
    {
        PeerConnection { id, pipeline, webrtcbin, appsrc }
    }
}

} // verus!
