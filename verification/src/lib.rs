//! Verified core of a media sink that streams RGB frames to WebRTC clients.
//!
//! The library holds the decisions of the sink: how signaling messages are
//! routed, which peers receive frames, how an offer is negotiated step by
//! step, what the media pipeline looks like and how the node's inputs and
//! settings are interpreted. The binary around it performs the media,
//! network and runtime work that these decisions call for.

pub mod signaling;
pub mod peers;
pub mod media;
pub mod negotiation;
pub mod server;
pub mod node;
pub mod peer_connection;
