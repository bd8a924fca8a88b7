use crate::amf0::Number;
use vstd::prelude::*;

verus! {

/// The figures and texts that a session announces to its peer, and the codes
/// by which it tells its codecs what it is for.
pub struct Settings {
    /// The window after which the peer acknowledges what it has received.
    pub window_acknowledgement_size: u32,
    /// The bandwidth that the peer may use.
    pub peer_bandwidth: u32,
    /// The size of the chunks that the session sends.
    pub chunk_size: u32,
    /// The server version in the answer to `connect`.
    pub fms_version: String,
    /// The capabilities in the answer to `connect`.
    pub capabilities: Number,
    /// The level in the answer to `connect`.
    pub level: String,
    /// The object encoding of a peer that asks for none.
    pub object_encoding: Number,
    /// The message stream in the answer to `createStream`.
    pub stream_id: Number,
    /// The session type of a session whose peer plays.
    pub server_pull: u8,
    /// The session type of a session whose peer publishes.
    pub server_push: u8,
}

} // verus!
