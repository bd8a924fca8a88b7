//! The server side of an RTMP connection as a verified state machine.
//!
//! A [`session::ServerSession`] shakes hands with its peer, reads commands and
//! media from it, and either passes the media on to a data channel or plays
//! what a data channel delivers. It does no reading, writing or waiting of its
//! own: a driver asks it what to do, does that, and reports what came of it. The
//! two speak in the terms of [`protocol`].
//!
//! What a session does is stated in [`model`], what holds of it as a whole in
//! [`laws`], and what its peer, the hub and a data channel get from it in
//! [`outcomes`].

pub mod amf0;
pub mod buffer;
pub mod channels;
pub mod chunk;
pub mod errors;
pub mod laws;
pub mod messages;
pub mod model;
pub mod outcomes;
pub mod protocol;
pub mod session;
pub mod settings;
