use vstd::prelude::*;

verus! {

/// Why a session refuses to go on.
#[derive(Debug, Clone, Copy, PartialEq, Eq, Structural)]
pub enum SessionErrorValue {
    /// A `connect` command names no application.
    NoAppName,
    /// A `publish` command does not carry two strings.
    Amf0ValueCountNotCorrect,
    /// The hub no longer takes events.
    ChannelEventSendErr,
    /// The data channel no longer takes media.
    SendChannelDataErr,
}

/// The error with which a session ends itself.
#[derive(Debug, Clone, Copy, PartialEq, Eq, Structural)]
pub struct SessionError {
    pub value: SessionErrorValue,
}

} // verus!
