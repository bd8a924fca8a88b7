//! What passes between a session and the driver that runs it: the session says
//! with a [`SessionAction`] what is to be done next, the driver does it and
//! reports back with a [`SessionEvent`].

use crate::amf0::Number;
use crate::buffer::bytes_of;
use crate::channels::{ChannelData, ChannelDataConsumer, ChannelDataPublisher};
use crate::chunk::{ChunkInfo, ChunkView};
use crate::errors::SessionError;
use crate::messages::RtmpMessageData;
use bytes::BytesMut;
use tokio::sync::oneshot;
use vstd::prelude::*;

verus! {

/// How a bandwidth limit combines with an earlier one.
#[derive(Debug, Clone, Copy, PartialEq, Eq, Structural)]
pub enum PeerBandwidthLimit {
    Hard,
    Soft,
    Dynamic,
}

/// Work for the codecs between a session and its peer. All but the last three
/// write a message to the peer.
#[allow(inconsistent_fields)]
pub enum Request {
    /// Write the protocol control message of that name.
    WindowAcknowledgementSize { size: u32 },
    /// Write the protocol control message of that name.
    SetPeerBandwidth { bandwidth: u32, limit: PeerBandwidthLimit },
    /// Write the protocol control message of that name.
    SetChunkSize { size: u32 },
    /// Write the user control event of that name.
    StreamBegin { stream_id: u32 },
    /// Write the user control event of that name.
    StreamIsRecord { stream_id: u32 },
    /// Write an `onStatus` command.
    OnStatus { transaction_id: Number, level: String, code: String, description: String },
    /// Write a chunk.
    WriteChunk(ChunkInfo),
    /// Encode the answer to `connect` and hand the bytes back.
    EncodeConnectResponse {
        transaction_id: Number,
        fms_version: String,
        capabilities: Number,
        code: String,
        level: String,
        description: String,
        encoding: Number,
    },
    /// Encode the answer to `createStream` and hand the bytes back.
    EncodeCreateStreamResponse { transaction_id: Number, stream_id: Number },
    /// Tell the unpacketizer how large the peer's chunks are from now on.
    UpdateMaxChunkSize { size: usize },
}

/// What a [`Request`] says, with its texts as characters.
#[allow(inconsistent_fields)]
pub enum RequestView {
    WindowAcknowledgementSize { size: u32 },
    SetPeerBandwidth { bandwidth: u32, limit: PeerBandwidthLimit },
    SetChunkSize { size: u32 },
    StreamBegin { stream_id: u32 },
    StreamIsRecord { stream_id: u32 },
    OnStatus {
        transaction_id: Number,
        level: Seq<char>,
        code: Seq<char>,
        description: Seq<char>,
    },
    WriteChunk(ChunkView),
    EncodeConnectResponse {
        transaction_id: Number,
        fms_version: Seq<char>,
        capabilities: Number,
        code: Seq<char>,
        level: Seq<char>,
        description: Seq<char>,
        encoding: Number,
    },
    EncodeCreateStreamResponse { transaction_id: Number, stream_id: Number },
    UpdateMaxChunkSize { size: usize },
}

impl View for Request {
    type V = RequestView;

    open spec fn view(&self) -> RequestView {
        match *self {
            Request::WindowAcknowledgementSize { size } => RequestView::WindowAcknowledgementSize {
                size,
            },
            Request::SetPeerBandwidth { bandwidth, limit } => RequestView::SetPeerBandwidth {
                bandwidth,
                limit,
            },
            Request::SetChunkSize { size } => RequestView::SetChunkSize { size },
            Request::StreamBegin { stream_id } => RequestView::StreamBegin { stream_id },
            Request::StreamIsRecord { stream_id } => RequestView::StreamIsRecord { stream_id },
            Request::OnStatus { transaction_id, level, code, description } =>
                RequestView::OnStatus {
                    transaction_id,
                    level: level@,
                    code: code@,
                    description: description@,
                },
            Request::WriteChunk(chunk) => RequestView::WriteChunk(chunk@),
            Request::EncodeConnectResponse {
                transaction_id,
                fms_version,
                capabilities,
                code,
                level,
                description,
                encoding,
            } => RequestView::EncodeConnectResponse {
                transaction_id,
                fms_version: fms_version@,
                capabilities,
                code: code@,
                level: level@,
                description: description@,
                encoding,
            },
            Request::EncodeCreateStreamResponse { transaction_id, stream_id } =>
                RequestView::EncodeCreateStreamResponse { transaction_id, stream_id },
            Request::UpdateMaxChunkSize { size } => RequestView::UpdateMaxChunkSize { size },
        }
    }
}

/// One step of what a message makes a session do. Steps are taken in order, and
/// none is taken after one that failed.
pub enum Step {
    /// Have the driver do this.
    Perform(Request),
    /// Take this application name.
    AcceptApp(String),
    /// Take this stream name and ask the hub for its data.
    Subscribe(String),
    /// Announce the session's stream to the hub.
    Publish,
    /// From the end of this reading round on, send out data.
    EnterPlay,
    /// Stop the driver: there is no stream to go on with.
    Halt,
    /// End the session.
    Fail(SessionError),
}

/// What a [`Step`] says, with its texts as characters.
pub enum StepView {
    Perform(RequestView),
    AcceptApp(Seq<char>),
    Subscribe(Seq<char>),
    Publish,
    EnterPlay,
    Halt,
    Fail(SessionError),
}

impl View for Step {
    type V = StepView;

    open spec fn view(&self) -> StepView {
        match *self {
            Step::Perform(request) => StepView::Perform(request@),
            Step::AcceptApp(name) => StepView::AcceptApp(name@),
            Step::Subscribe(name) => StepView::Subscribe(name@),
            Step::Publish => StepView::Publish,
            Step::EnterPlay => StepView::EnterPlay,
            Step::Halt => StepView::Halt,
            Step::Fail(error) => StepView::Fail(error),
        }
    }
}

/// The views of a list of steps.
pub open spec fn step_views(steps: Seq<Step>) -> Seq<StepView> {
    Seq::new(steps.len(), |i: int| steps[i]@)
}

/// What the driver is to do next.
#[allow(inconsistent_fields)]
pub enum SessionAction {
    /// Do this.
    Perform(Request),
    /// Read from the peer.
    ReadNetwork,
    /// Hand these bytes to the handshaker and let it take a step.
    Handshake { data: BytesMut },
    /// Hand these bytes to the unpacketizer.
    ExtendUnpacketizer { data: BytesMut },
    /// Let the unpacketizer take chunks from what it has been handed, with this
    /// session type where there is one.
    ReadChunks { session_type: Option<u8> },
    /// Parse this chunk for this session type.
    ParseMessage { chunk: ChunkInfo, session_type: u8 },
    /// Wait for the next data of the session's consumer.
    AwaitData,
    /// Wait for the hub's answer to a `Publish`.
    AwaitPublisher { reply: oneshot::Receiver<ChannelDataPublisher> },
    /// Wait for the hub's answer to a `Subscribe`.
    AwaitConsumer { reply: oneshot::Receiver<ChannelDataConsumer> },
    /// End the session with this error.
    Fail(SessionError),
    /// End the session with the failure that was reported last.
    GiveUp,
    /// Stop with a panic: the peer asked to play and named no stream.
    Halt,
}

/// What a [`SessionAction`] says, with its texts as characters.
#[allow(inconsistent_fields)]
pub enum ActionView {
    Perform(RequestView),
    ReadNetwork,
    Handshake { data: Seq<u8> },
    ExtendUnpacketizer { data: Seq<u8> },
    ReadChunks { session_type: Option<u8> },
    ParseMessage { chunk: ChunkView, session_type: u8 },
    AwaitData,
    AwaitPublisher { reply: oneshot::Receiver<ChannelDataPublisher> },
    AwaitConsumer { reply: oneshot::Receiver<ChannelDataConsumer> },
    Fail(SessionError),
    GiveUp,
    Halt,
}

impl View for SessionAction {
    type V = ActionView;

    open spec fn view(&self) -> ActionView {
        match *self {
            SessionAction::Perform(request) => ActionView::Perform(request@),
            SessionAction::ReadNetwork => ActionView::ReadNetwork,
            SessionAction::Handshake { data } => ActionView::Handshake { data: bytes_of(data) },
            SessionAction::ExtendUnpacketizer { data } => ActionView::ExtendUnpacketizer {
                data: bytes_of(data),
            },
            SessionAction::ReadChunks { session_type } => ActionView::ReadChunks { session_type },
            SessionAction::ParseMessage { chunk, session_type } => ActionView::ParseMessage {
                chunk: chunk@,
                session_type,
            },
            SessionAction::AwaitData => ActionView::AwaitData,
            SessionAction::AwaitPublisher { reply } => ActionView::AwaitPublisher { reply },
            SessionAction::AwaitConsumer { reply } => ActionView::AwaitConsumer { reply },
            SessionAction::Fail(error) => ActionView::Fail(error),
            SessionAction::GiveUp => ActionView::GiveUp,
            SessionAction::Halt => ActionView::Halt,
        }
    }
}

/// What came of the last action. A driver begins with `Done`.
pub enum SessionEvent {
    /// It is done, and there is nothing to hand back.
    Done,
    /// The peer sent these bytes.
    NetworkData(BytesMut),
    /// The handshaker took a step. `remaining` is what it has not used.
    HandshakeStep { finished: bool, remaining: BytesMut },
    /// The unpacketizer took these chunks.
    Chunks(Vec<ChunkInfo>),
    /// The unpacketizer came to something other than chunks.
    NotChunks,
    /// The unpacketizer has nothing more to take.
    ChunksEnd,
    /// The chunk holds this message.
    Message(RtmpMessageData),
    /// The encoded answer.
    Encoded(BytesMut),
    /// The consumer's next data, or nothing once its channel is closed.
    Data(Option<ChannelData>),
    /// The hub's answer to a `Publish`, or nothing where it gives none.
    Publisher(Option<ChannelDataPublisher>),
    /// The hub's answer to a `Subscribe`, or nothing where it gives none.
    Consumer(Option<ChannelDataConsumer>),
    /// It failed.
    Failed,
}

/// Whether `event` is a report on `action`.
pub open spec fn reports_on(event: SessionEvent, action: ActionView) -> bool {
    match action {
        ActionView::Perform(RequestView::EncodeConnectResponse { .. })
        | ActionView::Perform(RequestView::EncodeCreateStreamResponse { .. }) =>
            event is Encoded || event is Failed,
        ActionView::Perform(RequestView::UpdateMaxChunkSize { .. }) => event is Done,
        ActionView::Perform(_) => event is Done || event is Failed,
        ActionView::ReadNetwork => event is NetworkData || event is Failed,
        ActionView::Handshake { .. } => event is HandshakeStep || event is Failed,
        ActionView::ExtendUnpacketizer { .. } => event is Done,
        ActionView::ReadChunks { .. } =>
            event is Chunks || event is NotChunks || event is ChunksEnd,
        ActionView::ParseMessage { .. } => event is Message || event is Failed,
        ActionView::AwaitData => event is Data,
        ActionView::AwaitPublisher { .. } => event is Publisher,
        ActionView::AwaitConsumer { .. } => event is Consumer,
        ActionView::Fail(_) => false,
        ActionView::GiveUp => false,
        ActionView::Halt => false,
    }
}

} // verus!
