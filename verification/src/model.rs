//! The mathematical model of a session: its state, and what each event makes
//! of it. The contracts of [`ServerSession`](crate::session::ServerSession) are
//! stated over this model.

use crate::amf0::{Amf0ValueType, Number};
use crate::buffer::bytes_of;
use crate::channels::{
    accepted_data, consumer_reply, cut_off, listens, publisher_reply, ChannelDataConsumer,
    ChannelDataPublisher, ChannelDataView, ChannelEventView,
};
use crate::chunk::{chunk_views, outgoing_chunk, ChunkStreamId, ChunkView, MessageTypeId};
use crate::errors::{SessionError, SessionErrorValue};
use crate::messages::{
    number_of, play_name, play_reads, properties_of, text_of, RtmpMessageData,
};
use crate::protocol::{ActionView, PeerBandwidthLimit, RequestView, SessionEvent, StepView};
use crate::settings::Settings;
use tokio::sync::oneshot;
use vstd::prelude::*;

verus! {

/// What a session is busy with.
#[derive(Debug, Clone, Copy, PartialEq, Eq, Structural)]
pub enum ServerSessionState {
    /// Shaking hands with the peer.
    Handshake,
    /// Reading from the peer and acting on its messages.
    ReadChunk,
    /// Sending data to the peer.
    Play,
}

/// All that a session knows.
#[verifier::ext_equal]
pub struct SessionModel {
    pub app_name: Seq<char>,
    pub stream_name: Seq<char>,
    pub state: ServerSessionState,
    /// Whether the unpacketizer holds bytes that came with the handshake.
    pub need_process: bool,
    /// What was read from the peer last.
    pub netio_data: Seq<u8>,
    pub session_id: u64,
    pub session_type: u8,
    /// The session type that the unpacketizer has been given.
    pub unpacketizer_session_type: Option<u8>,
    pub settings: Settings,
    /// Whether a reading round is under way.
    pub reading: bool,
    /// The steps that are still to be taken for the current message.
    pub tasks: Seq<StepView>,
    /// The chunks that are still to be parsed.
    pub chunks: Seq<ChunkView>,
    /// The message stream of the current message.
    pub msg_stream_id: u32,
    /// The timestamp of the current message.
    pub timestamp: u32,
    /// Where the data to be played comes from.
    pub consumer: ChannelDataConsumer,
    /// Which consumers are at the other end of the session's data channel.
    pub hears: spec_fn(ChannelDataConsumer) -> bool,
    /// Whether the session has given up the other end of its data channel.
    pub cut_off: bool,
    /// What the data channel has accepted from the session's handle.
    pub published: Seq<ChannelDataView>,
    /// What the hub has accepted from the session's handle.
    pub events: Seq<ChannelEventView>,
    /// What the session has sent to the hub, accepted or not.
    pub offered: Seq<ChannelEventView>,
}

/// What the channels do while a session handles one event.
pub struct Outside {
    /// Whether the channel accepts what the event itself makes the session send.
    pub accepts_message: bool,
    /// Whether the hub accepts what a step makes the session send.
    pub accepts_step: bool,
    /// The two ends of the channel for the answer to a `Publish`.
    pub publisher: (oneshot::Sender<ChannelDataPublisher>, oneshot::Receiver<ChannelDataPublisher>),
    /// The two ends of the channel for the answer to a `Subscribe`.
    pub consumer: (oneshot::Sender<ChannelDataConsumer>, oneshot::Receiver<ChannelDataConsumer>),
}

impl Outside {
    /// That an action which waits for an answer waits at the other end of the
    /// channel that the hub was given.
    pub open spec fn serves(self, action: ActionView) -> bool {
        match action {
            ActionView::AwaitPublisher { reply } => publisher_reply(self.publisher.0, reply),
            ActionView::AwaitConsumer { reply } => consumer_reply(self.consumer.0, reply),
            _ => true,
        }
    }
}

/// The consumers at the other end of a data channel.
pub open spec fn hearers(publisher: ChannelDataPublisher) -> spec_fn(ChannelDataConsumer) -> bool {
    |consumer: ChannelDataConsumer| listens(consumer, publisher)
}

/// Whether a session itself holds the other end of its data channel.
pub open spec fn loops_back(session: SessionModel) -> bool {
    (session.hears)(session.consumer)
}

pub open spec fn failure(value: SessionErrorValue) -> SessionError {
    SessionError { value }
}

// What is sent to the peer.

/// The chunk that carries an AMF0 command.
pub open spec fn command_chunk(payload: Seq<u8>) -> ChunkView {
    outgoing_chunk(ChunkStreamId::CommandAmf0Amf3, 0, MessageTypeId::CommandAmf0, payload)
}

/// The chunk that carries audio.
pub open spec fn audio_chunk(timestamp: u32, payload: Seq<u8>) -> ChunkView {
    outgoing_chunk(ChunkStreamId::Audio, timestamp, MessageTypeId::Audio, payload)
}

/// The chunk that carries video.
pub open spec fn video_chunk(timestamp: u32, payload: Seq<u8>) -> ChunkView {
    outgoing_chunk(ChunkStreamId::Video, timestamp, MessageTypeId::Video, payload)
}

/// The chunk that carries metadata.
pub open spec fn metadata_chunk(payload: Seq<u8>) -> ChunkView {
    outgoing_chunk(ChunkStreamId::DataAmf0Amf3, 0, MessageTypeId::DataAmf0, payload)
}

/// The chunk that carries what a data channel delivered.
pub open spec fn media_chunk(data: ChannelDataView) -> ChunkView {
    match data {
        ChannelDataView::Audio { timestamp, data } => audio_chunk(timestamp, data),
        ChannelDataView::Video { timestamp, data } => video_chunk(timestamp, data),
        ChannelDataView::MetaData { body } => metadata_chunk(body),
    }
}

/// The step that writes an `onStatus` command of level `status`.
pub open spec fn status_step(
    transaction_id: Number,
    code: Seq<char>,
    description: Seq<char>,
) -> StepView {
    StepView::Perform(
        RequestView::OnStatus { transaction_id, level: "status"@, code, description },
    )
}

// What the commands make a session do.

/// The three control messages with which every `connect` is answered.
pub open spec fn connect_greeting(settings: Settings) -> Seq<StepView> {
    seq![
        StepView::Perform(
            RequestView::WindowAcknowledgementSize { size: settings.window_acknowledgement_size },
        ),
        StepView::Perform(
            RequestView::SetPeerBandwidth {
                bandwidth: settings.peer_bandwidth,
                limit: PeerBandwidthLimit::Dynamic,
            },
        ),
        StepView::Perform(RequestView::SetChunkSize { size: settings.chunk_size }),
    ]
}

/// The object encoding that a `connect` asks for.
pub open spec fn connect_encoding(
    settings: Settings,
    properties: Map<Seq<char>, Amf0ValueType>,
) -> Number {
    if properties.dom().contains("objectEncoding"@) {
        match properties["objectEncoding"@] {
            Amf0ValueType::Number(encoding) => encoding,
            _ => settings.object_encoding,
        }
    } else {
        settings.object_encoding
    }
}

/// The application that a `connect` names.
pub open spec fn connect_app(properties: Map<Seq<char>, Amf0ValueType>) -> Option<Seq<char>> {
    if properties.dom().contains("app"@) {
        match properties["app"@] {
            Amf0ValueType::UTF8String(app) => Some(app@),
            _ => None,
        }
    } else {
        None
    }
}

/// The steps of a `connect`: the greeting, then either the answer or, where no
/// application is named, the end of the session.
pub open spec fn connect_steps(
    settings: Settings,
    transaction_id: Number,
    properties: Map<Seq<char>, Amf0ValueType>,
) -> Seq<StepView> {
    connect_greeting(settings) + match connect_app(properties) {
        Some(app) => seq![
            StepView::AcceptApp(app),
            StepView::Perform(
                RequestView::EncodeConnectResponse {
                    transaction_id,
                    fms_version: settings.fms_version@,
                    capabilities: settings.capabilities,
                    code: "NetConnection.Connect.Success"@,
                    level: settings.level@,
                    description: "Connection Succeeded."@,
                    encoding: connect_encoding(settings, properties),
                },
            ),
        ],
        None => seq![StepView::Fail(failure(SessionErrorValue::NoAppName))],
    }
}

/// The steps of a `createStream`.
pub open spec fn create_stream_steps(settings: Settings, transaction_id: Number) -> Seq<StepView> {
    seq![
        StepView::Perform(
            RequestView::EncodeCreateStreamResponse {
                transaction_id,
                stream_id: settings.stream_id,
            },
        ),
    ]
}

/// The steps of a `deleteStream` that the hub has accepted.
pub open spec fn delete_stream_steps(transaction_id: Number) -> Seq<StepView> {
    seq![status_step(transaction_id, "NetStream.DeleteStream.Suceess"@, ""@)]
}

/// The messages with which every `play` is answered.
pub open spec fn play_greeting(transaction_id: Number, stream_id: u32) -> Seq<StepView> {
    seq![
        StepView::Perform(RequestView::StreamBegin { stream_id }),
        status_step(transaction_id, "NetStream.Play.Reset"@, "reset"@),
        status_step(transaction_id, "NetStream.Play.Start"@, "play start"@),
        status_step(transaction_id, "NetStream.Data.Start"@, "data start."@),
        status_step(transaction_id, "NetStream.Play.PublishNotify"@, "play publish notify."@),
        StepView::Perform(RequestView::StreamIsRecord { stream_id }),
    ]
}

/// The steps of a `play`: the greeting, then either the subscription or, where no
/// stream is named, the stop of the driver.
pub open spec fn play_steps(
    transaction_id: Number,
    stream_id: u32,
    stream_name: Option<Seq<char>>,
) -> Seq<StepView> {
    play_greeting(transaction_id, stream_id) + match stream_name {
        Some(stream_name) => seq![StepView::Subscribe(stream_name), StepView::EnterPlay],
        None => seq![StepView::Halt],
    }
}

/// The steps of a `publish`.
pub open spec fn publish_steps(transaction_id: Number, stream_id: u32) -> Seq<StepView> {
    seq![
        StepView::Perform(RequestView::StreamBegin { stream_id }),
        status_step(transaction_id, "NetStream.Publish.Start"@, ""@),
        StepView::Publish,
    ]
}

/// What came of a message: the session after it, and the steps that follow.
pub type Outcome = (SessionModel, Result<Seq<StepView>, SessionError>);

/// `deleteStream`: the hub is told at once, the peer after that.
pub open spec fn delete_stream_outcome(
    session: SessionModel,
    transaction_id: Number,
    accepted: bool,
) -> Outcome {
    (
        notify(session, unpublish_event(session), accepted),
        if accepted {
            Ok(delete_stream_steps(transaction_id))
        } else {
            Err(failure(SessionErrorValue::ChannelEventSendErr))
        },
    )
}

/// `publish`: it carries the stream's name and a second string.
pub open spec fn publish_outcome(
    session: SessionModel,
    transaction_id: Number,
    stream_id: u32,
    others: Seq<Amf0ValueType>,
) -> Outcome {
    let wrong = failure(SessionErrorValue::Amf0ValueCountNotCorrect);
    if others.len() < 2 {
        (session, Err(wrong))
    } else {
        match others[0] {
            Amf0ValueType::UTF8String(name) => (
                SessionModel { stream_name: name@, ..session },
                if others[1] is UTF8String {
                    Ok(publish_steps(transaction_id, stream_id))
                } else {
                    Err(wrong)
                },
            ),
            _ => (session, Err(wrong)),
        }
    }
}

/// How many values a `publish` takes off the front of its list.
pub open spec fn publish_reads(others: Seq<Amf0ValueType>) -> nat {
    if others.len() < 2 {
        0
    } else if others[0] is UTF8String {
        2
    } else {
        1
    }
}

/// A session that has been given the type `session_type`.
pub open spec fn with_session_type(session: SessionModel, session_type: u8) -> SessionModel {
    SessionModel { session_type, unpacketizer_session_type: Some(session_type), ..session }
}

/// What an AMF0 command makes of a session. `accepted` says whether the hub
/// takes what the command makes the session send.
pub open spec fn command_outcome(
    session: SessionModel,
    stream_id: u32,
    command_name: Amf0ValueType,
    transaction_id: Amf0ValueType,
    command_object: Amf0ValueType,
    others: Seq<Amf0ValueType>,
    accepted: bool,
) -> Outcome {
    let command = text_of(command_name);
    let transaction_id = number_of(transaction_id);
    let settings = session.settings;
    if command == "connect"@ {
        (session, Ok(connect_steps(settings, transaction_id, properties_of(command_object))))
    } else if command == "createStream"@ {
        (session, Ok(create_stream_steps(settings, transaction_id)))
    } else if command == "deleteStream"@ {
        if others.len() > 0 {
            delete_stream_outcome(session, transaction_id, accepted)
        } else {
            (session, Ok(Seq::empty()))
        }
    } else if command == "play"@ {
        (
            with_session_type(session, settings.server_pull),
            Ok(play_steps(transaction_id, stream_id, play_name(others))),
        )
    } else if command == "publish"@ {
        publish_outcome(
            with_session_type(session, settings.server_push),
            transaction_id,
            stream_id,
            others,
        )
    } else {
        (session, Ok(Seq::empty()))
    }
}

/// What an AMF0 command leaves of its values.
pub open spec fn command_rest(
    command_name: Amf0ValueType,
    others: Seq<Amf0ValueType>,
) -> Seq<Amf0ValueType> {
    let command = text_of(command_name);
    if command == "connect"@ || command == "createStream"@ {
        others
    } else if command == "deleteStream"@ {
        if others.len() > 0 {
            others.drop_last()
        } else {
            others
        }
    } else if command == "play"@ {
        others.skip(play_reads(others) as int)
    } else if command == "publish"@ {
        others.skip(publish_reads(others) as int)
    } else {
        others
    }
}

/// Whether the data channel of a session takes media. One whose other end the
/// session holds does, one whose other end the session has given up does not, and
/// of any other it rests on the channel, which `accepted` stands for.
pub open spec fn takes_media(session: SessionModel, accepted: bool) -> bool {
    loops_back(session) || (accepted && !session.cut_off)
}

/// What receiving media makes of a session.
pub open spec fn media_outcome(
    session: SessionModel,
    data: ChannelDataView,
    accepted: bool,
) -> Outcome {
    if takes_media(session, accepted) {
        (SessionModel { published: session.published.push(data), ..session }, Ok(Seq::empty()))
    } else {
        (session, Err(failure(SessionErrorValue::SendChannelDataErr)))
    }
}

/// What a message makes of a session.
pub open spec fn message_outcome(
    session: SessionModel,
    message: RtmpMessageData,
    msg_stream_id: u32,
    timestamp: u32,
    accepted: bool,
) -> Outcome {
    match message {
        RtmpMessageData::Amf0Command { command_name, transaction_id, command_object, others } =>
            command_outcome(
                session,
                msg_stream_id,
                command_name,
                transaction_id,
                command_object,
                others@,
                accepted,
            ),
        RtmpMessageData::SetChunkSize { chunk_size } => (
            session,
            Ok(
                seq![
                    StepView::Perform(
                        RequestView::UpdateMaxChunkSize { size: chunk_size as usize },
                    ),
                ],
            ),
        ),
        RtmpMessageData::AudioData { data } => media_outcome(
            session,
            ChannelDataView::Audio { timestamp, data: bytes_of(data) },
            accepted,
        ),
        RtmpMessageData::VideoData { data } => media_outcome(
            session,
            ChannelDataView::Video { timestamp, data: bytes_of(data) },
            accepted,
        ),
        RtmpMessageData::AmfData { raw_data } => media_outcome(
            session,
            ChannelDataView::MetaData { body: bytes_of(raw_data) },
            accepted,
        ),
        RtmpMessageData::Other => (session, Ok(Seq::empty())),
    }
}

/// What acting on a message leaves of it: a command loses the values that it
/// has read, every other message stays as it is.
pub open spec fn message_rest(before: RtmpMessageData, after: RtmpMessageData) -> bool {
    match before {
        RtmpMessageData::Amf0Command { command_name, transaction_id, command_object, others } => {
            &&& after is Amf0Command
            &&& after->command_name == command_name
            &&& after->transaction_id == transaction_id
            &&& after->command_object == command_object
            &&& after->others@ == command_rest(command_name, others@)
        },
        _ => after == before,
    }
}

// What is sent to the hub.

pub open spec fn publish_event(
    session: SessionModel,
    responder: oneshot::Sender<ChannelDataPublisher>,
) -> ChannelEventView {
    ChannelEventView::Publish {
        app_name: session.app_name,
        stream_name: session.stream_name,
        responder,
    }
}

pub open spec fn unpublish_event(session: SessionModel) -> ChannelEventView {
    ChannelEventView::UnPublish { app_name: session.app_name, stream_name: session.stream_name }
}

pub open spec fn subscribe_event(
    session: SessionModel,
    responder: oneshot::Sender<ChannelDataConsumer>,
) -> ChannelEventView {
    ChannelEventView::Subscribe {
        app_name: session.app_name,
        stream_name: session.stream_name,
        session_id: session.session_id,
        responder,
    }
}

pub open spec fn unsubscribe_event(session: SessionModel) -> ChannelEventView {
    ChannelEventView::UnSubscribe {
        app_name: session.app_name,
        stream_name: session.stream_name,
        session_id: session.session_id,
    }
}

/// A session that sends `event` to the hub, which takes it or does not.
pub open spec fn notify(
    session: SessionModel,
    event: ChannelEventView,
    accepted: bool,
) -> SessionModel {
    SessionModel {
        events: if accepted {
            session.events.push(event)
        } else {
            session.events
        },
        offered: session.offered.push(event),
        ..session
    }
}

// What a session does next.

/// What came of an event: the session after it, and the action that follows.
pub type Transition = (SessionModel, ActionView);

/// The step in which a session asks the hub for the data of a stream.
pub open spec fn subscribe_step(
    session: SessionModel,
    stream_name: Seq<char>,
    outside: Outside,
) -> Transition {
    let named = SessionModel { stream_name, ..session };
    (
        notify(named, subscribe_event(named, outside.consumer.0), outside.accepts_step),
        if outside.accepts_step {
            ActionView::AwaitConsumer { reply: outside.consumer.1 }
        } else {
            ActionView::Fail(failure(SessionErrorValue::ChannelEventSendErr))
        },
    )
}

/// The step in which a session announces its stream to the hub.
pub open spec fn publish_step(session: SessionModel, outside: Outside) -> Transition {
    (
        notify(session, publish_event(session, outside.publisher.0), outside.accepts_step),
        if outside.accepts_step {
            ActionView::AwaitPublisher { reply: outside.publisher.1 }
        } else {
            ActionView::Fail(failure(SessionErrorValue::ChannelEventSendErr))
        },
    )
}

/// The start of a reading round: the peer is read first, unless the handshake
/// has left bytes over.
pub open spec fn reading_round(session: SessionModel) -> Transition {
    if session.need_process {
        (
            SessionModel { need_process: false, reading: true, ..session },
            ActionView::ReadChunks { session_type: session.unpacketizer_session_type },
        )
    } else {
        (session, ActionView::ReadNetwork)
    }
}

/// The start of a round.
pub open spec fn round(session: SessionModel) -> Transition {
    match session.state {
        ServerSessionState::Handshake => (session, ActionView::ReadNetwork),
        ServerSessionState::ReadChunk => reading_round(session),
        ServerSessionState::Play => (session, ActionView::AwaitData),
    }
}

/// How a session goes on: it takes the steps that are left for the current
/// message, then turns to the chunks that are left, then lets the unpacketizer
/// take more, and starts a new round when all that is done.
pub open spec fn proceed(session: SessionModel, outside: Outside) -> Transition
    decreases session.tasks.len(),
{
    if session.tasks.len() > 0 {
        let rest = SessionModel { tasks: session.tasks.skip(1), ..session };
        match session.tasks[0] {
            StepView::Perform(request) => (rest, ActionView::Perform(request)),
            StepView::AcceptApp(app_name) => proceed(SessionModel { app_name, ..rest }, outside),
            StepView::Subscribe(stream_name) => subscribe_step(rest, stream_name, outside),
            StepView::Publish => publish_step(rest, outside),
            StepView::EnterPlay => proceed(
                SessionModel { state: ServerSessionState::Play, ..rest },
                outside,
            ),
            StepView::Halt => (rest, ActionView::Halt),
            StepView::Fail(error) => (rest, ActionView::Fail(error)),
        }
    } else if session.chunks.len() > 0 {
        let chunk = session.chunks[0];
        (
            SessionModel {
                chunks: session.chunks.skip(1),
                msg_stream_id: chunk.msg_stream_id,
                timestamp: chunk.timestamp,
                ..session
            },
            ActionView::ParseMessage { chunk, session_type: session.session_type },
        )
    } else if session.reading {
        (session, ActionView::ReadChunks { session_type: session.unpacketizer_session_type })
    } else {
        round(session)
    }
}

/// What bytes from the peer make of a session.
pub open spec fn network_data(session: SessionModel, data: Seq<u8>) -> Transition {
    if session.state == ServerSessionState::Handshake {
        (SessionModel { netio_data: data, ..session }, ActionView::Handshake { data })
    } else {
        (
            SessionModel { netio_data: data, need_process: false, reading: true, ..session },
            ActionView::ExtendUnpacketizer { data },
        )
    }
}

/// What a step of the handshake makes of a session.
pub open spec fn handshake_step(
    session: SessionModel,
    finished: bool,
    remaining: Seq<u8>,
    outside: Outside,
) -> Transition {
    if finished {
        let ready = SessionModel { state: ServerSessionState::ReadChunk, ..session };
        if remaining.len() > 0 {
            (
                SessionModel { need_process: true, ..ready },
                ActionView::ExtendUnpacketizer { data: remaining },
            )
        } else {
            proceed(ready, outside)
        }
    } else {
        proceed(session, outside)
    }
}

/// What a message makes of a session and of what it does next.
pub open spec fn message_step(
    session: SessionModel,
    message: RtmpMessageData,
    outside: Outside,
) -> Transition {
    let (after, steps) = message_outcome(
        session,
        message,
        session.msg_stream_id,
        session.timestamp,
        outside.accepts_message,
    );
    match steps {
        Ok(steps) => proceed(SessionModel { tasks: steps + after.tasks, ..after }, outside),
        Err(error) => (after, ActionView::Fail(error)),
    }
}

/// Whether a session is sending out data.
pub open spec fn is_playing(session: SessionModel) -> bool {
    session.state == ServerSessionState::Play && !session.reading
}

/// What a failure makes of a session: one that is sending out data tells the
/// hub that it no longer listens.
pub open spec fn failed_step(session: SessionModel, outside: Outside) -> Transition {
    (
        if is_playing(session) {
            notify(session, unsubscribe_event(session), outside.accepts_message)
        } else {
            session
        },
        ActionView::GiveUp,
    )
}

/// A session that has been given the sending end of a data channel.
pub open spec fn with_publisher(
    session: SessionModel,
    publisher: ChannelDataPublisher,
) -> SessionModel {
    SessionModel {
        published: accepted_data(publisher),
        hears: hearers(publisher),
        cut_off: cut_off(publisher),
        ..session
    }
}

/// A session that has been given the receiving end of a data channel. It gives up
/// the one that it had, which may be the other end of its own data channel.
pub open spec fn with_consumer(
    session: SessionModel,
    consumer: ChannelDataConsumer,
) -> SessionModel {
    SessionModel {
        consumer,
        hears: |other: ChannelDataConsumer| (session.hears)(other) && !loops_back(session),
        cut_off: session.cut_off || loops_back(session),
        ..session
    }
}

/// What an event makes of a session, and what the session does next.
pub open spec fn transition(
    session: SessionModel,
    event: SessionEvent,
    outside: Outside,
) -> Transition {
    match event {
        SessionEvent::Done => proceed(session, outside),
        SessionEvent::NetworkData(data) => network_data(session, bytes_of(data)),
        SessionEvent::HandshakeStep { finished, remaining } => handshake_step(
            session,
            finished,
            bytes_of(remaining),
            outside,
        ),
        SessionEvent::Chunks(chunks) => proceed(
            SessionModel { chunks: session.chunks + chunk_views(chunks@), ..session },
            outside,
        ),
        SessionEvent::NotChunks => proceed(session, outside),
        SessionEvent::ChunksEnd => proceed(SessionModel { reading: false, ..session }, outside),
        SessionEvent::Message(message) => message_step(session, message, outside),
        SessionEvent::Encoded(data) => (
            session,
            ActionView::Perform(RequestView::WriteChunk(command_chunk(bytes_of(data)))),
        ),
        SessionEvent::Data(Some(data)) => (
            session,
            ActionView::Perform(RequestView::WriteChunk(media_chunk(data@))),
        ),
        SessionEvent::Data(None) => (session, ActionView::AwaitData),
        SessionEvent::Publisher(Some(publisher)) => proceed(
            with_publisher(session, publisher),
            outside,
        ),
        SessionEvent::Publisher(None) => proceed(session, outside),
        SessionEvent::Consumer(Some(consumer)) => proceed(
            with_consumer(session, consumer),
            outside,
        ),
        SessionEvent::Consumer(None) => proceed(session, outside),
        SessionEvent::Failed => failed_step(session, outside),
    }
}

} // verus!
