//! The session itself.

use crate::amf0::{Amf0Object, Amf0ValueType, Number};
use crate::buffer::bytes_of;
use crate::channels::{
    accepted_data, accepted_events, consumer_reply, cut_off, drop_consumer, new_consumer_reply,
    new_data_channel, new_publisher_reply, offered_events, publisher_reply, send_data, send_event,
    ChannelData, ChannelDataConsumer, ChannelDataPublisher, ChannelDataView, ChannelEvent,
    ChannelEventPublisher,
};
use crate::chunk::{chunk_views, ChunkInfo, ChunkStreamId, ChunkType, MessageTypeId};
use crate::errors::{SessionError, SessionErrorValue};
use crate::laws::{awaits, is_new, law_soundness_is_kept};
use crate::messages::{
    has_text, number_or_zero, play_name, play_reads, RtmpMessageData,
};
use crate::model::{
    audio_chunk, command_chunk, command_outcome, command_rest, connect_steps,
    create_stream_steps, delete_stream_outcome, delete_stream_steps, failed_step, failure,
    handshake_step, hearers, loops_back, media_chunk, media_outcome, message_outcome,
    message_rest, message_step, metadata_chunk, network_data, notify, play_steps, proceed,
    publish_event, publish_outcome, publish_reads, publish_steps, reading_round, round,
    status_step, subscribe_event, transition, unpublish_event, unsubscribe_event, video_chunk,
    with_consumer, Outside, ServerSessionState, SessionModel,
};
use crate::protocol::{
    reports_on, step_views, ActionView, PeerBandwidthLimit, Request, RequestView, SessionAction,
    SessionEvent, Step, StepView,
};
use crate::settings::Settings;
use bytes::BytesMut;
use tokio::sync::mpsc::error::SendError;
use tokio::sync::oneshot;
use vstd::prelude::*;

verus! {

/// The server's end of one RTMP connection.
///
/// Media and events a session puts into their channels itself. For everything
/// else a driver calls [`run`](ServerSession::run) with what came of the last
/// action, and does what the session answers.
pub struct ServerSession {
    app_name: String,
    stream_name: String,
    state: ServerSessionState,
    event_producer: ChannelEventPublisher,
    data_producer: ChannelDataPublisher,
    data_consumer: ChannelDataConsumer,
    netio_data: BytesMut,
    need_process: bool,
    pub session_id: u64,
    pub session_type: u8,
    unpacketizer_session_type: Option<u8>,
    settings: Settings,
    reading: bool,
    tasks: Vec<Step>,
    chunks: Vec<ChunkInfo>,
    msg_stream_id: u32,
    timestamp: u32,
}

impl View for ServerSession {
    type V = SessionModel;

    closed spec fn view(&self) -> SessionModel {
        SessionModel {
            app_name: self.app_name@,
            stream_name: self.stream_name@,
            state: self.state,
            need_process: self.need_process,
            netio_data: bytes_of(self.netio_data),
            session_id: self.session_id,
            session_type: self.session_type,
            unpacketizer_session_type: self.unpacketizer_session_type,
            settings: self.settings,
            reading: self.reading,
            tasks: step_views(self.tasks@),
            chunks: chunk_views(self.chunks@),
            msg_stream_id: self.msg_stream_id,
            timestamp: self.timestamp,
            consumer: self.data_consumer,
            hears: hearers(self.data_producer),
            cut_off: cut_off(self.data_producer),
            published: accepted_data(self.data_producer),
            events: accepted_events(self.event_producer),
            offered: offered_events(self.event_producer),
        }
    }
}

/// What is said of a session is what its fields hold and what has gone through its
/// channels.
proof fn law_session_is_seen_by_field(session: ServerSession)
    ensures
        session@.app_name == session.app_name@,
        session@.stream_name == session.stream_name@,
        session@.session_id == session.session_id,
        session@.session_type == session.session_type,
        session@.unpacketizer_session_type == session.unpacketizer_session_type,
        session@.state == session.state,
        session@.settings == session.settings,
        session@.consumer == session.data_consumer,
        session@.published == accepted_data(session.data_producer),
        session@.events == accepted_events(session.event_producer),
        session@.offered == offered_events(session.event_producer),
{
}

/// A result with the views of its steps.
pub open spec fn outcome_view(
    outcome: Result<Vec<Step>, SessionError>,
) -> Result<Seq<StepView>, SessionError> {
    match outcome {
        Ok(steps) => Ok(step_views(steps@)),
        Err(error) => Err(error),
    }
}

/// A result that comes without steps.
pub open spec fn no_steps_view(result: Result<(), SessionError>) -> Result<
    Seq<StepView>,
    SessionError,
> {
    match result {
        Ok(_) => Ok(Seq::empty()),
        Err(error) => Err(error),
    }
}

/// No steps.
fn no_steps() -> (steps: Vec<Step>)
    ensures
        step_views(steps@) == Seq::<StepView>::empty(),
{
    let steps: Vec<Step> = Vec::new();
    assert(step_views(steps@) =~= Seq::<StepView>::empty());
    steps
}

/// The error with this value.
fn session_error(value: SessionErrorValue) -> (error: SessionError)
    ensures
        error == failure(value),
{
    SessionError { value }
}

/// What it means for a session how the hub took an event: a hub that takes no
/// events ends the session.
pub fn event_result(sent: Result<(), SendError<ChannelEvent>>) -> (told: Result<(), SessionError>)
    ensures
        told == (if sent is Ok {
            Ok(())
        } else {
            Err(failure(SessionErrorValue::ChannelEventSendErr))
        }),
        sent is Ok <==> told is Ok,
        told matches Err(error) ==> error.value == SessionErrorValue::ChannelEventSendErr,
{
    match sent {
        Ok(_) => Ok(()),
        Err(_) => Err(session_error(SessionErrorValue::ChannelEventSendErr)),
    }
}

/// What it means for a session how a data channel took media: a channel that
/// takes none ends the session.
pub fn data_result(sent: Result<(), SendError<ChannelData>>) -> (passed_on: Result<
    (),
    SessionError,
>)
    ensures
        passed_on == (if sent is Ok {
            Ok(())
        } else {
            Err(failure(SessionErrorValue::SendChannelDataErr))
        }),
        sent is Ok <==> passed_on is Ok,
        passed_on matches Err(error) ==> error.value == SessionErrorValue::SendChannelDataErr,
{
    match sent {
        Ok(_) => Ok(()),
        Err(_) => Err(session_error(SessionErrorValue::SendChannelDataErr)),
    }
}

/// The step that writes an `onStatus` command of level `status`.
fn on_status(transaction_id: &Number, code: &str, description: &str) -> (step: Step)
    ensures
        step@ == status_step(*transaction_id, code@, description@),
{
    Step::Perform(
        Request::OnStatus {
            transaction_id: *transaction_id,
            level: "status".to_owned(),
            code: code.to_owned(),
            description: description.to_owned(),
        },
    )
}

impl ServerSession {
    /// A session that has yet to shake hands.
    pub fn new(
        event_producer: ChannelEventPublisher,
        session_id: u64,
        settings: Settings,
    ) -> (session: Self)
        ensures
            session@ == (SessionModel {
                app_name: Seq::empty(),
                stream_name: Seq::empty(),
                state: ServerSessionState::Handshake,
                need_process: false,
                netio_data: Seq::empty(),
                session_id,
                session_type: 0,
                unpacketizer_session_type: None,
                settings,
                reading: false,
                tasks: Seq::empty(),
                chunks: Seq::empty(),
                msg_stream_id: 0,
                timestamp: 0,
                consumer: session@.consumer,
                hears: session@.hears,
                cut_off: false,
                published: Seq::empty(),
                events: accepted_events(event_producer),
                offered: offered_events(event_producer),
            }),
            loops_back(session@),
            is_new(session@),
    {
        // Stand-ins until the hub hands the session the ends of a real channel.
        let (data_producer, data_consumer) = new_data_channel();
        let session = ServerSession {
            app_name: String::new(),
            stream_name: String::new(),
            state: ServerSessionState::Handshake,
            event_producer,
            data_producer,
            data_consumer,
            netio_data: BytesMut::new(),
            need_process: false,
            session_id,
            session_type: 0,
            unpacketizer_session_type: None,
            settings,
            reading: false,
            tasks: Vec::new(),
            chunks: Vec::new(),
            msg_stream_id: 0,
            timestamp: 0,
        };
        assert(session@.tasks =~= Seq::empty());
        assert(session@.chunks =~= Seq::empty());
        session
    }

    /// Where the data to be played comes from.
    pub fn data_consumer(&mut self) -> (consumer: &mut ChannelDataConsumer)
        ensures
            *consumer == old(self)@.consumer,
            final(self)@ == (SessionModel { consumer: *final(consumer), ..old(self)@ }),
    {
        &mut self.data_consumer
    }

    /// The control message that announces the size of the session's chunks.
    pub fn send_set_chunk_size(&self) -> (request: Request)
        ensures
            request@ == (RequestView::SetChunkSize { size: self@.settings.chunk_size }),
    {
        Request::SetChunkSize { size: self.settings.chunk_size }
    }

    /// The chunk that carries audio to the peer.
    pub fn send_audio(&self, data: BytesMut, timestamp: u32) -> (request: Request)
        ensures
            request@ == RequestView::WriteChunk(audio_chunk(timestamp, bytes_of(data))),
            request matches Request::WriteChunk(chunk) && {
                &&& chunk.csid == ChunkStreamId::Audio
                &&& chunk.msg_type_id == MessageTypeId::Audio
                &&& chunk.format == ChunkType::Type0
                &&& chunk.timestamp == timestamp
                &&& chunk.msg_length as int == bytes_of(data).len() % 0x1_0000_0000
                &&& chunk.msg_stream_id == 0
                &&& chunk.payload == data
            },
    {
        Request::WriteChunk(
            ChunkInfo::outgoing(ChunkStreamId::Audio, timestamp, MessageTypeId::Audio, data),
        )
    }

    /// The chunk that carries video to the peer.
    pub fn send_video(&self, data: BytesMut, timestamp: u32) -> (request: Request)
        ensures
            request@ == RequestView::WriteChunk(video_chunk(timestamp, bytes_of(data))),
            request matches Request::WriteChunk(chunk) && {
                &&& chunk.csid == ChunkStreamId::Video
                &&& chunk.msg_type_id == MessageTypeId::Video
                &&& chunk.format == ChunkType::Type0
                &&& chunk.timestamp == timestamp
                &&& chunk.msg_length as int == bytes_of(data).len() % 0x1_0000_0000
                &&& chunk.msg_stream_id == 0
                &&& chunk.payload == data
            },
    {
        Request::WriteChunk(
            ChunkInfo::outgoing(ChunkStreamId::Video, timestamp, MessageTypeId::Video, data),
        )
    }

    /// The chunk that carries metadata to the peer.
    fn send_metadata(&self, data: BytesMut) -> (request: Request)
        ensures
            request@ == RequestView::WriteChunk(metadata_chunk(bytes_of(data))),
            request matches Request::WriteChunk(chunk) && {
                &&& chunk.csid == ChunkStreamId::DataAmf0Amf3
                &&& chunk.msg_type_id == MessageTypeId::DataAmf0
                &&& chunk.format == ChunkType::Type0
                &&& chunk.timestamp == 0
                &&& chunk.msg_length as int == bytes_of(data).len() % 0x1_0000_0000
                &&& chunk.msg_stream_id == 0
                &&& chunk.payload == data
            },
    {
        Request::WriteChunk(
            ChunkInfo::outgoing(ChunkStreamId::DataAmf0Amf3, 0, MessageTypeId::DataAmf0, data),
        )
    }

    /// The chunk that carries an encoded command to the peer.
    fn send_command(&self, data: BytesMut) -> (request: Request)
        ensures
            request@ == RequestView::WriteChunk(command_chunk(bytes_of(data))),
            request matches Request::WriteChunk(chunk) && {
                &&& chunk.csid == ChunkStreamId::CommandAmf0Amf3
                &&& chunk.msg_type_id == MessageTypeId::CommandAmf0
                &&& chunk.format == ChunkType::Type0
                &&& chunk.timestamp == 0
                &&& chunk.msg_length as int == bytes_of(data).len() % 0x1_0000_0000
                &&& chunk.msg_stream_id == 0
                &&& chunk.payload == data
            },
    {
        Request::WriteChunk(
            ChunkInfo::outgoing(
                ChunkStreamId::CommandAmf0Amf3,
                0,
                MessageTypeId::CommandAmf0,
                data,
            ),
        )
    }

    /// The steps that answer a `connect`.
    fn on_connect(&self, transaction_id: &Number, command_obj: &Amf0Object) -> (steps: Vec<Step>)
        ensures
            step_views(steps@) == connect_steps(
                self@.settings,
                *transaction_id,
                command_obj@,
            ),
    {
        let mut steps: Vec<Step> = Vec::new();
        steps.push(
            Step::Perform(
                Request::WindowAcknowledgementSize {
                    size: self.settings.window_acknowledgement_size,
                },
            ),
        );
        steps.push(
            Step::Perform(
                Request::SetPeerBandwidth {
                    bandwidth: self.settings.peer_bandwidth,
                    limit: PeerBandwidthLimit::Dynamic,
                },
            ),
        );
        steps.push(Step::Perform(Request::SetChunkSize { size: self.settings.chunk_size }));
        let encoding: Number = match command_obj.get(&"objectEncoding".to_owned()) {
            Some(Amf0ValueType::Number(encoding)) => *encoding,
            _ => self.settings.object_encoding,
        };
        match command_obj.get(&"app".to_owned()) {
            Some(Amf0ValueType::UTF8String(app)) => {
                steps.push(Step::AcceptApp(app.clone()));
                steps.push(
                    Step::Perform(
                        Request::EncodeConnectResponse {
                            transaction_id: *transaction_id,
                            fms_version: self.settings.fms_version.clone(),
                            capabilities: self.settings.capabilities,
                            code: "NetConnection.Connect.Success".to_owned(),
                            level: self.settings.level.clone(),
                            description: "Connection Succeeded.".to_owned(),
                            encoding,
                        },
                    ),
                );
            },
            _ => {
                steps.push(Step::Fail(session_error(SessionErrorValue::NoAppName)));
            },
        }
        assert(step_views(steps@) =~= connect_steps(
            self@.settings,
            *transaction_id,
            command_obj@,
        ));
        steps
    }

    /// The steps that answer a `createStream`.
    pub fn on_create_stream(&self, transaction_id: &Number) -> (steps: Vec<Step>)
        ensures
            step_views(steps@) == create_stream_steps(self@.settings, *transaction_id),
    {
        let mut steps: Vec<Step> = Vec::new();
        steps.push(
            Step::Perform(
                Request::EncodeCreateStreamResponse {
                    transaction_id: *transaction_id,
                    stream_id: self.settings.stream_id,
                },
            ),
        );
        assert(step_views(steps@) =~= create_stream_steps(self@.settings, *transaction_id));
        steps
    }

    /// Tells the hub that the session's stream has ended.
    fn unpublish_to_channels(&mut self) -> (told: Result<(), SessionError>)
        ensures
            final(self)@ == notify(old(self)@, unpublish_event(old(self)@), told is Ok),
            told matches Err(error) ==> error == failure(SessionErrorValue::ChannelEventSendErr),
    {
        let event = ChannelEvent::UnPublish {
            app_name: self.app_name.clone(),
            stream_name: self.stream_name.clone(),
        };
        event_result(send_event(&mut self.event_producer, event))
    }

    /// Ends the session's stream: the hub is told at once, and the steps tell
    /// the peer.
    pub fn on_delete_stream(
        &mut self,
        transaction_id: &Number,
        _stream_id: &Number,
    ) -> (outcome: Result<Vec<Step>, SessionError>)
        ensures
            (final(self)@, outcome_view(outcome)) == delete_stream_outcome(
                old(self)@,
                *transaction_id,
                outcome is Ok,
            ),
    {
        match self.unpublish_to_channels() {
            Ok(_) => {
                let mut steps: Vec<Step> = Vec::new();
                steps.push(on_status(transaction_id, "NetStream.DeleteStream.Suceess", ""));
                assert(step_views(steps@) =~= delete_stream_steps(*transaction_id));
                Ok(steps)
            },
            Err(error) => Err(error),
        }
    }

    /// The steps that answer a `play`. The values that the command carries are
    /// taken off the front of `other_values`.
    pub fn on_play(
        &self,
        transaction_id: &Number,
        stream_id: &u32,
        other_values: &mut Vec<Amf0ValueType>,
    ) -> (steps: Vec<Step>)
        ensures
            step_views(steps@) == play_steps(
                *transaction_id,
                *stream_id,
                play_name(old(other_values)@),
            ),
            final(other_values)@ == old(other_values)@.skip(play_reads(old(other_values)@) as int),
    {
        let count: u64 = other_values.len() as u64;
        assert(count as u8 == count % 256) by (bit_vector);
        let length: u8 = #[verifier::truncate]
        (count as u8);
        let mut stream_name: Option<String> = None;
        if length > 0 {
            match other_values.remove(0) {
                Amf0ValueType::UTF8String(name) => {
                    stream_name = Some(name);
                },
                _ => {},
            }
        }
        // Start, duration and reset change nothing.
        if length > 1 {
            let _start = other_values.remove(0);
        }
        if length > 2 {
            let _duration = other_values.remove(0);
        }
        if length > 3 {
            let _reset = other_values.remove(0);
        }
        assert(other_values@ =~= old(other_values)@.skip(
            play_reads(old(other_values)@) as int,
        ));

        let mut steps: Vec<Step> = Vec::new();
        steps.push(Step::Perform(Request::StreamBegin { stream_id: *stream_id }));
        steps.push(on_status(transaction_id, "NetStream.Play.Reset", "reset"));
        steps.push(on_status(transaction_id, "NetStream.Play.Start", "play start"));
        steps.push(on_status(transaction_id, "NetStream.Data.Start", "data start."));
        steps.push(
            on_status(transaction_id, "NetStream.Play.PublishNotify", "play publish notify."),
        );
        steps.push(Step::Perform(Request::StreamIsRecord { stream_id: *stream_id }));
        match stream_name {
            Some(stream_name) => {
                steps.push(Step::Subscribe(stream_name));
                steps.push(Step::EnterPlay);
            },
            None => {
                steps.push(Step::Halt);
            },
        }
        assert(step_views(steps@) =~= play_steps(
            *transaction_id,
            *stream_id,
            play_name(old(other_values)@),
        ));
        steps
    }

    /// Takes the stream's name from a `publish` and gives the steps that answer
    /// it. The values that the command carries are taken off the front of
    /// `other_values`.
    pub fn on_publish(
        &mut self,
        transaction_id: &Number,
        stream_id: &u32,
        other_values: &mut Vec<Amf0ValueType>,
    ) -> (outcome: Result<Vec<Step>, SessionError>)
        ensures
            (final(self)@, outcome_view(outcome)) == publish_outcome(
                old(self)@,
                *transaction_id,
                *stream_id,
                old(other_values)@,
            ),
            final(other_values)@ == old(other_values)@.skip(
                publish_reads(old(other_values)@) as int,
            ),
    {
        if other_values.len() < 2 {
            assert(other_values@.skip(0) =~= other_values@);
            return Err(session_error(SessionErrorValue::Amf0ValueCountNotCorrect));
        }
        let stream_name: String = match other_values.remove(0) {
            Amf0ValueType::UTF8String(name) => name,
            _ => {
                assert(other_values@ =~= old(other_values)@.skip(1));
                return Err(session_error(SessionErrorValue::Amf0ValueCountNotCorrect));
            },
        };
        self.stream_name = stream_name;
        match other_values.remove(0) {
            Amf0ValueType::UTF8String(_) => {},
            _ => {
                assert(other_values@ =~= old(other_values)@.skip(2));
                return Err(session_error(SessionErrorValue::Amf0ValueCountNotCorrect));
            },
        }
        assert(other_values@ =~= old(other_values)@.skip(2));

        let mut steps: Vec<Step> = Vec::new();
        steps.push(Step::Perform(Request::StreamBegin { stream_id: *stream_id }));
        steps.push(on_status(transaction_id, "NetStream.Publish.Start", ""));
        steps.push(Step::Publish);
        assert(step_views(steps@) =~= publish_steps(*transaction_id, *stream_id));
        Ok(steps)
    }

    /// Acts on an AMF0 command. A command that the session does not know is
    /// ignored.
    pub fn on_amf0_command_message(
        &mut self,
        stream_id: &u32,
        command_name: &Amf0ValueType,
        transaction_id: &Amf0ValueType,
        command_object: &Amf0ValueType,
        others: &mut Vec<Amf0ValueType>,
    ) -> (outcome: Result<Vec<Step>, SessionError>)
        ensures
            (final(self)@, outcome_view(outcome)) == command_outcome(
                old(self)@,
                *stream_id,
                *command_name,
                *transaction_id,
                *command_object,
                old(others)@,
                outcome is Ok,
            ),
            final(others)@ == command_rest(*command_name, old(others)@),
    {
        let transaction_id: Number = number_or_zero(transaction_id);
        let no_properties = Amf0Object::new();
        let properties: &Amf0Object = match command_object {
            Amf0ValueType::Object(object) => object,
            _ => &no_properties,
        };
        if has_text(command_name, "connect") {
            Ok(self.on_connect(&transaction_id, properties))
        } else if has_text(command_name, "createStream") {
            Ok(self.on_create_stream(&transaction_id))
        } else if has_text(command_name, "deleteStream") {
            match others.pop() {
                Some(value) => {
                    let deleted: Number = number_or_zero(&value);
                    self.on_delete_stream(&transaction_id, &deleted)
                },
                None => Ok(no_steps()),
            }
        } else if has_text(command_name, "play") {
            self.session_type = self.settings.server_pull;
            self.unpacketizer_session_type = Some(self.settings.server_pull);
            Ok(self.on_play(&transaction_id, stream_id, others))
        } else if has_text(command_name, "publish") {
            self.session_type = self.settings.server_push;
            self.unpacketizer_session_type = Some(self.settings.server_push);
            self.on_publish(&transaction_id, stream_id, others)
        } else {
            Ok(no_steps())
        }
    }

    /// The steps that a new chunk size of the peer makes the session take.
    fn on_set_chunk_size(&self, chunk_size: usize) -> (steps: Vec<Step>)
        ensures
            step_views(steps@) == seq![
                StepView::Perform(RequestView::UpdateMaxChunkSize { size: chunk_size }),
            ],
    {
        let mut steps: Vec<Step> = Vec::new();
        steps.push(Step::Perform(Request::UpdateMaxChunkSize { size: chunk_size }));
        assert(step_views(steps@) =~= seq![
            StepView::Perform(RequestView::UpdateMaxChunkSize { size: chunk_size }),
        ]);
        steps
    }

    /// Passes video on to those that play the session's stream.
    pub fn on_video_data(&mut self, data: &mut BytesMut, timestamp: &u32) -> (passed_on: Result<
        (),
        SessionError,
    >)
        ensures
            (final(self)@, no_steps_view(passed_on)) == media_outcome(
                old(self)@,
                ChannelDataView::Video { timestamp: *timestamp, data: bytes_of(*old(data)) },
                passed_on is Ok,
            ),
            *final(data) == *old(data),
    {
        let message = ChannelData::Video { timestamp: *timestamp, data: data.clone() };
        let sent = send_data(&mut self.data_producer, &self.data_consumer, message);
        assert(self@.hears =~= old(self)@.hears);
        data_result(sent)
    }

    /// Passes audio on to those that play the session's stream.
    pub fn on_audio_data(&mut self, data: &mut BytesMut, timestamp: &u32) -> (passed_on: Result<
        (),
        SessionError,
    >)
        ensures
            (final(self)@, no_steps_view(passed_on)) == media_outcome(
                old(self)@,
                ChannelDataView::Audio { timestamp: *timestamp, data: bytes_of(*old(data)) },
                passed_on is Ok,
            ),
            *final(data) == *old(data),
    {
        let message = ChannelData::Audio { timestamp: *timestamp, data: data.clone() };
        let sent = send_data(&mut self.data_producer, &self.data_consumer, message);
        assert(self@.hears =~= old(self)@.hears);
        data_result(sent)
    }

    /// Passes metadata on to those that play the session's stream.
    pub fn on_amf_data(&mut self, body: &mut BytesMut) -> (passed_on: Result<(), SessionError>)
        ensures
            (final(self)@, no_steps_view(passed_on)) == media_outcome(
                old(self)@,
                ChannelDataView::MetaData { body: bytes_of(*old(body)) },
                passed_on is Ok,
            ),
            *final(body) == *old(body),
    {
        let message = ChannelData::MetaData { body: body.clone() };
        let sent = send_data(&mut self.data_producer, &self.data_consumer, message);
        assert(self@.hears =~= old(self)@.hears);
        data_result(sent)
    }

    /// Acts on a message and gives the steps that follow from it.
    pub fn process_messages(
        &mut self,
        rtmp_msg: &mut RtmpMessageData,
        msg_stream_id: &u32,
        timestamp: &u32,
    ) -> (outcome: Result<Vec<Step>, SessionError>)
        ensures
            (final(self)@, outcome_view(outcome)) == message_outcome(
                old(self)@,
                *old(rtmp_msg),
                *msg_stream_id,
                *timestamp,
                outcome is Ok,
            ),
            message_rest(*old(rtmp_msg), *final(rtmp_msg)),
    {
        match rtmp_msg {
            RtmpMessageData::Amf0Command {
                command_name,
                transaction_id,
                command_object,
                others,
            } => self.on_amf0_command_message(
                msg_stream_id,
                command_name,
                transaction_id,
                command_object,
                others,
            ),
            RtmpMessageData::SetChunkSize { chunk_size } => Ok(
                self.on_set_chunk_size(*chunk_size as usize),
            ),
            RtmpMessageData::AudioData { data } => match self.on_audio_data(data, timestamp) {
                Ok(_) => Ok(no_steps()),
                Err(error) => Err(error),
            },
            RtmpMessageData::VideoData { data } => match self.on_video_data(data, timestamp) {
                Ok(_) => Ok(no_steps()),
                Err(error) => Err(error),
            },
            RtmpMessageData::AmfData { raw_data } => match self.on_amf_data(raw_data) {
                Ok(_) => Ok(no_steps()),
                Err(error) => Err(error),
            },
            RtmpMessageData::Other => Ok(no_steps()),
        }
    }

    /// Tells the hub that the session no longer plays its stream. It is no
    /// matter whether the hub listens.
    fn unsubscribe_from_channels(&mut self) -> (told: Ghost<bool>)
        ensures
            final(self)@ == notify(old(self)@, unsubscribe_event(old(self)@), told@),
    {
        let event = ChannelEvent::UnSubscribe {
            app_name: self.app_name.clone(),
            stream_name: self.stream_name.clone(),
            session_id: self.session_id,
        };
        let sent = send_event(&mut self.event_producer, event);
        Ghost(sent is Ok)
    }

    /// Takes the name of a stream and asks the hub for its data. Also gives the
    /// end of the reply channel that the hub has got.
    fn subscribe_from_channels(&mut self, stream_name: String) -> (asked: (
        Result<oneshot::Receiver<ChannelDataConsumer>, SessionError>,
        Ghost<oneshot::Sender<ChannelDataConsumer>>,
    ))
        ensures
            ({
                let named = SessionModel { stream_name: stream_name@, ..old(self)@ };
                final(self)@ == notify(named, subscribe_event(named, asked.1@), asked.0 is Ok)
            }),
            asked.0 matches Ok(reply) ==> consumer_reply(asked.1@, reply),
            asked.0 matches Err(error) ==> error == failure(
                SessionErrorValue::ChannelEventSendErr,
            ),
    {
        self.stream_name = stream_name.clone();
        let (responder, reply) = new_consumer_reply();
        let ghost given = responder;
        let event = ChannelEvent::Subscribe {
            app_name: self.app_name.clone(),
            stream_name,
            session_id: self.session_id,
            responder,
        };
        match event_result(send_event(&mut self.event_producer, event)) {
            Ok(_) => (Ok(reply), Ghost(given)),
            Err(error) => (Err(error), Ghost(given)),
        }
    }

    /// Announces the session's stream to the hub. Also gives the end of the
    /// reply channel that the hub has got.
    fn publish_to_channels(&mut self) -> (asked: (
        Result<oneshot::Receiver<ChannelDataPublisher>, SessionError>,
        Ghost<oneshot::Sender<ChannelDataPublisher>>,
    ))
        ensures
            final(self)@ == notify(
                old(self)@,
                publish_event(old(self)@, asked.1@),
                asked.0 is Ok,
            ),
            asked.0 matches Ok(reply) ==> publisher_reply(asked.1@, reply),
            asked.0 matches Err(error) ==> error == failure(
                SessionErrorValue::ChannelEventSendErr,
            ),
    {
        let (responder, reply) = new_publisher_reply();
        let ghost given = responder;
        let event = ChannelEvent::Publish {
            app_name: self.app_name.clone(),
            stream_name: self.stream_name.clone(),
            responder,
        };
        match event_result(send_event(&mut self.event_producer, event)) {
            Ok(_) => (Ok(reply), Ghost(given)),
            Err(error) => (Err(error), Ghost(given)),
        }
    }

    /// Starts a reading round.
    fn read_parse_chunks(&mut self) -> (action: SessionAction)
        ensures
            (final(self)@, action@) == reading_round(old(self)@),
    {
        if self.need_process {
            self.need_process = false;
            self.reading = true;
            SessionAction::ReadChunks { session_type: self.unpacketizer_session_type }
        } else {
            SessionAction::ReadNetwork
        }
    }

    /// Starts a round.
    fn start_round(&mut self) -> (action: SessionAction)
        ensures
            (final(self)@, action@) == round(old(self)@),
    {
        match self.state {
            ServerSessionState::Handshake => SessionAction::ReadNetwork,
            ServerSessionState::ReadChunk => self.read_parse_chunks(),
            ServerSessionState::Play => SessionAction::AwaitData,
        }
    }

    /// Goes on to the next action. What the channels have done so far is `given`.
    fn proceed(&mut self, Ghost(given): Ghost<Outside>) -> (next: (
        SessionAction,
        Ghost<Outside>,
    ))
        ensures
            (final(self)@, next.0@) == proceed(old(self)@, next.1@),
            next.1@.serves(next.0@),
            next.1@.accepts_message == given.accepts_message,
    {
        let ghost mut outside = Outside { accepts_step: true, ..given };
        while self.tasks.len() > 0
            invariant
                forall|any: Outside|
                    proceed(self@, any) == #[trigger] proceed(old(self)@, any),
                outside.accepts_message == given.accepts_message,
                outside.accepts_step,
            decreases self.tasks@.len(),
        {
            let ghost before = self@;
            let step = self.tasks.remove(0);
            assert(self@ =~= (SessionModel { tasks: before.tasks.skip(1), ..before }));
            match step {
                Step::Perform(request) => {
                    return (SessionAction::Perform(request), Ghost(outside));
                },
                Step::AcceptApp(app_name) => {
                    self.app_name = app_name;
                },
                Step::Subscribe(stream_name) => {
                    let (asked, Ghost(responder)) = self.subscribe_from_channels(stream_name);
                    match asked {
                        Ok(reply) => {
                            proof {
                                outside.consumer = (responder, reply);
                            }
                            return (SessionAction::AwaitConsumer { reply }, Ghost(outside));
                        },
                        Err(error) => {
                            proof {
                                outside.accepts_step = false;
                                outside.consumer.0 = responder;
                            }
                            return (SessionAction::Fail(error), Ghost(outside));
                        },
                    }
                },
                Step::Publish => {
                    let (asked, Ghost(responder)) = self.publish_to_channels();
                    match asked {
                        Ok(reply) => {
                            proof {
                                outside.publisher = (responder, reply);
                            }
                            return (SessionAction::AwaitPublisher { reply }, Ghost(outside));
                        },
                        Err(error) => {
                            proof {
                                outside.accepts_step = false;
                                outside.publisher.0 = responder;
                            }
                            return (SessionAction::Fail(error), Ghost(outside));
                        },
                    }
                },
                Step::EnterPlay => {
                    self.state = ServerSessionState::Play;
                },
                Step::Halt => {
                    return (SessionAction::Halt, Ghost(outside));
                },
                Step::Fail(error) => {
                    return (SessionAction::Fail(error), Ghost(outside));
                },
            }
        }
        if self.chunks.len() > 0 {
            let ghost before = self@;
            let chunk = self.chunks.remove(0);
            self.msg_stream_id = chunk.msg_stream_id;
            self.timestamp = chunk.timestamp;
            assert(self@.chunks =~= before.chunks.skip(1));
            return (
                SessionAction::ParseMessage { chunk, session_type: self.session_type },
                Ghost(outside),
            );
        }
        if self.reading {
            return (
                SessionAction::ReadChunks { session_type: self.unpacketizer_session_type },
                Ghost(outside),
            );
        }
        (self.start_round(), Ghost(outside))
    }

    /// Takes bytes from the peer.
    fn on_network_data(&mut self, data: BytesMut) -> (action: SessionAction)
        ensures
            (final(self)@, action@) == network_data(old(self)@, bytes_of(data)),
    {
        self.netio_data = data.clone();
        match self.state {
            ServerSessionState::Handshake => SessionAction::Handshake { data },
            _ => {
                self.need_process = false;
                self.reading = true;
                SessionAction::ExtendUnpacketizer { data }
            },
        }
    }

    /// Goes on after a step of the handshake. Bytes that a finished handshake
    /// leaves over are the first that the unpacketizer gets.
    fn handshake(&mut self, finished: bool, remaining: BytesMut) -> (next: (
        SessionAction,
        Ghost<Outside>,
    ))
        ensures
            (final(self)@, next.0@) == handshake_step(
                old(self)@,
                finished,
                bytes_of(remaining),
                next.1@,
            ),
            next.1@.serves(next.0@),
    {
        if finished {
            self.state = ServerSessionState::ReadChunk;
            if remaining.len() > 0 {
                self.need_process = true;
                return (
                    SessionAction::ExtendUnpacketizer { data: remaining },
                    Ghost(arbitrary()),
                );
            }
        }
        self.proceed(Ghost(arbitrary()))
    }

    /// Goes on after a message has been parsed.
    fn on_message(&mut self, message: RtmpMessageData) -> (next: (SessionAction, Ghost<Outside>))
        ensures
            (final(self)@, next.0@) == message_step(old(self)@, message, next.1@),
            next.1@.serves(next.0@),
    {
        let mut message = message;
        let msg_stream_id: u32 = self.msg_stream_id;
        let timestamp: u32 = self.timestamp;
        match self.process_messages(&mut message, &msg_stream_id, &timestamp) {
            Ok(steps) => {
                let mut steps = steps;
                let ghost after = self@;
                let ghost taken = step_views(steps@);
                steps.append(&mut self.tasks);
                self.tasks = steps;
                assert(self@ =~= (SessionModel { tasks: taken + after.tasks, ..after }));
                let ghost taken_in = Outside { accepts_message: true, ..arbitrary() };
                self.proceed(Ghost(taken_in))
            },
            Err(error) => {
                let ghost refused = Outside { accepts_message: false, ..arbitrary() };
                (SessionAction::Fail(error), Ghost(refused))
            },
        }
    }

    /// Takes the receiving end of a data channel and gives up the one it had.
    fn take_consumer(&mut self, consumer: ChannelDataConsumer)
        ensures
            final(self)@ == with_consumer(old(self)@, consumer),
    {
        let mut given_up = consumer;
        std::mem::swap(&mut self.data_consumer, &mut given_up);
        drop_consumer(&mut self.data_producer, given_up);
        assert(self@.hears =~= with_consumer(old(self)@, consumer).hears);
    }

    /// Goes on after the consumer was asked for data.
    fn send_media_data(&self, data: Option<ChannelData>) -> (action: SessionAction)
        ensures
            action@ == (match data {
                Some(data) => ActionView::Perform(RequestView::WriteChunk(media_chunk(data@))),
                None => ActionView::AwaitData,
            }),
    {
        match data {
            Some(ChannelData::Audio { timestamp, data }) => SessionAction::Perform(
                self.send_audio(data, timestamp),
            ),
            Some(ChannelData::Video { timestamp, data }) => SessionAction::Perform(
                self.send_video(data, timestamp),
            ),
            Some(ChannelData::MetaData { body }) => SessionAction::Perform(
                self.send_metadata(body),
            ),
            None => SessionAction::AwaitData,
        }
    }

    /// Ends the session after a failure. One that was playing tells the hub.
    fn on_failure(&mut self) -> (next: (SessionAction, Ghost<Outside>))
        ensures
            (final(self)@, next.0@) == failed_step(old(self)@, next.1@),
            next.1@.serves(next.0@),
    {
        let ghost mut outside: Outside = arbitrary();
        match self.state {
            ServerSessionState::Play => {
                if !self.reading {
                    let Ghost(told) = self.unsubscribe_from_channels();
                    proof {
                        outside.accepts_message = told;
                    }
                }
            },
            _ => {},
        }
        (SessionAction::GiveUp, Ghost(outside))
    }

    /// Takes what came of the last action and says what is to be done next. A
    /// session that was waiting for this report is again one that waits.
    pub fn run(&mut self, event: SessionEvent) -> (action: SessionAction)
        ensures
            exists|outside: Outside|
                {
                    &&& (final(self)@, action@) == #[trigger] transition(
                        old(self)@,
                        event,
                        outside,
                    )
                    &&& outside.serves(action@)
                },
            forall|asked: ActionView|
                #[trigger] awaits(old(self)@, asked) && reports_on(event, asked) ==> awaits(
                    final(self)@,
                    action@,
                ),
    {
        let (action, Ghost(outside)) = match event {
            SessionEvent::Done => self.proceed(Ghost(arbitrary())),
            SessionEvent::NetworkData(data) => (
                self.on_network_data(data),
                Ghost(arbitrary::<Outside>()),
            ),
            SessionEvent::HandshakeStep { finished, remaining } => self.handshake(
                finished,
                remaining,
            ),
            SessionEvent::Chunks(chunks) => {
                let mut chunks = chunks;
                let ghost before = self@;
                let ghost more = chunk_views(chunks@);
                self.chunks.append(&mut chunks);
                assert(self@ =~= (SessionModel { chunks: before.chunks + more, ..before }));
                self.proceed(Ghost(arbitrary()))
            },
            SessionEvent::NotChunks => self.proceed(Ghost(arbitrary())),
            SessionEvent::ChunksEnd => {
                self.reading = false;
                self.proceed(Ghost(arbitrary()))
            },
            SessionEvent::Message(message) => self.on_message(message),
            SessionEvent::Encoded(data) => (
                SessionAction::Perform(self.send_command(data)),
                Ghost(arbitrary::<Outside>()),
            ),
            SessionEvent::Data(data) => (
                self.send_media_data(data),
                Ghost(arbitrary::<Outside>()),
            ),
            SessionEvent::Publisher(publisher) => {
                match publisher {
                    Some(publisher) => {
                        self.data_producer = publisher;
                    },
                    None => {},
                }
                self.proceed(Ghost(arbitrary()))
            },
            SessionEvent::Consumer(consumer) => {
                match consumer {
                    Some(consumer) => {
                        self.take_consumer(consumer);
                    },
                    None => {},
                }
                self.proceed(Ghost(arbitrary()))
            },
            SessionEvent::Failed => self.on_failure(),
        };
        assert((self@, action@) == transition(old(self)@, event, outside));
        proof {
            assert forall|asked: ActionView| #[trigger]
                awaits(old(self)@, asked) && reports_on(event, asked) implies awaits(
                self@,
                action@,
            ) by {
                law_soundness_is_kept(old(self)@, asked, event, outside);
            }
        }
        action
    }
}

} // verus!
