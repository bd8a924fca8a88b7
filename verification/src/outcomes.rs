//! What a session makes of each thing that it is told, said on the values that
//! come in and go out: which chunk reaches the peer, which event the hub, which
//! media the data channel.

use crate::amf0::{Amf0Object, Amf0ValueType, Number};
use crate::buffer::bytes_of;
use crate::channels::{
    accepted_data, consumer_reply, cut_off, listens, publisher_reply, ChannelData,
    ChannelDataConsumer, ChannelDataPublisher, ChannelDataView, ChannelEvent, ChannelEventView,
};
use crate::chunk::{
    chunk_views, outgoing_chunk, ChunkInfo, ChunkStreamId, ChunkType, ChunkView, MessageTypeId,
};
use crate::errors::{SessionError, SessionErrorValue};
use crate::laws::{
    law_connect_is_answered, law_create_stream_is_answered, law_play_subscribes_last,
    law_publish_announces_last, lemma_commands_differ, lemma_proceed_frame,
};
use crate::messages::{number_of, play_name, play_reads, properties_of, text_of, RtmpMessageData};
use crate::model::{
    audio_chunk, command_outcome, command_rest, create_stream_steps, delete_stream_outcome,
    failure, hearers, media_outcome, message_outcome, message_rest, metadata_chunk, play_steps,
    proceed, publish_outcome, publish_reads, transition, video_chunk, with_consumer,
    Outside, ServerSessionState, SessionModel,
};
use crate::protocol::{
    step_views, ActionView, PeerBandwidthLimit, Request, RequestView, SessionAction, SessionEvent,
    Step, StepView,
};
use bytes::BytesMut;
use vstd::prelude::*;

verus! {

// The values.

/// A string is read as its text, a number as itself, an object as its properties.
/// A value of another kind is read as the empty text, as zero and as an object
/// without properties.
pub proof fn law_values_are_read_by_kind(value: Amf0ValueType)
    ensures
        value matches Amf0ValueType::UTF8String(text) ==> text_of(value) == text@,
        !(value is UTF8String) ==> text_of(value).len() == 0,
        value matches Amf0ValueType::Number(number) ==> number_of(value) == number,
        !(value is Number) ==> number_of(value).bits == 0,
        value matches Amf0ValueType::Object(object) ==> properties_of(value) == object@,
        !(value is Object) ==> forall|name: Seq<char>|
            !#[trigger] properties_of(value).dom().contains(name),
{
}

/// An error says why, and nothing else.
pub proof fn law_error_says_why(value: SessionErrorValue)
    ensures
        failure(value) == (SessionError { value }),
{
}

/// What a session sends goes out under a full header on message stream zero, with
/// all its bytes and with their number as the length, of which the field holds
/// the lower 32 bits.
pub proof fn law_chunk_carries_its_payload(
    csid: ChunkStreamId,
    timestamp: u32,
    msg_type_id: MessageTypeId,
    payload: Seq<u8>,
)
    ensures
        ({
            let chunk = outgoing_chunk(csid, timestamp, msg_type_id, payload);
            &&& chunk.csid == csid
            &&& chunk.format == ChunkType::Type0
            &&& chunk.timestamp == timestamp
            &&& chunk.msg_length as int == payload.len() % 0x1_0000_0000
            &&& chunk.msg_type_id == msg_type_id
            &&& chunk.msg_stream_id == 0
            &&& chunk.payload == payload
        }),
{
}

/// Audio, video and metadata each go out under their own kind, whatever they hold:
/// audio and video with their timestamp, metadata with none.
pub proof fn law_media_goes_out_under_its_kind(timestamp: u32, payload: Seq<u8>)
    ensures
        ({
            let chunk = audio_chunk(timestamp, payload);
            &&& chunk.csid == ChunkStreamId::Audio && chunk.msg_type_id == MessageTypeId::Audio
            &&& chunk.format == ChunkType::Type0
            &&& chunk.timestamp == timestamp
            &&& chunk.msg_length as int == payload.len() % 0x1_0000_0000
            &&& chunk.msg_stream_id == 0
            &&& chunk.payload == payload
        }),
        ({
            let chunk = video_chunk(timestamp, payload);
            &&& chunk.csid == ChunkStreamId::Video && chunk.msg_type_id == MessageTypeId::Video
            &&& chunk.format == ChunkType::Type0
            &&& chunk.timestamp == timestamp
            &&& chunk.msg_length as int == payload.len() % 0x1_0000_0000
            &&& chunk.msg_stream_id == 0
            &&& chunk.payload == payload
        }),
        ({
            let chunk = metadata_chunk(payload);
            &&& chunk.csid == ChunkStreamId::DataAmf0Amf3
            &&& chunk.msg_type_id == MessageTypeId::DataAmf0
            &&& chunk.format == ChunkType::Type0
            &&& chunk.timestamp == 0
            &&& chunk.msg_length as int == payload.len() % 0x1_0000_0000
            &&& chunk.msg_stream_id == 0
            &&& chunk.payload == payload
        }),
{
}

/// What is said of a chunk is what its fields say.
pub proof fn law_chunk_is_seen_by_field(chunk: ChunkInfo)
    ensures
        chunk@.csid == chunk.csid,
        chunk@.format == chunk.format,
        chunk@.timestamp == chunk.timestamp,
        chunk@.msg_length == chunk.msg_length,
        chunk@.msg_type_id == chunk.msg_type_id,
        chunk@.msg_stream_id == chunk.msg_stream_id,
        chunk@.payload == bytes_of(chunk.payload),
{
}

/// Lists of chunks and of steps are seen item by item, in their order.
pub proof fn law_lists_are_seen_item_by_item(chunks: Seq<ChunkInfo>, steps: Seq<Step>)
    ensures
        chunk_views(chunks).len() == chunks.len(),
        forall|i: int| 0 <= i < chunks.len() ==> #[trigger] chunk_views(chunks)[i] == chunks[i]@,
        step_views(steps).len() == steps.len(),
        forall|i: int| 0 <= i < steps.len() ==> #[trigger] step_views(steps)[i] == steps[i]@,
{
}

/// What is said of media is its kind, its timestamp and its bytes.
pub proof fn law_media_is_seen_by_field(data: ChannelData)
    ensures
        match data {
            ChannelData::Video { timestamp, data: content } => data@ == (ChannelDataView::Video {
                timestamp,
                data: bytes_of(content),
            }),
            ChannelData::Audio { timestamp, data: content } => data@ == (ChannelDataView::Audio {
                timestamp,
                data: bytes_of(content),
            }),
            ChannelData::MetaData { body } => data@ == (ChannelDataView::MetaData {
                body: bytes_of(body),
            }),
        },
{
}

/// What is said of an event is its kind, its names, its number and its responder.
pub proof fn law_event_is_seen_by_field(event: ChannelEvent)
    ensures
        match event {
            ChannelEvent::Subscribe { app_name, stream_name, session_id, responder } => event@ == (
            ChannelEventView::Subscribe {
                app_name: app_name@,
                stream_name: stream_name@,
                session_id,
                responder,
            }),
            ChannelEvent::UnSubscribe { app_name, stream_name, session_id } => event@ == (
            ChannelEventView::UnSubscribe {
                app_name: app_name@,
                stream_name: stream_name@,
                session_id,
            }),
            ChannelEvent::Publish { app_name, stream_name, responder } => event@ == (
            ChannelEventView::Publish {
                app_name: app_name@,
                stream_name: stream_name@,
                responder,
            }),
            ChannelEvent::UnPublish { app_name, stream_name } => event@ == (
            ChannelEventView::UnPublish { app_name: app_name@, stream_name: stream_name@ }),
        },
{
}

/// What is said of a request is its kind and its fields.
pub proof fn law_request_is_seen_by_field(request: Request)
    ensures
        match request {
            Request::WindowAcknowledgementSize { size } => request@ == (
            RequestView::WindowAcknowledgementSize { size }),
            Request::SetPeerBandwidth { bandwidth, limit } => request@ == (
            RequestView::SetPeerBandwidth { bandwidth, limit }),
            Request::SetChunkSize { size } => request@ == (RequestView::SetChunkSize { size }),
            Request::StreamBegin { stream_id } => request@ == (RequestView::StreamBegin {
                stream_id,
            }),
            Request::StreamIsRecord { stream_id } => request@ == (RequestView::StreamIsRecord {
                stream_id,
            }),
            Request::OnStatus { transaction_id, level, code, description } => request@ == (
            RequestView::OnStatus {
                transaction_id,
                level: level@,
                code: code@,
                description: description@,
            }),
            Request::WriteChunk(chunk) => request@ == RequestView::WriteChunk(chunk@),
            Request::EncodeConnectResponse {
                transaction_id,
                fms_version,
                capabilities,
                code,
                level,
                description,
                encoding,
            } => request@ == (RequestView::EncodeConnectResponse {
                transaction_id,
                fms_version: fms_version@,
                capabilities,
                code: code@,
                level: level@,
                description: description@,
                encoding,
            }),
            Request::EncodeCreateStreamResponse { transaction_id, stream_id } => request@ == (
            RequestView::EncodeCreateStreamResponse { transaction_id, stream_id }),
            Request::UpdateMaxChunkSize { size } => request@ == (RequestView::UpdateMaxChunkSize {
                size,
            }),
        },
{
}

/// What is said of a step is its kind and what it names.
pub proof fn law_step_is_seen_by_field(step: Step)
    ensures
        match step {
            Step::Perform(request) => step@ == StepView::Perform(request@),
            Step::AcceptApp(name) => step@ == StepView::AcceptApp(name@),
            Step::Subscribe(name) => step@ == StepView::Subscribe(name@),
            Step::Publish => step@ == StepView::Publish,
            Step::EnterPlay => step@ == StepView::EnterPlay,
            Step::Halt => step@ == StepView::Halt,
            Step::Fail(error) => step@ == StepView::Fail(error),
        },
{
}

/// What is said of an action is its kind and its fields.
pub proof fn law_action_is_seen_by_field(action: SessionAction)
    ensures
        match action {
            SessionAction::Perform(request) => action@ == ActionView::Perform(request@),
            SessionAction::ReadNetwork => action@ == ActionView::ReadNetwork,
            SessionAction::Handshake { data } => action@ == (ActionView::Handshake {
                data: bytes_of(data),
            }),
            SessionAction::ExtendUnpacketizer { data } => action@ == (
            ActionView::ExtendUnpacketizer { data: bytes_of(data) }),
            SessionAction::ReadChunks { session_type } => action@ == (ActionView::ReadChunks {
                session_type,
            }),
            SessionAction::ParseMessage { chunk, session_type } => action@ == (
            ActionView::ParseMessage { chunk: chunk@, session_type }),
            SessionAction::AwaitData => action@ == ActionView::AwaitData,
            SessionAction::AwaitPublisher { reply } => action@ == (ActionView::AwaitPublisher {
                reply,
            }),
            SessionAction::AwaitConsumer { reply } => action@ == (ActionView::AwaitConsumer {
                reply,
            }),
            SessionAction::Fail(error) => action@ == ActionView::Fail(error),
            SessionAction::GiveUp => action@ == ActionView::GiveUp,
            SessionAction::Halt => action@ == ActionView::Halt,
        },
{
}

// The work at hand.

/// A report that brings nothing is the same to a session whichever it is: it goes
/// on with the work at hand.
pub proof fn law_empty_reports_are_alike(session: SessionModel, outside: Outside)
    ensures
        ({
            let next = transition(session, SessionEvent::Done, outside);
            &&& transition(session, SessionEvent::NotChunks, outside) == next
            &&& transition(session, SessionEvent::Publisher(None), outside) == next
            &&& transition(session, SessionEvent::Consumer(None), outside) == next
            &&& transition(session, SessionEvent::Message(RtmpMessageData::Other), outside) == next
            &&& proceed(session, outside) == next
        }),
{
    assert(Seq::<StepView>::empty() + session.tasks =~= session.tasks);
}

/// Steps are taken from the front, one by one, and each does what it says and
/// nothing else. One that subscribes or publishes sends the hub one event, which
/// names the session's application and stream and holds the responder whose other
/// end the session then waits at. Where the hub does not take it, the session ends.
pub proof fn law_step_does_what_it_says(session: SessionModel, outside: Outside)
    requires
        session.tasks.len() > 0,
    ensures
        ({
            let result = transition(session, SessionEvent::Done, outside);
            let tasks = session.tasks.skip(1);
            let refused = ActionView::Fail(
                SessionError { value: SessionErrorValue::ChannelEventSendErr },
            );
            match session.tasks[0] {
                StepView::Perform(request) => result == (
                    SessionModel { tasks, ..session },
                    ActionView::Perform(request),
                ),
                StepView::AcceptApp(app_name) => result == transition(
                    SessionModel { tasks, app_name, ..session },
                    SessionEvent::Done,
                    outside,
                ),
                StepView::Subscribe(stream_name) => {
                    let told = ChannelEventView::Subscribe {
                        app_name: session.app_name,
                        stream_name,
                        session_id: session.session_id,
                        responder: outside.consumer.0,
                    };
                    let offered = session.offered.push(told);
                    if outside.accepts_step {
                        result == (
                            SessionModel {
                                tasks,
                                stream_name,
                                offered,
                                events: session.events.push(told),
                                ..session
                            },
                            ActionView::AwaitConsumer { reply: outside.consumer.1 },
                        )
                    } else {
                        result == (SessionModel { tasks, stream_name, offered, ..session }, refused)
                    }
                },
                StepView::Publish => {
                    let told = ChannelEventView::Publish {
                        app_name: session.app_name,
                        stream_name: session.stream_name,
                        responder: outside.publisher.0,
                    };
                    let offered = session.offered.push(told);
                    if outside.accepts_step {
                        result == (
                            SessionModel {
                                tasks,
                                offered,
                                events: session.events.push(told),
                                ..session
                            },
                            ActionView::AwaitPublisher { reply: outside.publisher.1 },
                        )
                    } else {
                        result == (SessionModel { tasks, offered, ..session }, refused)
                    }
                },
                StepView::EnterPlay => result == transition(
                    SessionModel { tasks, state: ServerSessionState::Play, ..session },
                    SessionEvent::Done,
                    outside,
                ),
                StepView::Halt => result == (SessionModel { tasks, ..session }, ActionView::Halt),
                StepView::Fail(error) => result == (
                    SessionModel { tasks, ..session },
                    ActionView::Fail(error),
                ),
            }
        }),
{
}

/// When no step is left, the next chunk is parsed with the session type that is in
/// force; when none is left, the unpacketizer is asked for more while the reading
/// round lasts. Outside a round a session that shakes hands reads from its peer, one
/// that plays waits for data, and one that reads does so, unless the handshake has
/// left bytes over, which are unpacked first.
pub proof fn law_work_is_followed_by_reading(session: SessionModel, outside: Outside)
    requires
        session.tasks.len() == 0,
    ensures
        ({
            let result = transition(session, SessionEvent::Done, outside);
            let unpacks = ActionView::ReadChunks {
                session_type: session.unpacketizer_session_type,
            };
            if session.chunks.len() > 0 {
                let chunk = session.chunks[0];
                result == (
                    SessionModel {
                        chunks: session.chunks.skip(1),
                        msg_stream_id: chunk.msg_stream_id,
                        timestamp: chunk.timestamp,
                        ..session
                    },
                    ActionView::ParseMessage { chunk, session_type: session.session_type },
                )
            } else if session.reading {
                result == (session, unpacks)
            } else if session.state == ServerSessionState::Play {
                result == (session, ActionView::AwaitData)
            } else if session.state == ServerSessionState::ReadChunk && session.need_process {
                result == (SessionModel { need_process: false, reading: true, ..session }, unpacks)
            } else {
                result == (session, ActionView::ReadNetwork)
            }
        }),
{
}

// The reports.

/// Bytes from the peer go to the handshaker before the handshake is over and to the
/// unpacketizer after it, all of them and in their order.
pub proof fn law_bytes_are_passed_on_whole(
    session: SessionModel,
    data: BytesMut,
    outside: Outside,
)
    ensures
        ({
            let result = transition(session, SessionEvent::NetworkData(data), outside);
            let content = bytes_of(data);
            if session.state == ServerSessionState::Handshake {
                result == (
                    SessionModel { netio_data: content, ..session },
                    ActionView::Handshake { data: content },
                )
            } else {
                result == (
                    SessionModel {
                        netio_data: content,
                        need_process: false,
                        reading: true,
                        ..session
                    },
                    ActionView::ExtendUnpacketizer { data: content },
                )
            }
        }),
{
}

/// A handshake that is over lets the session read, and the unpacketizer gets all
/// the bytes that are left, if there are any. One that is not over changes nothing.
pub proof fn law_handshake_ends_in_reading(
    session: SessionModel,
    remaining: BytesMut,
    outside: Outside,
)
    ensures
        ({
            let event = SessionEvent::HandshakeStep { finished: true, remaining };
            let ready = SessionModel { state: ServerSessionState::ReadChunk, ..session };
            if bytes_of(remaining).len() > 0 {
                transition(session, event, outside) == (
                    SessionModel { need_process: true, ..ready },
                    ActionView::ExtendUnpacketizer { data: bytes_of(remaining) },
                )
            } else {
                transition(session, event, outside) == transition(
                    ready,
                    SessionEvent::Done,
                    outside,
                )
            }
        }),
        transition(
            session,
            SessionEvent::HandshakeStep { finished: false, remaining },
            outside,
        ) == transition(session, SessionEvent::Done, outside),
{
}

/// Chunks are queued behind those that wait, each with all its fields, and none
/// twice. When the unpacketizer has nothing more, the round is over.
pub proof fn law_chunks_are_queued(
    session: SessionModel,
    chunks: Vec<ChunkInfo>,
    queue: Seq<ChunkView>,
    outside: Outside,
)
    requires
        queue.len() == session.chunks.len() + chunks@.len(),
        forall|i: int| 0 <= i < session.chunks.len() ==> queue[i] == session.chunks[i],
        forall|i: int|
            0 <= i < chunks@.len() ==> queue[session.chunks.len() + i] == (ChunkView {
                csid: (#[trigger] chunks@[i]).csid,
                format: chunks@[i].format,
                timestamp: chunks@[i].timestamp,
                msg_length: chunks@[i].msg_length,
                msg_type_id: chunks@[i].msg_type_id,
                msg_stream_id: chunks@[i].msg_stream_id,
                payload: bytes_of(chunks@[i].payload),
            }),
    ensures
        transition(session, SessionEvent::Chunks(chunks), outside) == transition(
            SessionModel { chunks: queue, ..session },
            SessionEvent::Done,
            outside,
        ),
        transition(session, SessionEvent::ChunksEnd, outside) == transition(
            SessionModel { reading: false, ..session },
            SessionEvent::Done,
            outside,
        ),
{
    let all = session.chunks + chunk_views(chunks@);
    assert forall|i: int| 0 <= i < queue.len() implies queue[i] == all[i] by {
        if i >= session.chunks.len() {
            let j = i - session.chunks.len();
            assert(queue[session.chunks.len() + j] == chunks@[j]@);
        }
    }
    assert(queue =~= all);
}

/// An encoded answer is written as a command, with all its bytes: the chunk that
/// the session has written next carries exactly those, and nothing else changes.
pub proof fn law_encoded_answer_is_written_whole(
    session: SessionModel,
    answer: BytesMut,
    outside: Outside,
)
    ensures
        ({
            let (after, action) = transition(session, SessionEvent::Encoded(answer), outside);
            let chunk = action->Perform_0->WriteChunk_0;
            &&& after == session
            &&& action is Perform && action->Perform_0 is WriteChunk
            &&& chunk.csid == ChunkStreamId::CommandAmf0Amf3
            &&& chunk.format == ChunkType::Type0
            &&& chunk.timestamp == 0
            &&& chunk.msg_length as int == bytes_of(answer).len() % 0x1_0000_0000
            &&& chunk.msg_type_id == MessageTypeId::CommandAmf0
            &&& chunk.msg_stream_id == 0
            &&& chunk.payload == bytes_of(answer)
        }),
{
}

/// What the data channel delivers is written to the peer under its own kind,
/// whatever its size: audio as audio and video as video, with their timestamp, and
/// metadata as data. Each chunk has a full header on message stream zero and carries
/// exactly the bytes that came. When nothing comes, the session waits on.
pub proof fn law_delivered_media_keeps_its_kind(
    session: SessionModel,
    data: ChannelData,
    outside: Outside,
)
    ensures
        transition(session, SessionEvent::Data(None), outside) == (session, ActionView::AwaitData),
        ({
            let (after, action) = transition(session, SessionEvent::Data(Some(data)), outside);
            let chunk = action->Perform_0->WriteChunk_0;
            &&& after == session
            &&& action is Perform && action->Perform_0 is WriteChunk
            &&& chunk.format == ChunkType::Type0
            &&& chunk.msg_stream_id == 0
            &&& match data {
                ChannelData::Audio { timestamp, data } => {
                    &&& chunk.csid == ChunkStreamId::Audio
                    &&& chunk.msg_type_id == MessageTypeId::Audio
                    &&& chunk.timestamp == timestamp
                    &&& chunk.payload == bytes_of(data)
                    &&& chunk.msg_length as int == bytes_of(data).len() % 0x1_0000_0000
                },
                ChannelData::Video { timestamp, data } => {
                    &&& chunk.csid == ChunkStreamId::Video
                    &&& chunk.msg_type_id == MessageTypeId::Video
                    &&& chunk.timestamp == timestamp
                    &&& chunk.payload == bytes_of(data)
                    &&& chunk.msg_length as int == bytes_of(data).len() % 0x1_0000_0000
                },
                ChannelData::MetaData { body } => {
                    &&& chunk.csid == ChunkStreamId::DataAmf0Amf3
                    &&& chunk.msg_type_id == MessageTypeId::DataAmf0
                    &&& chunk.timestamp == 0
                    &&& chunk.payload == bytes_of(body)
                    &&& chunk.msg_length as int == bytes_of(body).len() % 0x1_0000_0000
                },
            }
        }),
{
}

/// The sending end that the hub hands out is the one that the session sends into
/// from then on, and that is all that changes.
pub proof fn law_publisher_is_taken_over(
    session: SessionModel,
    publisher: ChannelDataPublisher,
    hears: spec_fn(ChannelDataConsumer) -> bool,
    outside: Outside,
)
    requires
        forall|consumer: ChannelDataConsumer|
            #[trigger] hears(consumer) == listens(consumer, publisher),
    ensures
        transition(session, SessionEvent::Publisher(Some(publisher)), outside) == transition(
            SessionModel {
                published: accepted_data(publisher),
                hears,
                cut_off: cut_off(publisher),
                ..session
            },
            SessionEvent::Done,
            outside,
        ),
{
    assert(hears =~= hearers(publisher));
}

/// The receiving end that the hub hands out is the one that the session plays from
/// from then on. The one that it had is given up: if that was the other end of the
/// session's own data channel, nobody is left there. That is all that changes.
pub proof fn law_consumer_is_taken_over(
    session: SessionModel,
    consumer: ChannelDataConsumer,
    hears: spec_fn(ChannelDataConsumer) -> bool,
    outside: Outside,
)
    requires
        forall|other: ChannelDataConsumer|
            #[trigger] hears(other) == ((session.hears)(other) && !(session.hears)(
                session.consumer,
            )),
    ensures
        transition(session, SessionEvent::Consumer(Some(consumer)), outside) == transition(
            SessionModel {
                consumer,
                hears,
                cut_off: session.cut_off || (session.hears)(session.consumer),
                ..session
            },
            SessionEvent::Done,
            outside,
        ),
{
    assert(hears =~= with_consumer(session, consumer).hears);
}

/// A failure ends the session. If it plays, and only then, the hub is sent one
/// event: that the session no longer listens to its stream.
pub proof fn law_failure_unsubscribes_a_player(session: SessionModel, outside: Outside)
    ensures
        ({
            let (after, action) = transition(session, SessionEvent::Failed, outside);
            let told = ChannelEventView::UnSubscribe {
                app_name: session.app_name,
                stream_name: session.stream_name,
                session_id: session.session_id,
            };
            let offered = session.offered.push(told);
            &&& action == ActionView::GiveUp
            &&& if session.state == ServerSessionState::Play && !session.reading {
                if outside.accepts_message {
                    after == (SessionModel {
                        offered,
                        events: session.events.push(told),
                        ..session
                    })
                } else {
                    after == (SessionModel { offered, ..session })
                }
            } else {
                after == session
            }
        }),
{
}

/// A session that waits for an answer of the hub waits where the answer arrives: at
/// the other end of the responder in the event that it sent last.
pub proof fn law_answers_arrive_where_they_are_awaited(
    session: SessionModel,
    event: SessionEvent,
    outside: Outside,
)
    requires
        outside.serves(transition(session, event, outside).1),
    ensures
        ({
            let (after, action) = transition(session, event, outside);
            &&& action matches ActionView::AwaitPublisher { reply } ==> {
                &&& after.offered.len() > 0 && after.offered.last() is Publish
                &&& publisher_reply(after.offered.last()->Publish_responder, reply)
            }
            &&& action matches ActionView::AwaitConsumer { reply } ==> {
                &&& after.offered.len() > 0 && after.offered.last() is Subscribe
                &&& consumer_reply(after.offered.last()->Subscribe_responder, reply)
            }
        }),
{
    match event {
        SessionEvent::HandshakeStep { finished, remaining } => {
            lemma_awaits_what_it_sent(session, outside);
            lemma_awaits_what_it_sent(
                SessionModel { state: ServerSessionState::ReadChunk, ..session },
                outside,
            );
        },
        SessionEvent::Chunks(chunks) => {
            lemma_awaits_what_it_sent(
                SessionModel { chunks: session.chunks + chunk_views(chunks@), ..session },
                outside,
            );
        },
        SessionEvent::ChunksEnd => {
            lemma_awaits_what_it_sent(SessionModel { reading: false, ..session }, outside);
        },
        SessionEvent::Message(message) => {
            let (acted, steps) = message_outcome(
                session,
                message,
                session.msg_stream_id,
                session.timestamp,
                outside.accepts_message,
            );
            if steps is Ok {
                lemma_awaits_what_it_sent(
                    SessionModel { tasks: steps->Ok_0 + acted.tasks, ..acted },
                    outside,
                );
            }
        },
        SessionEvent::Publisher(Some(publisher)) => {
            lemma_awaits_what_it_sent(
                SessionModel {
                    published: accepted_data(publisher),
                    hears: hearers(publisher),
                    cut_off: cut_off(publisher),
                    ..session
                },
                outside,
            );
        },
        SessionEvent::Consumer(Some(consumer)) => {
            lemma_awaits_what_it_sent(with_consumer(session, consumer), outside);
        },
        _ => {
            lemma_awaits_what_it_sent(session, outside);
        },
    }
}

proof fn lemma_awaits_what_it_sent(session: SessionModel, outside: Outside)
    ensures
        ({
            let (after, action) = proceed(session, outside);
            &&& action is AwaitPublisher ==> {
                &&& after.offered.len() > 0 && after.offered.last() is Publish
                &&& after.offered.last()->Publish_responder == outside.publisher.0
            }
            &&& action is AwaitConsumer ==> {
                &&& after.offered.len() > 0 && after.offered.last() is Subscribe
                &&& after.offered.last()->Subscribe_responder == outside.consumer.0
            }
        }),
    decreases session.tasks.len(),
{
    if session.tasks.len() > 0 {
        let rest = SessionModel { tasks: session.tasks.skip(1), ..session };
        match session.tasks[0] {
            StepView::AcceptApp(app_name) => {
                lemma_awaits_what_it_sent(SessionModel { app_name, ..rest }, outside);
            },
            StepView::EnterPlay => {
                lemma_awaits_what_it_sent(
                    SessionModel { state: ServerSessionState::Play, ..rest },
                    outside,
                );
            },
            _ => {},
        }
    }
}

// The messages.

/// What comes of a message is what [`message_outcome`] says for the stream and the
/// time of the chunk that it came in: the steps go before those that are left, and
/// where there is an error the session ends with it.
pub proof fn law_message_is_followed_by_its_steps(
    session: SessionModel,
    message: RtmpMessageData,
    outside: Outside,
)
    ensures
        ({
            let result = transition(session, SessionEvent::Message(message), outside);
            let (after, steps) = message_outcome(
                session,
                message,
                session.msg_stream_id,
                session.timestamp,
                outside.accepts_message,
            );
            match steps {
                Ok(steps) => result == transition(
                    SessionModel { tasks: steps + after.tasks, ..after },
                    SessionEvent::Done,
                    outside,
                ),
                Err(error) => result == (after, ActionView::Fail(error)),
            }
        }),
{
}

/// Media goes into the session's data channel as it came, under its own kind, with
/// all its bytes, and audio and video with the time of the message. It is taken
/// where the session holds the other end itself, is not where the session has given
/// that end up, and otherwise as the channel will have it. Where it is not taken,
/// nothing changes and the session ends.
pub proof fn law_received_media_keeps_its_kind(
    session: SessionModel,
    data: BytesMut,
    msg_stream_id: u32,
    timestamp: u32,
    accepted: bool,
)
    ensures
        ({
            let taken = (session.hears)(session.consumer) || (accepted && !session.cut_off);
            let refused = (
                session,
                Err::<Seq<StepView>, SessionError>(
                    SessionError { value: SessionErrorValue::SendChannelDataErr },
                ),
            );
            let audio = ChannelDataView::Audio { timestamp, data: bytes_of(data) };
            let video = ChannelDataView::Video { timestamp, data: bytes_of(data) };
            let metadata = ChannelDataView::MetaData { body: bytes_of(data) };
            let outcome = |message: RtmpMessageData|
                message_outcome(session, message, msg_stream_id, timestamp, accepted);
            &&& outcome(RtmpMessageData::AudioData { data }) == (if taken {
                (
                    SessionModel { published: session.published.push(audio), ..session },
                    Ok(Seq::<StepView>::empty()),
                )
            } else {
                refused
            })
            &&& outcome(RtmpMessageData::VideoData { data }) == (if taken {
                (
                    SessionModel { published: session.published.push(video), ..session },
                    Ok(Seq::<StepView>::empty()),
                )
            } else {
                refused
            })
            &&& outcome(RtmpMessageData::AmfData { raw_data: data }) == (if taken {
                (
                    SessionModel { published: session.published.push(metadata), ..session },
                    Ok(Seq::<StepView>::empty()),
                )
            } else {
                refused
            })
        }),
{
}

/// Any media at all is either put at the end of what was published, or refused.
pub proof fn law_media_is_appended_or_refused(
    session: SessionModel,
    data: ChannelDataView,
    accepted: bool,
)
    ensures
        media_outcome(session, data, accepted) == (if (session.hears)(session.consumer) || (
        accepted && !session.cut_off) {
            (
                SessionModel { published: session.published.push(data), ..session },
                Ok(Seq::<StepView>::empty()),
            )
        } else {
            (
                session,
                Err::<Seq<StepView>, SessionError>(
                    SessionError { value: SessionErrorValue::SendChannelDataErr },
                ),
            )
        }),
{
}

/// A chunk size of the peer goes to the unpacketizer as it is. A message of a kind
/// that a session has no use for does nothing.
pub proof fn law_chunk_size_is_passed_on(
    session: SessionModel,
    chunk_size: u32,
    size: usize,
    msg_stream_id: u32,
    timestamp: u32,
    accepted: bool,
)
    requires
        size == chunk_size,
    ensures
        message_outcome(
            session,
            RtmpMessageData::SetChunkSize { chunk_size },
            msg_stream_id,
            timestamp,
            accepted,
        ) == (
            session,
            Ok::<Seq<StepView>, SessionError>(
                seq![StepView::Perform(RequestView::UpdateMaxChunkSize { size })],
            ),
        ),
        message_outcome(
            session,
            RtmpMessageData::Other,
            msg_stream_id,
            timestamp,
            accepted,
        ) == (session, Ok::<Seq<StepView>, SessionError>(Seq::empty())),
{
}

/// The transaction of a command: the number that it names, or zero where what it
/// names is no number. A command message is acted on by its five parts.
pub proof fn law_command_is_read_by_its_parts(
    session: SessionModel,
    command_name: Amf0ValueType,
    transaction_id: Amf0ValueType,
    command_object: Amf0ValueType,
    others: Vec<Amf0ValueType>,
    msg_stream_id: u32,
    timestamp: u32,
    accepted: bool,
    plain: Number,
)
    requires
        plain == (match transaction_id {
            Amf0ValueType::Number(number) => number,
            _ => Number { bits: 0 },
        }),
    ensures
        message_outcome(
            session,
            RtmpMessageData::Amf0Command { command_name, transaction_id, command_object, others },
            msg_stream_id,
            timestamp,
            accepted,
        ) == command_outcome(
            session,
            msg_stream_id,
            command_name,
            Amf0ValueType::Number(plain),
            command_object,
            others@,
            accepted,
        ),
        command_outcome(
            session,
            msg_stream_id,
            command_name,
            transaction_id,
            command_object,
            others@,
            accepted,
        ) == command_outcome(
            session,
            msg_stream_id,
            command_name,
            Amf0ValueType::Number(plain),
            command_object,
            others@,
            accepted,
        ),
{
}

/// A command whose name is no string, or is none of the five that a session knows,
/// does nothing.
pub proof fn law_other_commands_do_nothing(
    session: SessionModel,
    stream_id: u32,
    command_name: Amf0ValueType,
    transaction_id: Amf0ValueType,
    command_object: Amf0ValueType,
    others: Seq<Amf0ValueType>,
    accepted: bool,
)
    requires
        command_name matches Amf0ValueType::UTF8String(name) ==> {
            &&& name@ != "connect"@
            &&& name@ != "createStream"@
            &&& name@ != "deleteStream"@
            &&& name@ != "play"@
            &&& name@ != "publish"@
        },
    ensures
        command_outcome(
            session,
            stream_id,
            command_name,
            transaction_id,
            command_object,
            others,
            accepted,
        ) == (session, Ok::<Seq<StepView>, SessionError>(Seq::empty())),
        command_rest(command_name, others) == others,
{
    reveal_strlit("connect");
    reveal_strlit("createStream");
    reveal_strlit("deleteStream");
    reveal_strlit("play");
    reveal_strlit("publish");
    assert("connect"@.len() > 0 && "createStream"@.len() > 0 && "deleteStream"@.len() > 0);
    assert("play"@.len() > 0 && "publish"@.len() > 0);
}

/// A `connect` is greeted with the window, the bandwidth and the chunk size. If the
/// property `app` of its object is a string, the session takes that string, and no
/// other, for the name of its application, whatever else the object holds, and
/// answers with the encoding that the object asks for by a number. If it is not, the
/// session ends after the greeting.
pub proof fn law_connect_takes_the_app_property(
    session: SessionModel,
    stream_id: u32,
    name: String,
    transaction_id: Number,
    command_object: Amf0ValueType,
    others: Seq<Amf0ValueType>,
    accepted: bool,
)
    requires
        name@ == "connect"@,
    ensures
        ({
            let settings = session.settings;
            let (after, outcome) = command_outcome(
                session,
                stream_id,
                Amf0ValueType::UTF8String(name),
                Amf0ValueType::Number(transaction_id),
                command_object,
                others,
                accepted,
            );
            let steps = outcome->Ok_0;
            &&& after == session
            &&& outcome is Ok
            &&& command_rest(Amf0ValueType::UTF8String(name), others) == others
            &&& steps[0] == StepView::Perform(
                RequestView::WindowAcknowledgementSize {
                    size: settings.window_acknowledgement_size,
                },
            )
            &&& steps[1] == StepView::Perform(
                RequestView::SetPeerBandwidth {
                    bandwidth: settings.peer_bandwidth,
                    limit: PeerBandwidthLimit::Dynamic,
                },
            )
            &&& steps[2] == StepView::Perform(
                RequestView::SetChunkSize { size: settings.chunk_size },
            )
            &&& if command_object is Object && command_object->Object_0@.dom().contains("app"@)
                && command_object->Object_0@["app"@] is UTF8String {
                let properties = command_object->Object_0@;
                let app = properties["app"@]->UTF8String_0;
                let asks = properties.dom().contains("objectEncoding"@)
                    && properties["objectEncoding"@] is Number;
                &&& steps.len() == 5
                &&& steps[3] == StepView::AcceptApp(app@)
                &&& steps[4] == StepView::Perform(
                    RequestView::EncodeConnectResponse {
                        transaction_id,
                        fms_version: settings.fms_version@,
                        capabilities: settings.capabilities,
                        code: "NetConnection.Connect.Success"@,
                        level: settings.level@,
                        description: "Connection Succeeded."@,
                        encoding: if asks {
                            properties["objectEncoding"@]->Number_0
                        } else {
                            settings.object_encoding
                        },
                    },
                )
            } else {
                &&& steps.len() == 4
                &&& steps[3] == StepView::Fail(
                    SessionError { value: SessionErrorValue::NoAppName },
                )
            }
        }),
{
}

/// A `createStream` makes the session answer its transaction with the number of the
/// message stream, and nothing else.
pub proof fn law_create_stream_names_the_stream(
    session: SessionModel,
    stream_id: u32,
    name: String,
    transaction_id: Number,
    command_object: Amf0ValueType,
    others: Seq<Amf0ValueType>,
    accepted: bool,
)
    requires
        name@ == "createStream"@,
    ensures
        ({
            let steps = seq![
                StepView::Perform(
                    RequestView::EncodeCreateStreamResponse {
                        transaction_id,
                        stream_id: session.settings.stream_id,
                    },
                ),
            ];
            &&& create_stream_steps(session.settings, transaction_id) == steps
            &&& command_outcome(
                session,
                stream_id,
                Amf0ValueType::UTF8String(name),
                Amf0ValueType::Number(transaction_id),
                command_object,
                others,
                accepted,
            ) == (session, Ok::<Seq<StepView>, SessionError>(steps))
            &&& command_rest(Amf0ValueType::UTF8String(name), others) == others
        }),
{
    lemma_commands_differ();
}

/// The end of a stream is sent to the hub under the session's names. If the hub
/// takes it, the peer is told with one status message. If it does not, the session
/// ends.
pub proof fn law_unpublish_names_the_stream(
    session: SessionModel,
    transaction_id: Number,
    accepted: bool,
)
    ensures
        ({
            let (after, outcome) = delete_stream_outcome(session, transaction_id, accepted);
            let told = ChannelEventView::UnPublish {
                app_name: session.app_name,
                stream_name: session.stream_name,
            };
            let offered = session.offered.push(told);
            if accepted {
                &&& after == (SessionModel {
                    offered,
                    events: session.events.push(told),
                    ..session
                })
                &&& outcome == Ok::<Seq<StepView>, SessionError>(
                    seq![
                        StepView::Perform(
                            RequestView::OnStatus {
                                transaction_id,
                                level: "status"@,
                                code: "NetStream.DeleteStream.Suceess"@,
                                description: ""@,
                            },
                        ),
                    ],
                )
            } else {
                &&& after == (SessionModel { offered, ..session })
                &&& outcome == Err::<Seq<StepView>, SessionError>(
                    SessionError { value: SessionErrorValue::ChannelEventSendErr },
                )
            }
        }),
{
}

/// A `deleteStream` with a value ends the session's stream, whatever the value is,
/// and uses up the last of its values. One without a value does nothing.
pub proof fn law_delete_stream_ends_the_stream(
    session: SessionModel,
    stream_id: u32,
    name: String,
    transaction_id: Number,
    command_object: Amf0ValueType,
    others: Seq<Amf0ValueType>,
    accepted: bool,
)
    requires
        name@ == "deleteStream"@,
    ensures
        ({
            let outcome = command_outcome(
                session,
                stream_id,
                Amf0ValueType::UTF8String(name),
                Amf0ValueType::Number(transaction_id),
                command_object,
                others,
                accepted,
            );
            let rest = command_rest(Amf0ValueType::UTF8String(name), others);
            if others.len() > 0 {
                &&& outcome == delete_stream_outcome(session, transaction_id, accepted)
                &&& rest == others.subrange(0, others.len() - 1)
            } else {
                &&& outcome == (session, Ok::<Seq<StepView>, SessionError>(Seq::empty()))
                &&& rest == others
            }
        }),
{
    lemma_commands_differ();
}

/// A `play` reads four values, or as many as there are, in a count of eight bits,
/// and a `publish` two. It stops at the first where that is no string, and reads none
/// where there are less than two.
pub proof fn law_commands_use_up_what_they_read(
    play: String,
    publish: String,
    others: Seq<Amf0ValueType>,
)
    requires
        play@ == "play"@,
        publish@ == "publish"@,
    ensures
        ({
            let count = others.len() % 256;
            let read = if count < 4 {
                count as int
            } else {
                4
            };
            &&& play_reads(others) == read
            &&& command_rest(Amf0ValueType::UTF8String(play), others) == others.subrange(
                read,
                others.len() as int,
            )
        }),
        ({
            let read: int = if others.len() < 2 {
                0
            } else if others[0] is UTF8String {
                2
            } else {
                1
            };
            &&& publish_reads(others) == read
            &&& command_rest(Amf0ValueType::UTF8String(publish), others) == others.subrange(
                read,
                others.len() as int,
            )
        }),
{
    lemma_commands_differ();
    assert(others.skip(0) =~= others);
}

/// Acting on a message uses up values of a command and leaves everything else in
/// the message as it was.
pub proof fn law_message_keeps_what_is_not_read(before: RtmpMessageData, after: RtmpMessageData)
    requires
        message_rest(before, after),
    ensures
        match before {
            RtmpMessageData::Amf0Command { command_name, transaction_id, command_object, others } =>
            {
                &&& after is Amf0Command
                &&& after->command_name == command_name
                &&& after->transaction_id == transaction_id
                &&& after->command_object == command_object
                &&& after->others@ == command_rest(command_name, others@)
                &&& after->others@.len() <= others@.len()
            },
            _ => after == before,
        },
{
}

/// The steps of a `play`: six messages on the command's message stream and for its
/// transaction, then the subscription to the stream with this name, after which the
/// session plays. Where there is no name, the driver is stopped after the messages.
pub proof fn law_play_greets_and_subscribes(
    transaction_id: Number,
    stream_id: u32,
    stream_name: Option<Seq<char>>,
)
    ensures
        ({
            let steps = play_steps(transaction_id, stream_id, stream_name);
            let status = |code: Seq<char>, description: Seq<char>|
                StepView::Perform(
                    RequestView::OnStatus {
                        transaction_id,
                        level: "status"@,
                        code,
                        description,
                    },
                );
            &&& steps[0] == StepView::Perform(RequestView::StreamBegin { stream_id })
            &&& steps[1] == status("NetStream.Play.Reset"@, "reset"@)
            &&& steps[2] == status("NetStream.Play.Start"@, "play start"@)
            &&& steps[3] == status("NetStream.Data.Start"@, "data start."@)
            &&& steps[4] == status("NetStream.Play.PublishNotify"@, "play publish notify."@)
            &&& steps[5] == StepView::Perform(RequestView::StreamIsRecord { stream_id })
            &&& match stream_name {
                Some(stream_name) => {
                    &&& steps.len() == 8
                    &&& steps[6] == StepView::Subscribe(stream_name)
                    &&& steps[7] == StepView::EnterPlay
                },
                None => {
                    &&& steps.len() == 7
                    &&& steps[6] == StepView::Halt
                },
            }
        }),
{
}

/// The stream that a `play` names is its first value, where that is a string,
/// however many values follow it. Values are counted in eight bits, so that a
/// multiple of 256 of them counts as none.
pub proof fn law_played_stream_is_the_first_value(others: Seq<Amf0ValueType>)
    ensures
        others.len() % 256 != 0 ==> (others[0] matches Amf0ValueType::UTF8String(stream)
            ==> play_name(others) == Some(stream@)),
        others.len() % 256 == 0 || !(others[0] is UTF8String) ==> play_name(others) is None,
{
}

/// A `play` makes the session one that is pulled from, and is followed by the steps
/// for the stream that it names and for no other.
pub proof fn law_play_follows_its_first_value(
    session: SessionModel,
    stream_id: u32,
    name: String,
    transaction_id: Number,
    command_object: Amf0ValueType,
    others: Seq<Amf0ValueType>,
    accepted: bool,
)
    requires
        name@ == "play"@,
    ensures
        ({
            let named = if others.len() % 256 != 0 && others[0] is UTF8String {
                Some(others[0]->UTF8String_0@)
            } else {
                None
            };
            command_outcome(
                session,
                stream_id,
                Amf0ValueType::UTF8String(name),
                Amf0ValueType::Number(transaction_id),
                command_object,
                others,
                accepted,
            ) == (
                SessionModel {
                    session_type: session.settings.server_pull,
                    unpacketizer_session_type: Some(session.settings.server_pull),
                    ..session
                },
                Ok::<Seq<StepView>, SessionError>(play_steps(transaction_id, stream_id, named)),
            )
        }),
{
    lemma_commands_differ();
}

/// A `publish` that begins with two strings names the session's stream by the first
/// of them and is answered with two messages, after which the stream is announced.
/// Every other ends the session, and names the stream only if it begins with a
/// string and has a second value.
pub proof fn law_publish_takes_its_first_value(
    session: SessionModel,
    transaction_id: Number,
    stream_id: u32,
    others: Seq<Amf0ValueType>,
)
    ensures
        ({
            let outcome = publish_outcome(session, transaction_id, stream_id, others);
            let refused = Err::<Seq<StepView>, SessionError>(
                SessionError { value: SessionErrorValue::Amf0ValueCountNotCorrect },
            );
            if others.len() >= 2 && others[0] is UTF8String {
                let named = SessionModel { stream_name: others[0]->UTF8String_0@, ..session };
                if others[1] is UTF8String {
                    outcome == (
                        named,
                        Ok::<Seq<StepView>, SessionError>(
                            seq![
                                StepView::Perform(RequestView::StreamBegin { stream_id }),
                                StepView::Perform(
                                    RequestView::OnStatus {
                                        transaction_id,
                                        level: "status"@,
                                        code: "NetStream.Publish.Start"@,
                                        description: ""@,
                                    },
                                ),
                                StepView::Publish,
                            ],
                        ),
                    )
                } else {
                    outcome == (named, refused)
                }
            } else {
                outcome == (session, refused)
            }
        }),
{
}

/// A `publish` makes the session one that is pushed to, before it is looked into.
pub proof fn law_publish_pushes(
    session: SessionModel,
    stream_id: u32,
    name: String,
    transaction_id: Number,
    command_object: Amf0ValueType,
    others: Seq<Amf0ValueType>,
    accepted: bool,
)
    requires
        name@ == "publish"@,
    ensures
        command_outcome(
            session,
            stream_id,
            Amf0ValueType::UTF8String(name),
            Amf0ValueType::Number(transaction_id),
            command_object,
            others,
            accepted,
        ) == publish_outcome(
            SessionModel {
                session_type: session.settings.server_push,
                unpacketizer_session_type: Some(session.settings.server_push),
                ..session
            },
            transaction_id,
            stream_id,
            others,
        ),
{
    lemma_commands_differ();
}

// From a command to what the hub and the peer get.

/// A `play` whose first value is a string asks the hub for the stream with that
/// name, after its six messages and under the session's application and number. If
/// the hub takes the question, the session waits for the answer at the other end of
/// the responder and then plays. It is never stopped.
pub proof fn law_play_reaches_the_hub(
    session: SessionModel,
    message: RtmpMessageData,
    name: String,
    stream: String,
    answer: Option<ChannelDataConsumer>,
    outside: spec_fn(int) -> Outside,
)
    requires
        session.tasks.len() == 0,
        message is Amf0Command,
        message->command_name == Amf0ValueType::UTF8String(name),
        name@ == "play"@,
        message->others@.len() % 256 != 0,
        message->others@[0] == Amf0ValueType::UTF8String(stream),
    ensures
        ({
            let (s0, a0) = transition(session, SessionEvent::Message(message), outside(0));
            let (s1, a1) = transition(s0, SessionEvent::Done, outside(1));
            let (s2, a2) = transition(s1, SessionEvent::Done, outside(2));
            let (s3, a3) = transition(s2, SessionEvent::Done, outside(3));
            let (s4, a4) = transition(s3, SessionEvent::Done, outside(4));
            let (s5, a5) = transition(s4, SessionEvent::Done, outside(5));
            let (s6, a6) = transition(s5, SessionEvent::Done, outside(6));
            let (s7, a7) = transition(s6, SessionEvent::Consumer(answer), outside(7));
            &&& a0 is Perform && a1 is Perform && a2 is Perform
            &&& a3 is Perform && a4 is Perform && a5 is Perform
            &&& s5.offered == session.offered
            &&& s6.offered.len() == session.offered.len() + 1
            &&& s6.offered.last() == (ChannelEventView::Subscribe {
                app_name: session.app_name,
                stream_name: stream@,
                session_id: session.session_id,
                responder: outside(6).consumer.0,
            })
            &&& !(a6 is Halt)
            &&& outside(6).accepts_step ==> {
                &&& a6 is AwaitConsumer
                &&& outside(6).serves(a6) ==> consumer_reply(
                    s6.offered.last()->Subscribe_responder,
                    a6->AwaitConsumer_reply,
                )
                &&& s6.events == session.events.push(s6.offered.last())
                &&& s7.state == ServerSessionState::Play
                &&& s7.app_name == session.app_name
                &&& s7.stream_name == stream@
                &&& answer matches Some(consumer) ==> s7.consumer == consumer
            }
        }),
{
    law_play_subscribes_last(session, message, answer, outside);
}

/// A `publish` that begins with two strings announces to the hub, after its two
/// messages, the stream with the name in the first of them, under the session's
/// application. If the hub takes the news, the session waits for the answer at the
/// other end of the responder, and sends its media into what it gets there.
pub proof fn law_publish_reaches_the_hub(
    session: SessionModel,
    message: RtmpMessageData,
    name: String,
    stream: String,
    publisher: ChannelDataPublisher,
    outside: spec_fn(int) -> Outside,
)
    requires
        session.tasks.len() == 0,
        message is Amf0Command,
        message->command_name == Amf0ValueType::UTF8String(name),
        name@ == "publish"@,
        message->others@.len() >= 2,
        message->others@[0] == Amf0ValueType::UTF8String(stream),
        message->others@[1] is UTF8String,
    ensures
        ({
            let (s0, a0) = transition(session, SessionEvent::Message(message), outside(0));
            let (s1, a1) = transition(s0, SessionEvent::Done, outside(1));
            let (s2, a2) = transition(s1, SessionEvent::Done, outside(2));
            let (s3, a3) = transition(s2, SessionEvent::Publisher(Some(publisher)), outside(3));
            &&& a0 is Perform && a1 is Perform
            &&& s1.offered == session.offered
            &&& s2.offered.len() == session.offered.len() + 1
            &&& s2.offered.last() == (ChannelEventView::Publish {
                app_name: session.app_name,
                stream_name: stream@,
                responder: outside(2).publisher.0,
            })
            &&& outside(2).accepts_step ==> {
                &&& a2 is AwaitPublisher
                &&& outside(2).serves(a2) ==> publisher_reply(
                    s2.offered.last()->Publish_responder,
                    a2->AwaitPublisher_reply,
                )
                &&& s2.events == session.events.push(s2.offered.last())
                &&& s3.published == accepted_data(publisher)
                &&& s3.app_name == session.app_name
                &&& s3.stream_name == stream@
            }
        }),
{
    law_publish_announces_last(session, message, publisher, outside);
}

/// After a `connect` whose object binds `app` to a string, whatever else the object
/// holds, that string is the session's application, nothing else in the session has
/// changed, and the encoded answer is what the peer gets.
pub proof fn law_connect_reaches_the_session(
    session: SessionModel,
    message: RtmpMessageData,
    name: String,
    object: Amf0Object,
    app: String,
    answer: BytesMut,
    outside: spec_fn(int) -> Outside,
)
    requires
        session.tasks.len() == 0,
        message is Amf0Command,
        message->command_name == Amf0ValueType::UTF8String(name),
        name@ == "connect"@,
        message->command_object == Amf0ValueType::Object(object),
        object@.dom().contains("app"@),
        object@["app"@] == Amf0ValueType::UTF8String(app),
    ensures
        ({
            let (s0, a0) = transition(session, SessionEvent::Message(message), outside(0));
            let (s1, a1) = transition(s0, SessionEvent::Done, outside(1));
            let (s2, a2) = transition(s1, SessionEvent::Done, outside(2));
            let (s3, a3) = transition(s2, SessionEvent::Done, outside(3));
            let (s4, a4) = transition(s3, SessionEvent::Encoded(answer), outside(4));
            &&& a0 is Perform && a1 is Perform && a2 is Perform && a3 is Perform && a4 is Perform
            &&& a3->Perform_0 is EncodeConnectResponse
            &&& a4->Perform_0 is WriteChunk
            &&& a4->Perform_0->WriteChunk_0.payload == bytes_of(answer)
            &&& s4.app_name == app@
            &&& s4 == (SessionModel { app_name: app@, ..session })
        }),
{
    law_connect_is_answered(session, message, answer, outside);
}

/// Without a string under `app` a `connect` leaves the session as it was and ends it
/// with the error that says so.
pub proof fn law_connect_without_app_is_refused(
    session: SessionModel,
    message: RtmpMessageData,
    name: String,
    answer: BytesMut,
    outside: spec_fn(int) -> Outside,
)
    requires
        session.tasks.len() == 0,
        message is Amf0Command,
        message->command_name == Amf0ValueType::UTF8String(name),
        name@ == "connect"@,
        message->command_object matches Amf0ValueType::Object(object) ==> !(
        object@.dom().contains("app"@) && object@["app"@] is UTF8String),
    ensures
        ({
            let (s0, a0) = transition(session, SessionEvent::Message(message), outside(0));
            let (s1, a1) = transition(s0, SessionEvent::Done, outside(1));
            let (s2, a2) = transition(s1, SessionEvent::Done, outside(2));
            let (s3, a3) = transition(s2, SessionEvent::Done, outside(3));
            &&& a0 is Perform && a1 is Perform && a2 is Perform
            &&& s3 == session
            &&& a3 == ActionView::Fail(SessionError { value: SessionErrorValue::NoAppName })
        }),
{
    law_connect_is_answered(session, message, answer, outside);
}

/// A stream that is published or played after a `connect` belongs to the application
/// that the `connect` names: the hub gets both names, each from its own command.
pub proof fn law_hub_gets_both_names(
    session: SessionModel,
    connect: RtmpMessageData,
    command: RtmpMessageData,
    names: (String, String),
    object: Amf0Object,
    app: String,
    stream: String,
    answer: BytesMut,
    outside: spec_fn(int) -> Outside,
    later: spec_fn(int) -> Outside,
)
    requires
        session.tasks.len() == 0,
        connect is Amf0Command,
        connect->command_name == Amf0ValueType::UTF8String(names.0),
        names.0@ == "connect"@,
        connect->command_object == Amf0ValueType::Object(object),
        object@.dom().contains("app"@),
        object@["app"@] == Amf0ValueType::UTF8String(app),
        command is Amf0Command,
        command->command_name == Amf0ValueType::UTF8String(names.1),
        command->others@[0] == Amf0ValueType::UTF8String(stream),
        names.1@ == "play"@ && command->others@.len() % 256 != 0 || names.1@ == "publish"@
            && command->others@.len() >= 2 && command->others@[1] is UTF8String,
    ensures
        ({
            let (s0, a0) = transition(session, SessionEvent::Message(connect), outside(0));
            let (s1, a1) = transition(s0, SessionEvent::Done, outside(1));
            let (s2, a2) = transition(s1, SessionEvent::Done, outside(2));
            let (s3, a3) = transition(s2, SessionEvent::Done, outside(3));
            let (s4, a4) = transition(s3, SessionEvent::Encoded(answer), outside(4));
            let (s5, a5) = transition(s4, SessionEvent::Done, outside(5));
            let (t0, b0) = transition(s5, SessionEvent::Message(command), later(0));
            let (t1, b1) = transition(t0, SessionEvent::Done, later(1));
            let (t2, b2) = transition(t1, SessionEvent::Done, later(2));
            let (t3, b3) = transition(t2, SessionEvent::Done, later(3));
            let (t4, b4) = transition(t3, SessionEvent::Done, later(4));
            let (t5, b5) = transition(t4, SessionEvent::Done, later(5));
            let (t6, b6) = transition(t5, SessionEvent::Done, later(6));
            &&& names.1@ == "publish"@ ==> t2.offered == session.offered.push(
                ChannelEventView::Publish {
                    app_name: app@,
                    stream_name: stream@,
                    responder: later(2).publisher.0,
                },
            )
            &&& names.1@ == "play"@ ==> t6.offered == session.offered.push(
                ChannelEventView::Subscribe {
                    app_name: app@,
                    stream_name: stream@,
                    session_id: session.session_id,
                    responder: later(6).consumer.0,
                },
            )
        }),
{
    lemma_commands_differ();
    law_connect_reaches_the_session(session, connect, names.0, object, app, answer, outside);
    let s4 = SessionModel { app_name: app@, ..session };
    let s5 = transition(s4, SessionEvent::Done, outside(5)).0;
    law_work_is_followed_by_reading(s4, outside(5));
    if names.1@ == "play"@ {
        law_play_subscribes_last(s5, command, None, later);
    } else {
        law_publish_announces_last(s5, command, arbitrary(), later);
    }
}

/// The answer to a `createStream` reaches the peer: the session has it encoded for
/// the command's transaction, and the chunk that it then writes carries the encoded
/// bytes, all of them.
pub proof fn law_stream_number_reaches_the_peer(
    session: SessionModel,
    message: RtmpMessageData,
    name: String,
    transaction_id: Number,
    answer: BytesMut,
    outside: spec_fn(int) -> Outside,
)
    requires
        session.tasks.len() == 0,
        message is Amf0Command,
        message->command_name == Amf0ValueType::UTF8String(name),
        name@ == "createStream"@,
        message->transaction_id == Amf0ValueType::Number(transaction_id),
    ensures
        ({
            let (s0, a0) = transition(session, SessionEvent::Message(message), outside(0));
            let (s1, a1) = transition(s0, SessionEvent::Encoded(answer), outside(1));
            let chunk = a1->Perform_0->WriteChunk_0;
            &&& a0 == ActionView::Perform(
                RequestView::EncodeCreateStreamResponse {
                    transaction_id,
                    stream_id: session.settings.stream_id,
                },
            )
            &&& a1 is Perform && a1->Perform_0 is WriteChunk
            &&& chunk.csid == ChunkStreamId::CommandAmf0Amf3
            &&& chunk.msg_type_id == MessageTypeId::CommandAmf0
            &&& chunk.payload == bytes_of(answer)
            &&& chunk.msg_length as int == bytes_of(answer).len() % 0x1_0000_0000
            &&& s1 == session
        }),
{
    law_create_stream_is_answered(session, message, answer, outside);
}

/// Media that one session publishes and another plays arrives as it was sent: what
/// the publishing session puts into its channel and the playing one takes out is
/// written as the same kind, with the same bytes and, for audio and video, with the
/// time of the message that brought it.
pub proof fn law_media_arrives_as_it_was_sent(
    publisher: SessionModel,
    player: SessionModel,
    message: RtmpMessageData,
    relayed: ChannelData,
    sent: Outside,
    played: Outside,
)
    requires
        (publisher.hears)(publisher.consumer) || (sent.accepts_message && !publisher.cut_off),
        message is AudioData || message is VideoData || message is AmfData,
        ({
            let after = transition(publisher, SessionEvent::Message(message), sent).0;
            after.published.last() == relayed@
        }),
    ensures
        ({
            let after = transition(publisher, SessionEvent::Message(message), sent).0;
            let action = transition(player, SessionEvent::Data(Some(relayed)), played).1;
            let chunk = action->Perform_0->WriteChunk_0;
            &&& after.published.len() == publisher.published.len() + 1
            &&& action is Perform && action->Perform_0 is WriteChunk
            &&& match message {
                RtmpMessageData::AudioData { data } => {
                    &&& chunk.csid == ChunkStreamId::Audio
                    &&& chunk.msg_type_id == MessageTypeId::Audio
                    &&& chunk.payload == bytes_of(data)
                    &&& chunk.timestamp == publisher.timestamp
                },
                RtmpMessageData::VideoData { data } => {
                    &&& chunk.csid == ChunkStreamId::Video
                    &&& chunk.msg_type_id == MessageTypeId::Video
                    &&& chunk.payload == bytes_of(data)
                    &&& chunk.timestamp == publisher.timestamp
                },
                RtmpMessageData::AmfData { raw_data } => {
                    &&& chunk.csid == ChunkStreamId::DataAmf0Amf3
                    &&& chunk.msg_type_id == MessageTypeId::DataAmf0
                    &&& chunk.payload == bytes_of(raw_data)
                    &&& chunk.timestamp == 0
                },
                _ => true,
            }
        }),
{
    let data = match message {
        RtmpMessageData::AudioData { data } => data,
        RtmpMessageData::VideoData { data } => data,
        _ => message->raw_data,
    };
    law_received_media_keeps_its_kind(
        publisher,
        data,
        publisher.msg_stream_id,
        publisher.timestamp,
        sent.accepts_message,
    );
    let (acted, steps) = message_outcome(
        publisher,
        message,
        publisher.msg_stream_id,
        publisher.timestamp,
        sent.accepts_message,
    );
    lemma_proceed_frame(SessionModel { tasks: steps->Ok_0 + acted.tasks, ..acted }, sent);
    law_delivered_media_keeps_its_kind(player, relayed, played);
}

} // verus!
