use bytes::BytesMut;
use rtmp_session::amf0::{Amf0Object, Amf0ValueType, Number};
use rtmp_session::channels::{ChannelData, ChannelEvent};
use rtmp_session::chunk::{ChunkInfo, ChunkStreamId, ChunkType, MessageTypeId};
use rtmp_session::errors::{SessionError, SessionErrorValue};
use rtmp_session::messages::RtmpMessageData;
use rtmp_session::protocol::{PeerBandwidthLimit, Request, SessionAction, SessionEvent};
use rtmp_session::session::ServerSession;
use rtmp_session::settings::Settings;
use tokio::sync::mpsc;

fn number(value: f64) -> Number {
    Number { bits: value.to_bits() }
}

fn settings() -> Settings {
    Settings {
        window_acknowledgement_size: 5000,
        peer_bandwidth: 6000,
        chunk_size: 7000,
        fms_version: "FMS/9".to_string(),
        capabilities: number(31.0),
        level: "status level".to_string(),
        object_encoding: number(0.5),
        stream_id: number(1.0),
        server_pull: 11,
        server_push: 12,
    }
}

fn new_session() -> (ServerSession, mpsc::UnboundedReceiver<ChannelEvent>) {
    let (sender, receiver) = mpsc::unbounded_channel();
    (ServerSession::new(sender, 77, settings()), receiver)
}

fn filled(content: &[u8]) -> BytesMut {
    BytesMut::from(content)
}

fn text(value: &str) -> Amf0ValueType {
    Amf0ValueType::UTF8String(value.to_string())
}

fn command(name: &str, object: Amf0ValueType, others: Vec<Amf0ValueType>) -> SessionEvent {
    SessionEvent::Message(RtmpMessageData::Amf0Command {
        command_name: text(name),
        transaction_id: Amf0ValueType::Number(number(4.0)),
        command_object: object,
        others,
    })
}

fn incoming(msg_stream_id: u32, timestamp: u32, payload: &[u8]) -> ChunkInfo {
    ChunkInfo {
        csid: ChunkStreamId::Other(9),
        format: ChunkType::Other(1),
        timestamp,
        msg_length: payload.len() as u32,
        msg_type_id: MessageTypeId::Other(20),
        msg_stream_id,
        payload: filled(payload),
    }
}

/// Brings a session to the point where it waits for its first message, which
/// came on message stream 3 at time 40.
fn at_first_message(session: &mut ServerSession) {
    session.run(SessionEvent::Done);
    session.run(SessionEvent::NetworkData(filled(b"hello")));
    session.run(SessionEvent::HandshakeStep { finished: true, remaining: filled(b"") });
    session.run(SessionEvent::NetworkData(filled(b"chunk")));
    session.run(SessionEvent::Done);
    let action = session.run(SessionEvent::Chunks(vec![incoming(3, 40, b"chunk")]));
    assert!(matches!(action, SessionAction::ParseMessage { .. }));
}

fn assert_status(action: SessionAction, code_wanted: &str, description_wanted: &str) {
    match action {
        SessionAction::Perform(Request::OnStatus {
            transaction_id,
            level,
            code,
            description,
        }) => {
            assert_eq!(transaction_id, number(4.0));
            assert_eq!(level, "status");
            assert_eq!(code, code_wanted);
            assert_eq!(description, description_wanted);
        }
        _ => panic!("no status"),
    }
}

fn assert_fails(action: SessionAction, value: SessionErrorValue) {
    match action {
        SessionAction::Fail(error) => assert_eq!(error, SessionError { value }),
        _ => panic!("no failure"),
    }
}

fn written_chunk(action: SessionAction) -> ChunkInfo {
    match action {
        SessionAction::Perform(Request::WriteChunk(chunk)) => chunk,
        _ => panic!("no chunk"),
    }
}

fn connect_properties() -> Amf0Object {
    Amf0Object::new().with("app".to_string(), text("live"))
}

#[test]
fn new_session_reads_from_its_peer() {
    let (mut session, mut hub) = new_session();
    assert_eq!(session.session_id, 77);
    assert_eq!(session.session_type, 0);
    assert!(matches!(session.run(SessionEvent::Done), SessionAction::ReadNetwork));
    assert!(hub.try_recv().is_err());
}

#[test]
fn handshake_goes_on_until_it_is_finished() {
    let (mut session, _hub) = new_session();
    session.run(SessionEvent::Done);
    match session.run(SessionEvent::NetworkData(filled(b"C0"))) {
        SessionAction::Handshake { data } => assert_eq!(&data[..], b"C0"),
        _ => panic!("no handshake"),
    }
    let action = session.run(SessionEvent::HandshakeStep {
        finished: false,
        remaining: filled(b"ignored"),
    });
    assert!(matches!(action, SessionAction::ReadNetwork));
    match session.run(SessionEvent::NetworkData(filled(b"C1"))) {
        SessionAction::Handshake { data } => assert_eq!(&data[..], b"C1"),
        _ => panic!("no handshake"),
    }
}

#[test]
fn finished_handshake_without_rest_reads_on() {
    let (mut session, _hub) = new_session();
    session.run(SessionEvent::Done);
    session.run(SessionEvent::NetworkData(filled(b"C2")));
    let action = session.run(SessionEvent::HandshakeStep {
        finished: true,
        remaining: filled(b""),
    });
    assert!(matches!(action, SessionAction::ReadNetwork));
    match session.run(SessionEvent::NetworkData(filled(b"more"))) {
        SessionAction::ExtendUnpacketizer { data } => assert_eq!(&data[..], b"more"),
        _ => panic!("nothing for the unpacketizer"),
    }
    let action = session.run(SessionEvent::Done);
    assert!(matches!(action, SessionAction::ReadChunks { session_type: None }));
}

#[test]
fn rest_of_the_handshake_is_unpacked_before_reading() {
    let (mut session, _hub) = new_session();
    session.run(SessionEvent::Done);
    session.run(SessionEvent::NetworkData(filled(b"C2")));
    let action = session.run(SessionEvent::HandshakeStep {
        finished: true,
        remaining: filled(b"rest"),
    });
    match action {
        SessionAction::ExtendUnpacketizer { data } => assert_eq!(&data[..], b"rest"),
        _ => panic!("nothing for the unpacketizer"),
    }
    let action = session.run(SessionEvent::Done);
    assert!(matches!(action, SessionAction::ReadChunks { session_type: None }));
    let action = session.run(SessionEvent::NotChunks);
    assert!(matches!(action, SessionAction::ReadChunks { session_type: None }));
    let action = session.run(SessionEvent::ChunksEnd);
    assert!(matches!(action, SessionAction::ReadNetwork));
}

#[test]
fn chunks_are_parsed_in_order() {
    let (mut session, _hub) = new_session();
    session.run(SessionEvent::Done);
    session.run(SessionEvent::NetworkData(filled(b"C2")));
    session.run(SessionEvent::HandshakeStep { finished: true, remaining: filled(b"") });
    session.run(SessionEvent::NetworkData(filled(b"two chunks")));
    session.run(SessionEvent::Done);
    let both = vec![incoming(1, 10, b"first"), incoming(2, 20, b"second")];
    match session.run(SessionEvent::Chunks(both)) {
        SessionAction::ParseMessage { chunk, session_type } => {
            assert_eq!(&chunk.payload[..], b"first");
            assert_eq!(session_type, 0);
        }
        _ => panic!("nothing to parse"),
    }
    match session.run(SessionEvent::Message(RtmpMessageData::Other)) {
        SessionAction::ParseMessage { chunk, .. } => assert_eq!(&chunk.payload[..], b"second"),
        _ => panic!("nothing to parse"),
    }
    let action = session.run(SessionEvent::Message(RtmpMessageData::Other));
    assert!(matches!(action, SessionAction::ReadChunks { .. }));
}

#[test]
fn chunks_wait_for_the_answer_to_the_one_before() {
    let (mut session, _hub) = new_session();
    session.run(SessionEvent::Done);
    session.run(SessionEvent::NetworkData(filled(b"C2")));
    session.run(SessionEvent::HandshakeStep { finished: true, remaining: filled(b"") });
    session.run(SessionEvent::NetworkData(filled(b"three chunks")));
    session.run(SessionEvent::Done);
    let all = vec![incoming(1, 10, b"a"), incoming(2, 20, b"b"), incoming(3, 30, b"c")];
    let mut parsed: Vec<Vec<u8>> = vec![];
    let mut event = SessionEvent::Chunks(all);
    loop {
        event = match session.run(event) {
            SessionAction::ParseMessage { chunk, .. } => {
                parsed.push(chunk.payload[..].to_vec());
                SessionEvent::Message(RtmpMessageData::SetChunkSize { chunk_size: 100 })
            }
            SessionAction::Perform(Request::UpdateMaxChunkSize { size: 100 }) => {
                SessionEvent::Done
            }
            SessionAction::ReadChunks { .. } => break,
            _ => panic!("something else"),
        };
    }
    assert_eq!(parsed, vec![b"a".to_vec(), b"b".to_vec(), b"c".to_vec()]);
}

#[test]
fn connect_is_answered() {
    let (mut session, mut hub) = new_session();
    at_first_message(&mut session);
    let object = Amf0ValueType::Object(connect_properties());
    let action = session.run(command("connect", object, vec![]));
    assert!(matches!(
        action,
        SessionAction::Perform(Request::WindowAcknowledgementSize { size: 5000 })
    ));
    let action = session.run(SessionEvent::Done);
    assert!(matches!(
        action,
        SessionAction::Perform(Request::SetPeerBandwidth {
            bandwidth: 6000,
            limit: PeerBandwidthLimit::Dynamic
        })
    ));
    let action = session.run(SessionEvent::Done);
    assert!(matches!(action, SessionAction::Perform(Request::SetChunkSize { size: 7000 })));
    match session.run(SessionEvent::Done) {
        SessionAction::Perform(Request::EncodeConnectResponse {
            transaction_id,
            fms_version,
            capabilities,
            code,
            level,
            description,
            encoding,
        }) => {
            assert_eq!(transaction_id, number(4.0));
            assert_eq!(fms_version, "FMS/9");
            assert_eq!(capabilities, number(31.0));
            assert_eq!(code, "NetConnection.Connect.Success");
            assert_eq!(level, "status level");
            assert_eq!(description, "Connection Succeeded.");
            assert_eq!(encoding, number(0.5));
        }
        _ => panic!("no answer"),
    }
    let chunk = written_chunk(session.run(SessionEvent::Encoded(filled(b"answer"))));
    assert_eq!(chunk.csid, ChunkStreamId::CommandAmf0Amf3);
    assert_eq!(chunk.format, ChunkType::Type0);
    assert_eq!(chunk.timestamp, 0);
    assert_eq!(chunk.msg_length, 6);
    assert_eq!(chunk.msg_type_id, MessageTypeId::CommandAmf0);
    assert_eq!(chunk.msg_stream_id, 0);
    assert_eq!(&chunk.payload[..], b"answer");
    assert!(matches!(session.run(SessionEvent::Done), SessionAction::ReadChunks { .. }));
    assert!(hub.try_recv().is_err());
}

#[test]
fn connect_takes_the_encoding_that_the_peer_asks_for() {
    let (mut session, _hub) = new_session();
    at_first_message(&mut session);
    let properties = connect_properties()
        .with("objectEncoding".to_string(), Amf0ValueType::Number(number(3.0)));
    session.run(command("connect", Amf0ValueType::Object(properties), vec![]));
    session.run(SessionEvent::Done);
    session.run(SessionEvent::Done);
    match session.run(SessionEvent::Done) {
        SessionAction::Perform(Request::EncodeConnectResponse { encoding, .. }) => {
            assert_eq!(encoding, number(3.0))
        }
        _ => panic!("no answer"),
    }
}

#[test]
fn connect_without_app_ends_after_the_greeting() {
    let (mut session, _hub) = new_session();
    at_first_message(&mut session);
    session.run(command("connect", Amf0ValueType::Other, vec![]));
    session.run(SessionEvent::Done);
    let action = session.run(SessionEvent::Done);
    assert!(matches!(action, SessionAction::Perform(Request::SetChunkSize { size: 7000 })));
    assert_fails(session.run(SessionEvent::Done), SessionErrorValue::NoAppName);
}

#[test]
fn connect_with_an_app_that_is_no_string_fails() {
    let (mut session, _hub) = new_session();
    at_first_message(&mut session);
    let properties = Amf0Object::new().with("app".to_string(), Amf0ValueType::Boolean(true));
    session.run(command("connect", Amf0ValueType::Object(properties), vec![]));
    session.run(SessionEvent::Done);
    session.run(SessionEvent::Done);
    assert_fails(session.run(SessionEvent::Done), SessionErrorValue::NoAppName);
}

#[test]
fn create_stream_is_answered() {
    let (mut session, _hub) = new_session();
    at_first_message(&mut session);
    match session.run(command("createStream", Amf0ValueType::Other, vec![])) {
        SessionAction::Perform(Request::EncodeCreateStreamResponse {
            transaction_id,
            stream_id,
        }) => {
            assert_eq!(transaction_id, number(4.0));
            assert_eq!(stream_id, number(1.0));
        }
        _ => panic!("no answer"),
    }
    let chunk = written_chunk(session.run(SessionEvent::Encoded(filled(b"ok"))));
    assert_eq!(chunk.msg_type_id, MessageTypeId::CommandAmf0);
    assert_eq!(chunk.msg_length, 2);
}

/// Connects to `live` and plays `movie` up to the question to the hub.
fn play_up_to_subscribe(session: &mut ServerSession) -> SessionAction {
    at_first_message(session);
    session.run(command("connect", Amf0ValueType::Object(connect_properties()), vec![]));
    session.run(SessionEvent::Done);
    session.run(SessionEvent::Done);
    session.run(SessionEvent::Done);
    session.run(SessionEvent::Encoded(filled(b"answer")));
    session.run(SessionEvent::Done);
    session.run(SessionEvent::Chunks(vec![incoming(3, 50, b"play")]));
    let action = session.run(command(
        "play",
        Amf0ValueType::Other,
        vec![text("movie"), Amf0ValueType::Number(number(-2.0))],
    ));
    assert!(matches!(action, SessionAction::Perform(Request::StreamBegin { stream_id: 3 })));
    assert_eq!(session.session_type, 11);
    assert_status(session.run(SessionEvent::Done), "NetStream.Play.Reset", "reset");
    assert_status(session.run(SessionEvent::Done), "NetStream.Play.Start", "play start");
    assert_status(session.run(SessionEvent::Done), "NetStream.Data.Start", "data start.");
    assert_status(
        session.run(SessionEvent::Done),
        "NetStream.Play.PublishNotify",
        "play publish notify.",
    );
    let action = session.run(SessionEvent::Done);
    assert!(matches!(action, SessionAction::Perform(Request::StreamIsRecord { stream_id: 3 })));
    session.run(SessionEvent::Done)
}

#[test]
fn play_subscribes_and_then_writes_data() {
    let (mut session, mut hub) = new_session();
    let action = play_up_to_subscribe(&mut session);
    let mut reply = match action {
        SessionAction::AwaitConsumer { reply } => reply,
        _ => panic!("no subscription"),
    };
    let (publisher, consumer) = mpsc::unbounded_channel();
    match hub.try_recv() {
        Ok(ChannelEvent::Subscribe { app_name, stream_name, session_id, responder }) => {
            assert_eq!(app_name, "live");
            assert_eq!(stream_name, "movie");
            assert_eq!(session_id, 77);
            assert!(responder.send(consumer).is_ok());
        }
        _ => panic!("the hub was not asked"),
    }
    // The reading round ends before the playing begins.
    let action = session.run(SessionEvent::Consumer(reply.try_recv().ok()));
    assert!(matches!(action, SessionAction::ReadChunks { session_type: Some(11) }));
    assert!(matches!(session.run(SessionEvent::ChunksEnd), SessionAction::AwaitData));

    let sent = ChannelData::Audio { timestamp: 90, data: filled(b"sound") };
    assert!(publisher.send(sent).is_ok());
    let received = session.data_consumer().try_recv().ok();
    let chunk = written_chunk(session.run(SessionEvent::Data(received)));
    assert_eq!(chunk.csid, ChunkStreamId::Audio);
    assert_eq!(chunk.format, ChunkType::Type0);
    assert_eq!(chunk.msg_type_id, MessageTypeId::Audio);
    assert_eq!(chunk.timestamp, 90);
    assert_eq!(chunk.msg_length, 5);
    assert_eq!(chunk.msg_stream_id, 0);
    assert_eq!(&chunk.payload[..], b"sound");
    assert!(matches!(session.run(SessionEvent::Done), SessionAction::AwaitData));

    let video = ChannelData::Video { timestamp: 91, data: filled(b"picture") };
    let chunk = written_chunk(session.run(SessionEvent::Data(Some(video))));
    assert_eq!(chunk.csid, ChunkStreamId::Video);
    assert_eq!(chunk.msg_type_id, MessageTypeId::Video);
    assert_eq!(chunk.timestamp, 91);
    assert_eq!(&chunk.payload[..], b"picture");
    session.run(SessionEvent::Done);

    let metadata = ChannelData::MetaData { body: filled(b"meta") };
    let chunk = written_chunk(session.run(SessionEvent::Data(Some(metadata))));
    assert_eq!(chunk.csid, ChunkStreamId::DataAmf0Amf3);
    assert_eq!(chunk.msg_type_id, MessageTypeId::DataAmf0);
    assert_eq!(chunk.timestamp, 0);
    assert_eq!(&chunk.payload[..], b"meta");
    session.run(SessionEvent::Done);

    assert!(matches!(session.run(SessionEvent::Data(None)), SessionAction::AwaitData));
    assert!(hub.try_recv().is_err());
}

#[test]
fn play_goes_on_without_an_answer_of_the_hub() {
    let (mut session, _hub) = new_session();
    let action = play_up_to_subscribe(&mut session);
    assert!(matches!(action, SessionAction::AwaitConsumer { .. }));
    let action = session.run(SessionEvent::Consumer(None));
    assert!(matches!(action, SessionAction::ReadChunks { .. }));
    assert!(matches!(session.run(SessionEvent::ChunksEnd), SessionAction::AwaitData));
}

#[test]
fn play_fails_where_no_hub_listens() {
    let (mut session, hub) = new_session();
    drop(hub);
    let action = play_up_to_subscribe(&mut session);
    assert_fails(action, SessionErrorValue::ChannelEventSendErr);
}

#[test]
fn play_without_stream_name_halts_after_the_greeting() {
    let (mut session, mut hub) = new_session();
    at_first_message(&mut session);
    let action = session.run(command("play", Amf0ValueType::Other, vec![Amf0ValueType::Other]));
    assert!(matches!(action, SessionAction::Perform(Request::StreamBegin { stream_id: 3 })));
    assert_eq!(session.session_type, 11);
    assert_status(session.run(SessionEvent::Done), "NetStream.Play.Reset", "reset");
    assert_status(session.run(SessionEvent::Done), "NetStream.Play.Start", "play start");
    assert_status(session.run(SessionEvent::Done), "NetStream.Data.Start", "data start.");
    session.run(SessionEvent::Done);
    let action = session.run(SessionEvent::Done);
    assert!(matches!(action, SessionAction::Perform(Request::StreamIsRecord { stream_id: 3 })));
    assert!(matches!(session.run(SessionEvent::Done), SessionAction::Halt));
    assert!(hub.try_recv().is_err());
}

#[test]
fn failure_while_playing_unsubscribes() {
    let (mut session, mut hub) = new_session();
    play_up_to_subscribe(&mut session);
    session.run(SessionEvent::Consumer(None));
    session.run(SessionEvent::ChunksEnd);
    assert!(matches!(hub.try_recv(), Ok(ChannelEvent::Subscribe { .. })));
    let audio = ChannelData::Audio { timestamp: 1, data: filled(b"a") };
    session.run(SessionEvent::Data(Some(audio)));
    assert!(matches!(session.run(SessionEvent::Failed), SessionAction::GiveUp));
    match hub.try_recv() {
        Ok(ChannelEvent::UnSubscribe { app_name, stream_name, session_id }) => {
            assert_eq!(app_name, "live");
            assert_eq!(stream_name, "movie");
            assert_eq!(session_id, 77);
        }
        _ => panic!("the hub was not told"),
    }
}

#[test]
fn failure_while_playing_ends_the_same_without_a_hub() {
    let (mut session, hub) = new_session();
    play_up_to_subscribe(&mut session);
    session.run(SessionEvent::Consumer(None));
    session.run(SessionEvent::ChunksEnd);
    drop(hub);
    assert!(matches!(session.run(SessionEvent::Failed), SessionAction::GiveUp));
}

#[test]
fn failure_before_playing_tells_the_hub_nothing() {
    let (mut session, mut hub) = new_session();
    at_first_message(&mut session);
    session.run(command("play", Amf0ValueType::Other, vec![text("movie")]));
    session.run(SessionEvent::Done);
    assert!(matches!(session.run(SessionEvent::Failed), SessionAction::GiveUp));
    assert!(hub.try_recv().is_err());
}

/// Publishes `movie` up to the announcement to the hub.
fn publish_up_to_announcement(session: &mut ServerSession) -> SessionAction {
    at_first_message(session);
    let action = session.run(command(
        "publish",
        Amf0ValueType::Other,
        vec![text("movie"), text("live")],
    ));
    assert!(matches!(action, SessionAction::Perform(Request::StreamBegin { stream_id: 3 })));
    assert_eq!(session.session_type, 12);
    assert_status(session.run(SessionEvent::Done), "NetStream.Publish.Start", "");
    session.run(SessionEvent::Done)
}

#[test]
fn published_media_goes_to_the_channel_of_the_hub() {
    let (mut session, mut hub) = new_session();
    let mut reply = match publish_up_to_announcement(&mut session) {
        SessionAction::AwaitPublisher { reply } => reply,
        _ => panic!("no announcement"),
    };
    let (publisher, mut consumer) = mpsc::unbounded_channel();
    match hub.try_recv() {
        Ok(ChannelEvent::Publish { app_name, stream_name, responder }) => {
            assert_eq!(app_name, "");
            assert_eq!(stream_name, "movie");
            assert!(responder.send(publisher).is_ok());
        }
        _ => panic!("the hub was not told"),
    }
    let action = session.run(SessionEvent::Publisher(reply.try_recv().ok()));
    assert!(matches!(action, SessionAction::ReadChunks { session_type: Some(12) }));

    match session.run(SessionEvent::Chunks(vec![incoming(3, 60, b"audio")])) {
        SessionAction::ParseMessage { session_type, .. } => assert_eq!(session_type, 12),
        _ => panic!("nothing to parse"),
    }
    let audio = RtmpMessageData::AudioData { data: filled(b"sound") };
    session.run(SessionEvent::Message(audio));
    match consumer.try_recv() {
        Ok(ChannelData::Audio { timestamp, data }) => {
            assert_eq!(timestamp, 60);
            assert_eq!(&data[..], b"sound");
        }
        _ => panic!("no audio"),
    }

    let mut picture = filled(b"picture");
    assert_eq!(session.on_video_data(&mut picture, &61), Ok(()));
    assert_eq!(&picture[..], b"picture");
    match consumer.try_recv() {
        Ok(ChannelData::Video { timestamp, data }) => {
            assert_eq!(timestamp, 61);
            assert_eq!(&data[..], b"picture");
        }
        _ => panic!("no video"),
    }

    let mut body = filled(b"meta");
    assert_eq!(session.on_amf_data(&mut body), Ok(()));
    match consumer.try_recv() {
        Ok(ChannelData::MetaData { body }) => assert_eq!(&body[..], b"meta"),
        _ => panic!("no metadata"),
    }

    drop(consumer);
    let wanted = Err(SessionError { value: SessionErrorValue::SendChannelDataErr });
    assert_eq!(session.on_audio_data(&mut filled(b"x"), &62), wanted);
    assert_eq!(session.on_video_data(&mut filled(b"x"), &62), wanted);
    assert_eq!(session.on_amf_data(&mut filled(b"x")), wanted);
    let video = RtmpMessageData::VideoData { data: filled(b"late") };
    assert_fails(
        session.run(SessionEvent::Message(video)),
        SessionErrorValue::SendChannelDataErr,
    );
}

#[test]
fn media_before_a_publish_comes_back_to_the_session() {
    let (mut session, _hub) = new_session();
    assert_eq!(session.on_audio_data(&mut filled(b"early"), &5), Ok(()));
    match session.data_consumer().try_recv() {
        Ok(ChannelData::Audio { timestamp, data }) => {
            assert_eq!(timestamp, 5);
            assert_eq!(&data[..], b"early");
        }
        _ => panic!("no audio"),
    }
}

#[test]
fn media_is_refused_once_a_player_has_its_consumer() {
    let (mut session, mut hub) = new_session();
    assert_eq!(session.on_audio_data(&mut filled(b"early"), &5), Ok(()));
    play_up_to_subscribe(&mut session);
    assert_eq!(session.on_video_data(&mut filled(b"still"), &6), Ok(()));
    let (sender, receiver) = mpsc::unbounded_channel();
    session.run(SessionEvent::Consumer(Some(receiver)));
    let refused = || Err(SessionError { value: SessionErrorValue::SendChannelDataErr });
    assert_eq!(session.on_audio_data(&mut filled(b"late"), &7), refused());
    assert_eq!(session.on_video_data(&mut filled(b"late"), &7), refused());
    assert_eq!(session.on_amf_data(&mut filled(b"late")), refused());
    assert!(session.data_consumer().try_recv().is_err());
    assert!(sender.send(ChannelData::MetaData { body: filled(b"played") }).is_ok());
    assert!(matches!(session.data_consumer().try_recv(), Ok(ChannelData::MetaData { .. })));
    assert!(matches!(hub.try_recv(), Ok(ChannelEvent::Subscribe { .. })));

    let (publisher, mut listener) = mpsc::unbounded_channel();
    session.run(SessionEvent::Publisher(Some(publisher)));
    assert_eq!(session.on_audio_data(&mut filled(b"again"), &8), Ok(()));
    assert!(matches!(listener.try_recv(), Ok(ChannelData::Audio { timestamp: 8, .. })));
}

#[test]
fn media_is_taken_with_both_a_publisher_and_a_consumer() {
    let (mut session, _hub) = new_session();
    let (publisher, mut listener) = mpsc::unbounded_channel();
    publish_up_to_announcement(&mut session);
    session.run(SessionEvent::Publisher(Some(publisher)));
    let (_sender, receiver) = mpsc::unbounded_channel();
    session.run(SessionEvent::Consumer(Some(receiver)));
    assert_eq!(session.on_amf_data(&mut filled(b"meta")), Ok(()));
    match listener.try_recv() {
        Ok(ChannelData::MetaData { body }) => assert_eq!(&body[..], b"meta"),
        _ => panic!("no metadata"),
    }
}

#[test]
fn publish_fails_where_no_hub_listens() {
    let (mut session, hub) = new_session();
    drop(hub);
    let action = publish_up_to_announcement(&mut session);
    assert_fails(action, SessionErrorValue::ChannelEventSendErr);
}

#[test]
fn malformed_publish_ends_the_session() {
    let lists = vec![
        vec![],
        vec![text("movie")],
        vec![Amf0ValueType::Other, text("live")],
        vec![text("movie"), Amf0ValueType::Boolean(false)],
    ];
    for others in lists {
        let (mut session, mut hub) = new_session();
        at_first_message(&mut session);
        let action = session.run(command("publish", Amf0ValueType::Other, others));
        assert_fails(action, SessionErrorValue::Amf0ValueCountNotCorrect);
        assert_eq!(session.session_type, 12);
        assert!(hub.try_recv().is_err());
    }
}

#[test]
fn delete_stream_unpublishes_what_was_published() {
    let (mut session, mut hub) = new_session();
    publish_up_to_announcement(&mut session);
    assert!(matches!(hub.try_recv(), Ok(ChannelEvent::Publish { .. })));
    session.run(SessionEvent::Publisher(None));
    session.run(SessionEvent::Chunks(vec![incoming(3, 70, b"delete")]));
    let action = session.run(command(
        "deleteStream",
        Amf0ValueType::Other,
        vec![Amf0ValueType::Number(number(1.0))],
    ));
    match hub.try_recv() {
        Ok(ChannelEvent::UnPublish { app_name, stream_name }) => {
            assert_eq!(app_name, "");
            assert_eq!(stream_name, "movie");
        }
        _ => panic!("the hub was not told"),
    }
    assert_status(action, "NetStream.DeleteStream.Suceess", "");
}

#[test]
fn delete_stream_without_value_is_ignored() {
    let (mut session, mut hub) = new_session();
    at_first_message(&mut session);
    let action = session.run(command("deleteStream", Amf0ValueType::Other, vec![]));
    assert!(matches!(action, SessionAction::ReadChunks { .. }));
    assert!(hub.try_recv().is_err());
}

#[test]
fn delete_stream_fails_where_no_hub_listens() {
    let (mut session, hub) = new_session();
    drop(hub);
    at_first_message(&mut session);
    let action = session.run(command(
        "deleteStream",
        Amf0ValueType::Other,
        vec![Amf0ValueType::Other],
    ));
    assert_fails(action, SessionErrorValue::ChannelEventSendErr);
}

#[test]
fn unknown_commands_are_ignored() {
    let (mut session, mut hub) = new_session();
    at_first_message(&mut session);
    let action = session.run(command("releaseStream", Amf0ValueType::Other, vec![text("x")]));
    assert!(matches!(action, SessionAction::ReadChunks { session_type: None }));
    session.run(SessionEvent::Chunks(vec![incoming(0, 0, b"x")]));
    let nameless = RtmpMessageData::Amf0Command {
        command_name: Amf0ValueType::Boolean(true),
        transaction_id: Amf0ValueType::Other,
        command_object: Amf0ValueType::Other,
        others: vec![],
    };
    let action = session.run(SessionEvent::Message(nameless));
    assert!(matches!(action, SessionAction::ReadChunks { session_type: None }));
    assert_eq!(session.session_type, 0);
    assert!(hub.try_recv().is_err());
}

#[test]
fn chunk_size_goes_to_the_unpacketizer() {
    let (mut session, _hub) = new_session();
    at_first_message(&mut session);
    let message = RtmpMessageData::SetChunkSize { chunk_size: 60000 };
    let action = session.run(SessionEvent::Message(message));
    assert!(matches!(
        action,
        SessionAction::Perform(Request::UpdateMaxChunkSize { size: 60000 })
    ));
}

#[test]
fn chunk_size_of_the_session_is_announced() {
    let (session, _hub) = new_session();
    assert!(matches!(session.send_set_chunk_size(), Request::SetChunkSize { size: 7000 }));
}

#[test]
fn transaction_that_is_no_number_counts_as_zero() {
    let (mut session, _hub) = new_session();
    let steps = session.on_amf0_command_message(
        &1,
        &text("createStream"),
        &text("seven"),
        &Amf0ValueType::Other,
        &mut vec![],
    );
    match steps {
        Ok(steps) => {
            assert_eq!(steps.len(), 1);
            match &steps[0] {
                rtmp_session::protocol::Step::Perform(Request::EncodeCreateStreamResponse {
                    transaction_id,
                    ..
                }) => assert_eq!(*transaction_id, number(0.0)),
                _ => panic!("no answer"),
            }
        }
        Err(_) => panic!("refused"),
    }
}
