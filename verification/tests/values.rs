use bytes::BytesMut;
use rtmp_session::amf0::{Amf0Object, Amf0ValueType, Number};
use rtmp_session::channels::{ChannelData, ChannelEvent};
use rtmp_session::chunk::{ChunkInfo, ChunkStreamId, ChunkType, MessageTypeId};
use rtmp_session::errors::{SessionError, SessionErrorValue};
use rtmp_session::messages::RtmpMessageData;
use rtmp_session::protocol::{Request, Step};
use rtmp_session::session::{data_result, event_result, ServerSession};
use rtmp_session::settings::Settings;
use tokio::sync::mpsc;
use tokio::sync::mpsc::error::SendError;

const ZERO: Number = Number { bits: 0 };

fn text(value: &str) -> Amf0ValueType {
    Amf0ValueType::UTF8String(value.to_string())
}

fn text_in(value: Option<&Amf0ValueType>) -> Option<String> {
    match value {
        Some(Amf0ValueType::UTF8String(text)) => Some(text.clone()),
        _ => None,
    }
}

fn new_session() -> (ServerSession, mpsc::UnboundedReceiver<ChannelEvent>) {
    let (sender, receiver) = mpsc::unbounded_channel();
    let settings = Settings {
        window_acknowledgement_size: 1,
        peer_bandwidth: 2,
        chunk_size: 3,
        fms_version: String::new(),
        capabilities: ZERO,
        level: String::new(),
        object_encoding: ZERO,
        stream_id: ZERO,
        server_pull: 4,
        server_push: 5,
    };
    (ServerSession::new(sender, 6, settings), receiver)
}

#[test]
fn object_holds_the_last_value_of_a_name() {
    let object = Amf0Object::new()
        .with("app".to_string(), text("one"))
        .with("tcUrl".to_string(), text("url"))
        .with("app".to_string(), text("two"));
    assert_eq!(text_in(object.get(&"app".to_string())), Some("two".to_string()));
    assert_eq!(text_in(object.get(&"tcUrl".to_string())), Some("url".to_string()));
    assert!(object.get(&"App".to_string()).is_none());
    assert!(Amf0Object::new().get(&"app".to_string()).is_none());
}

#[test]
fn outgoing_chunk_has_a_full_header() {
    let chunk = ChunkInfo::outgoing(
        ChunkStreamId::Video,
        123,
        MessageTypeId::Video,
        BytesMut::from(&b"abc"[..]),
    );
    assert_eq!(chunk.csid, ChunkStreamId::Video);
    assert_eq!(chunk.format, ChunkType::Type0);
    assert_eq!(chunk.timestamp, 123);
    assert_eq!(chunk.msg_length, 3);
    assert_eq!(chunk.msg_type_id, MessageTypeId::Video);
    assert_eq!(chunk.msg_stream_id, 0);
    assert_eq!(&chunk.payload[..], b"abc");
}

#[test]
fn empty_payload_has_length_zero() {
    let (session, _hub) = new_session();
    match session.send_audio(BytesMut::new(), 9) {
        Request::WriteChunk(chunk) => {
            assert_eq!(chunk.msg_length, 0);
            assert_eq!(chunk.timestamp, 9);
            assert_eq!(chunk.csid, ChunkStreamId::Audio);
        }
        _ => panic!("no chunk"),
    }
    match session.send_video(BytesMut::new(), 8) {
        Request::WriteChunk(chunk) => {
            assert_eq!(chunk.msg_length, 0);
            assert_eq!(chunk.timestamp, 8);
            assert_eq!(chunk.csid, ChunkStreamId::Video);
        }
        _ => panic!("no chunk"),
    }
}

#[test]
fn play_without_stream_name_ends_in_a_halt() {
    let (session, _hub) = new_session();
    for mut others in vec![vec![], vec![Amf0ValueType::Number(ZERO), text("movie")]] {
        let steps = session.on_play(&ZERO, &1, &mut others);
        assert_eq!(steps.len(), 7);
        assert!(matches!(&steps[5], Step::Perform(Request::StreamIsRecord { stream_id: 1 })));
        assert!(matches!(&steps[6], Step::Halt));
        assert_eq!(others.len(), 0);
    }
}

#[test]
fn play_counts_its_values_in_eight_bits() {
    let (session, _hub) = new_session();
    let mut others = vec![];
    while others.len() < 256 {
        others.push(text("movie"));
    }
    let steps = session.on_play(&ZERO, &1, &mut others);
    assert_eq!(others.len(), 256);
    assert!(matches!(&steps[6], Step::Halt));

    let mut others = vec![];
    while others.len() < 257 {
        others.push(text("movie"));
    }
    let steps = session.on_play(&ZERO, &1, &mut others);
    assert_eq!(others.len(), 256);
    assert!(matches!(&steps[6], Step::Subscribe(name) if name == "movie"));
}

#[test]
fn play_takes_at_most_four_values() {
    let (session, _hub) = new_session();
    let mut others = vec![
        text("movie"),
        Amf0ValueType::Number(ZERO),
        Amf0ValueType::Number(ZERO),
        Amf0ValueType::Boolean(true),
        text("left"),
    ];
    let steps = session.on_play(&ZERO, &1, &mut others);
    assert_eq!(steps.len(), 8);
    assert!(matches!(&steps[7], Step::EnterPlay));
    assert_eq!(others.len(), 1);
    assert_eq!(text_in(others.first()), Some("left".to_string()));

    let mut others = vec![text("movie"), Amf0ValueType::Other, Amf0ValueType::Other];
    session.on_play(&ZERO, &1, &mut others);
    assert_eq!(others.len(), 0);
}

#[test]
fn publish_takes_the_values_that_it_reads() {
    let (mut session, _hub) = new_session();
    let mut others = vec![text("movie"), text("live"), text("left")];
    match session.on_publish(&ZERO, &1, &mut others) {
        Ok(steps) => assert!(matches!(&steps[2], Step::Publish)),
        Err(_) => panic!("refused"),
    }
    assert_eq!(others.len(), 1);

    let wrong = SessionError { value: SessionErrorValue::Amf0ValueCountNotCorrect };
    let mut others = vec![text("movie")];
    assert!(matches!(session.on_publish(&ZERO, &1, &mut others), Err(error) if error == wrong));
    assert_eq!(others.len(), 1);

    let mut others = vec![Amf0ValueType::Other, text("live")];
    assert!(matches!(session.on_publish(&ZERO, &1, &mut others), Err(error) if error == wrong));
    assert_eq!(others.len(), 1);

    let mut others = vec![text("movie"), Amf0ValueType::Other];
    assert!(matches!(session.on_publish(&ZERO, &1, &mut others), Err(error) if error == wrong));
    assert_eq!(others.len(), 0);
}

#[test]
fn commands_lose_the_values_that_they_read() {
    let (mut session, _hub) = new_session();
    let mut message = RtmpMessageData::Amf0Command {
        command_name: text("deleteStream"),
        transaction_id: Amf0ValueType::Other,
        command_object: Amf0ValueType::Other,
        others: vec![text("first"), Amf0ValueType::Number(ZERO)],
    };
    match session.process_messages(&mut message, &1, &2) {
        Ok(steps) => assert_eq!(steps.len(), 1),
        Err(_) => panic!("refused"),
    }
    match message {
        RtmpMessageData::Amf0Command { others, .. } => {
            assert_eq!(others.len(), 1);
            assert_eq!(text_in(others.first()), Some("first".to_string()));
        }
        _ => panic!("another message"),
    }
}

#[test]
fn media_stays_in_its_message() {
    let (mut session, _hub) = new_session();
    let mut message = RtmpMessageData::AudioData { data: BytesMut::from(&b"sound"[..]) };
    assert!(session.process_messages(&mut message, &1, &2).is_ok());
    match message {
        RtmpMessageData::AudioData { data } => assert_eq!(&data[..], b"sound"),
        _ => panic!("another message"),
    }
}

#[test]
fn delete_stream_gives_one_step() {
    let (mut session, mut hub) = new_session();
    match session.on_delete_stream(&ZERO, &ZERO) {
        Ok(steps) => assert_eq!(steps.len(), 1),
        Err(_) => panic!("refused"),
    }
    assert!(matches!(hub.try_recv(), Ok(ChannelEvent::UnPublish { .. })));
    drop(hub);
    let wanted = SessionError { value: SessionErrorValue::ChannelEventSendErr };
    assert!(matches!(session.on_delete_stream(&ZERO, &ZERO), Err(error) if error == wanted));
}

#[test]
fn refused_messages_become_errors() {
    assert_eq!(event_result(Ok(())), Ok(()));
    assert_eq!(data_result(Ok(())), Ok(()));
    let event = ChannelEvent::UnPublish { app_name: String::new(), stream_name: String::new() };
    assert_eq!(
        event_result(Err(SendError(event))),
        Err(SessionError { value: SessionErrorValue::ChannelEventSendErr })
    );
    let data = ChannelData::MetaData { body: BytesMut::new() };
    assert_eq!(
        data_result(Err(SendError(data))),
        Err(SessionError { value: SessionErrorValue::SendChannelDataErr })
    );
}
