//! What holds of a session as a whole. The laws speak of `transition`, which is
//! what [`ServerSession::run`](crate::session::ServerSession::run) keeps to.

use crate::amf0::Number;
use crate::buffer::bytes_of;
use crate::channels::{
    accepted_data, cut_off, ChannelData, ChannelDataConsumer, ChannelDataPublisher, ChannelDataView,
    ChannelEventView,
};
use crate::chunk::{chunk_views, ChunkInfo, ChunkView};
use crate::errors::SessionErrorValue;
use crate::messages::{number_of, play_name, properties_of, text_of, RtmpMessageData};
use crate::model::{
    command_chunk, connect_app, connect_encoding, connect_steps, create_stream_steps,
    delete_stream_steps, failure, hearers, is_playing, loops_back, media_chunk, message_outcome,
    notify, play_steps, proceed, publish_event, publish_steps, subscribe_event, takes_media,
    transition, unpublish_event, unsubscribe_event, with_consumer, with_publisher, Outside,
    ServerSessionState, SessionModel,
};
use crate::protocol::{
    reports_on, ActionView, PeerBandwidthLimit, RequestView, SessionEvent, StepView,
};
use bytes::BytesMut;
use vstd::prelude::*;

verus! {

/// How far a session has come.
pub open spec fn rank(state: ServerSessionState) -> int {
    match state {
        ServerSessionState::Handshake => 0,
        ServerSessionState::ReadChunk => 1,
        ServerSessionState::Play => 2,
    }
}

/// What holds of a session at all times.
pub open spec fn is_sound(session: SessionModel) -> bool {
    // Work is left only inside a reading round.
    &&& !session.reading ==> session.tasks.len() == 0 && session.chunks.len() == 0
    // There is no reading round before the handshake is over.
    &&& session.state == ServerSessionState::Handshake ==> !session.reading
    // Bytes of the handshake are left only until the first reading round.
    &&& session.need_process ==> !session.reading && session.state
        == ServerSessionState::ReadChunk
    // The unpacketizer's session type is the session's.
    &&& session.unpacketizer_session_type matches Some(session_type) ==> session_type
        == session.session_type
}

/// What holds of a session that waits for a report on `action`.
pub open spec fn awaits(session: SessionModel, action: ActionView) -> bool {
    &&& is_sound(session)
    &&& match action {
        ActionView::ReadNetwork => !session.reading && !session.need_process && session.state
            != ServerSessionState::Play,
        ActionView::Handshake { .. } => session.state == ServerSessionState::Handshake,
        ActionView::ExtendUnpacketizer { .. } => {
            &&& session.state == ServerSessionState::ReadChunk
            &&& session.reading != session.need_process
            &&& session.tasks.len() == 0 && session.chunks.len() == 0
        },
        ActionView::ReadChunks { .. } => session.reading && session.tasks.len() == 0
            && session.chunks.len() == 0,
        ActionView::ParseMessage { .. } => session.reading && session.tasks.len() == 0,
        ActionView::Perform(RequestView::WriteChunk(_)) => session.reading || is_playing(session),
        ActionView::Perform(_) => session.reading,
        ActionView::AwaitData => is_playing(session),
        ActionView::AwaitPublisher { .. } => session.reading,
        ActionView::AwaitConsumer { .. } => session.reading,
        ActionView::Fail(_) => true,
        ActionView::GiveUp => true,
        ActionView::Halt => true,
    }
}

/// A session as it is made.
pub open spec fn is_new(session: SessionModel) -> bool {
    &&& session.app_name == Seq::<char>::empty()
    &&& session.stream_name == Seq::<char>::empty()
    &&& session.state == ServerSessionState::Handshake
    &&& !session.need_process
    &&& session.session_type == 0
    &&& session.unpacketizer_session_type is None
    &&& !session.reading
    &&& session.tasks.len() == 0
    &&& session.chunks.len() == 0
    &&& session.published.len() == 0
    &&& loops_back(session)
    &&& !session.cut_off
}

/// A new session begins by reading from its peer, and is sound.
pub proof fn law_new_session_reads(session: SessionModel, outside: Outside)
    requires
        is_new(session),
    ensures
        transition(session, SessionEvent::Done, outside) == (session, ActionView::ReadNetwork),
        awaits(session, ActionView::ReadNetwork),
{
}

/// What `proceed` keeps of a sound session.
proof fn lemma_proceed(session: SessionModel, outside: Outside)
    requires
        is_sound(session),
    ensures
        awaits(proceed(session, outside).0, proceed(session, outside).1),
        rank(proceed(session, outside).0.state) >= rank(session.state),
        session.tasks.len() == 0 ==> proceed(session, outside).0.state == session.state,
        !(proceed(session, outside).1 is GiveUp),
    decreases session.tasks.len(),
{
    if session.tasks.len() > 0 {
        let rest = SessionModel { tasks: session.tasks.skip(1), ..session };
        match session.tasks[0] {
            StepView::AcceptApp(app_name) => {
                lemma_proceed(SessionModel { app_name, ..rest }, outside);
            },
            StepView::EnterPlay => {
                lemma_proceed(SessionModel { state: ServerSessionState::Play, ..rest }, outside);
            },
            _ => {},
        }
    }
}

/// What an event keeps of a sound session.
proof fn lemma_transition(
    session: SessionModel,
    action: ActionView,
    event: SessionEvent,
    outside: Outside,
)
    requires
        awaits(session, action),
        reports_on(event, action),
    ensures
        ({
            let (after, next) = transition(session, event, outside);
            &&& awaits(after, next)
            &&& rank(session.state) <= rank(after.state) <= rank(session.state) + 1
            &&& next is GiveUp <==> event is Failed
        }),
{
    match event {
        SessionEvent::Done | SessionEvent::NotChunks => {
            lemma_proceed(session, outside);
        },
        SessionEvent::HandshakeStep { finished, remaining } => {
            lemma_proceed(session, outside);
            lemma_proceed(
                SessionModel { state: ServerSessionState::ReadChunk, ..session },
                outside,
            );
        },
        SessionEvent::Chunks(chunks) => {
            lemma_proceed(
                SessionModel { chunks: session.chunks + chunk_views(chunks@), ..session },
                outside,
            );
        },
        SessionEvent::ChunksEnd => {
            lemma_proceed(SessionModel { reading: false, ..session }, outside);
        },
        SessionEvent::Message(message) => {
            let (after, steps) = message_outcome(
                session,
                message,
                session.msg_stream_id,
                session.timestamp,
                outside.accepts_message,
            );
            if steps is Ok {
                lemma_proceed(
                    SessionModel { tasks: steps->Ok_0 + after.tasks, ..after },
                    outside,
                );
            }
        },
        SessionEvent::Publisher(Some(publisher)) => {
            lemma_proceed(with_publisher(session, publisher), outside);
        },
        SessionEvent::Publisher(None) | SessionEvent::Consumer(None) => {
            lemma_proceed(session, outside);
        },
        SessionEvent::Consumer(Some(consumer)) => {
            lemma_proceed(with_consumer(session, consumer), outside);
        },
        _ => {},
    }
}

/// Whatever is reported on the action that a session asked for, the session is
/// sound afterwards and waits for a report on the action that it asks for next.
pub proof fn law_soundness_is_kept(
    session: SessionModel,
    action: ActionView,
    event: SessionEvent,
    outside: Outside,
)
    requires
        awaits(session, action),
        reports_on(event, action),
    ensures
        ({
            let (after, next) = transition(session, event, outside);
            awaits(after, next)
        }),
{
    lemma_transition(session, action, event, outside);
}

/// A session goes from the handshake to reading and from reading to playing. It
/// never goes back and never skips reading.
pub proof fn law_states_only_advance(
    session: SessionModel,
    action: ActionView,
    event: SessionEvent,
    outside: Outside,
)
    requires
        awaits(session, action),
        reports_on(event, action),
    ensures
        rank(session.state) <= rank(transition(session, event, outside).0.state) <= rank(
            session.state,
        ) + 1,
{
    lemma_transition(session, action, event, outside);
}

/// Where a session and its driver stand after a series of reports.
pub open spec fn after_reports(
    session: SessionModel,
    action: ActionView,
    reports: Seq<(SessionEvent, Outside)>,
) -> (SessionModel, ActionView)
    decreases reports.len(),
{
    if reports.len() == 0 {
        (session, action)
    } else {
        let (before, asked) = after_reports(session, action, reports.drop_last());
        transition(before, reports.last().0, reports.last().1)
    }
}

/// Whether each of a series of reports is on the action that was asked for.
pub open spec fn all_report(
    session: SessionModel,
    action: ActionView,
    reports: Seq<(SessionEvent, Outside)>,
) -> bool
    decreases reports.len(),
{
    reports.len() > 0 ==> {
        &&& all_report(session, action, reports.drop_last())
        &&& reports_on(
            reports.last().0,
            after_reports(session, action, reports.drop_last()).1,
        )
    }
}

/// Whatever a driver reports to a new session, as long as it reports on what it
/// was asked to do, the session is sound, and it is the session that was made:
/// its number and its settings are the same.
pub proof fn law_every_session_is_sound(
    session: SessionModel,
    reports: Seq<(SessionEvent, Outside)>,
)
    requires
        is_new(session),
        all_report(session, ActionView::ReadNetwork, reports),
    ensures
        ({
            let (after, action) = after_reports(session, ActionView::ReadNetwork, reports);
            &&& awaits(after, action)
            &&& after.session_id == session.session_id
            &&& after.settings == session.settings
        }),
    decreases reports.len(),
{
    if reports.len() > 0 {
        law_every_session_is_sound(session, reports.drop_last());
        let (before, asked) = after_reports(
            session,
            ActionView::ReadNetwork,
            reports.drop_last(),
        );
        lemma_transition(before, asked, reports.last().0, reports.last().1);
        law_identity_is_kept(before, reports.last().0, reports.last().1);
    }
}

/// Where a new session and its driver stand after the first `count` reports.
pub open spec fn stand(
    session: SessionModel,
    reports: Seq<(SessionEvent, Outside)>,
    count: int,
) -> (SessionModel, ActionView) {
    after_reports(session, ActionView::ReadNetwork, reports.take(count))
}

/// Whether an action ends a session. There is no end without a reason.
pub open spec fn is_end(action: ActionView) -> bool {
    action is Fail || action is GiveUp || action is Halt
}

/// The states of a new session from its first report on: it shakes hands, then
/// reads, then plays, in this order, without going back and without a step left
/// out, and once it plays no more is read from the peer. The first failure that
/// is reported ends it with that failure, and nothing follows the end.
pub proof fn law_run_goes_one_way(
    session: SessionModel,
    reports: Seq<(SessionEvent, Outside)>,
)
    requires
        is_new(session),
        all_report(session, ActionView::ReadNetwork, reports),
    ensures
        stand(session, reports, 0).0.state == ServerSessionState::Handshake,
        forall|i: int, j: int|
            0 <= i <= j <= reports.len() ==> rank((#[trigger] stand(session, reports, i)).0.state)
                <= rank((#[trigger] stand(session, reports, j)).0.state),
        forall|i: int, j: int|
            0 <= i && j == i + 1 && j <= reports.len() ==> rank(
                (#[trigger] stand(session, reports, j)).0.state,
            ) <= rank((#[trigger] stand(session, reports, i)).0.state) + 1,
        forall|i: int, j: int|
            0 <= i <= j <= reports.len() && (#[trigger] stand(session, reports, i)).0.state
                == ServerSessionState::Play ==> !((#[trigger] stand(
                session,
                reports,
                j,
            )).1 is ReadNetwork),
        forall|i: int|
            0 <= i < reports.len() ==> !is_end((#[trigger] stand(session, reports, i)).1),
        forall|i: int|
            0 <= i < reports.len() && (#[trigger] reports[i]).0 is Failed ==> i == reports.len()
                - 1 && stand(session, reports, reports.len() as int).1 == ActionView::GiveUp,
        stand(session, reports, reports.len() as int).1 is GiveUp ==> reports.len() > 0
            && reports.last().0 is Failed,
    decreases reports.len(),
{
    assert(reports.take(reports.len() as int) =~= reports);
    assert(reports.take(0) =~= Seq::<(SessionEvent, Outside)>::empty());
    law_every_session_is_sound(session, reports);
    if reports.len() > 0 {
        let earlier = reports.drop_last();
        let last = reports.len() - 1;
        law_run_goes_one_way(session, earlier);
        law_every_session_is_sound(session, earlier);
        assert forall|i: int| 0 <= i <= last implies #[trigger] stand(session, reports, i) == stand(
            session,
            earlier,
            i,
        ) by {
            assert(reports.take(i) =~= earlier.take(i));
        }
        assert(earlier.take(last) =~= earlier);
        let (before, asked) = after_reports(session, ActionView::ReadNetwork, earlier);
        assert(stand(session, reports, last) == (before, asked));
        assert(stand(session, reports, reports.len() as int) == transition(
            before,
            reports.last().0,
            reports.last().1,
        ));
        lemma_transition(before, asked, reports.last().0, reports.last().1);
        assert forall|i: int| 0 <= i < last implies !((#[trigger] reports[i]).0 is Failed) by {
            assert(earlier[i] == reports[i]);
            if reports[i].0 is Failed {
                assert(asked == ActionView::GiveUp);
            }
        }
        assert(stand(session, reports, last).1 == asked && !is_end(asked));
    }
}

/// What `proceed` leaves alone.
pub(crate) proof fn lemma_proceed_frame(session: SessionModel, outside: Outside)
    ensures
        ({
            let after = proceed(session, outside).0;
            &&& after.session_id == session.session_id
            &&& after.settings == session.settings
            &&& after.published == session.published
            &&& after.hears == session.hears
            &&& after.cut_off == session.cut_off
            &&& after.consumer == session.consumer
            &&& tells_nothing(session, after) || tells_own(session, after)
        }),
    decreases session.tasks.len(),
{
    if session.tasks.len() > 0 {
        let rest = SessionModel { tasks: session.tasks.skip(1), ..session };
        match session.tasks[0] {
            StepView::AcceptApp(app_name) => {
                lemma_proceed_frame(SessionModel { app_name, ..rest }, outside);
            },
            StepView::EnterPlay => {
                lemma_proceed_frame(
                    SessionModel { state: ServerSessionState::Play, ..rest },
                    outside,
                );
            },
            StepView::Subscribe(stream_name) => {
                let after = proceed(session, outside).0;
                assert(after.offered.drop_last() =~= session.offered);
            },
            StepView::Publish => {
                let after = proceed(session, outside).0;
                assert(after.offered.drop_last() =~= session.offered);
            },
            _ => {},
        }
    }
}

/// The application and the stream that an event names.
pub open spec fn event_names(event: ChannelEventView) -> (Seq<char>, Seq<char>) {
    match event {
        ChannelEventView::Subscribe { app_name, stream_name, .. } => (app_name, stream_name),
        ChannelEventView::UnSubscribe { app_name, stream_name, .. } => (app_name, stream_name),
        ChannelEventView::Publish { app_name, stream_name, .. } => (app_name, stream_name),
        ChannelEventView::UnPublish { app_name, stream_name } => (app_name, stream_name),
    }
}

/// Whether a session has sent nothing to the hub.
pub open spec fn tells_nothing(before: SessionModel, after: SessionModel) -> bool {
    &&& after.offered == before.offered
    &&& after.events == before.events
}

/// Whether a session has sent one event to the hub, which names the application
/// and the stream that the session names, and which the hub has taken or not.
pub open spec fn tells_own(before: SessionModel, after: SessionModel) -> bool {
    &&& after.offered.len() == before.offered.len() + 1
    &&& after.offered.drop_last() == before.offered
    &&& event_names(after.offered.last()) == (after.app_name, after.stream_name)
    &&& after.events == before.events || after.events == before.events.push(after.offered.last())
}

/// Nothing changes a session's number or its settings.
pub proof fn law_identity_is_kept(session: SessionModel, event: SessionEvent, outside: Outside)
    ensures
        transition(session, event, outside).0.session_id == session.session_id,
        transition(session, event, outside).0.settings == session.settings,
{
    lemma_event_frame(session, event, outside);
}

/// What an event leaves alone.
proof fn lemma_event_frame(session: SessionModel, event: SessionEvent, outside: Outside)
    ensures
        ({
            let after = transition(session, event, outside).0;
            &&& after.session_id == session.session_id
            &&& after.settings == session.settings
            &&& !(event is Message) && !(event is Failed) ==> tells_nothing(session, after)
                || tells_own(session, after)
            &&& !(event is Message) && !(event matches SessionEvent::Publisher(Some(_)))
                ==> after.published == session.published
            &&& !hands_out_channel(event) ==> after.hears == session.hears && after.consumer
                == session.consumer && after.cut_off == session.cut_off
        }),
{
    match event {
        SessionEvent::HandshakeStep { finished, remaining } => {
            lemma_proceed_frame(session, outside);
            lemma_proceed_frame(
                SessionModel { state: ServerSessionState::ReadChunk, ..session },
                outside,
            );
        },
        SessionEvent::Chunks(chunks) => {
            lemma_proceed_frame(
                SessionModel { chunks: session.chunks + chunk_views(chunks@), ..session },
                outside,
            );
        },
        SessionEvent::ChunksEnd => {
            lemma_proceed_frame(SessionModel { reading: false, ..session }, outside);
        },
        SessionEvent::Message(message) => {
            let (after, steps) = message_outcome(
                session,
                message,
                session.msg_stream_id,
                session.timestamp,
                outside.accepts_message,
            );
            if steps is Ok {
                lemma_proceed_frame(
                    SessionModel { tasks: steps->Ok_0 + after.tasks, ..after },
                    outside,
                );
            }
        },
        SessionEvent::Publisher(Some(publisher)) => {
            lemma_proceed_frame(with_publisher(session, publisher), outside);
        },
        SessionEvent::Consumer(Some(consumer)) => {
            lemma_proceed_frame(with_consumer(session, consumer), outside);
        },
        _ => {
            lemma_proceed_frame(session, outside);
        },
    }
}

/// A session tells the hub at most one thing at a time, and names in it the
/// application and the stream that it names itself.
pub proof fn law_hub_hears_of_own_stream(
    session: SessionModel,
    action: ActionView,
    event: SessionEvent,
    outside: Outside,
)
    requires
        awaits(session, action),
        reports_on(event, action),
    ensures
        ({
            let after = transition(session, event, outside).0;
            tells_nothing(session, after) || tells_own(session, after)
        }),
{
    lemma_event_frame(session, event, outside);
    let after = transition(session, event, outside).0;
    match event {
        SessionEvent::Message(message) => {
            let (acted, steps) = message_outcome(
                session,
                message,
                session.msg_stream_id,
                session.timestamp,
                outside.accepts_message,
            );
            assert(steps is Ok ==> steps->Ok_0 + acted.tasks =~= steps->Ok_0);
            if after.offered != session.offered {
                assert(after.offered.drop_last() =~= session.offered);
            }
        },
        SessionEvent::Failed => {
            if after.offered != session.offered {
                assert(after.offered.drop_last() =~= session.offered);
            }
        },
        _ => {},
    }
}

/// Media goes to a data channel only as it comes in: an event that is no media
/// message sends none.
pub proof fn law_only_media_is_published(
    session: SessionModel,
    event: SessionEvent,
    outside: Outside,
)
    requires
        !(event matches SessionEvent::Publisher(Some(_))),
        !(event matches SessionEvent::Message(RtmpMessageData::AudioData { .. })),
        !(event matches SessionEvent::Message(RtmpMessageData::VideoData { .. })),
        !(event matches SessionEvent::Message(RtmpMessageData::AmfData { .. })),
    ensures
        transition(session, event, outside).0.published == session.published,
{
    lemma_event_frame(session, event, outside);
    if let SessionEvent::Message(message) = event {
        let (after, steps) = message_outcome(
            session,
            message,
            session.msg_stream_id,
            session.timestamp,
            outside.accepts_message,
        );
        if steps is Ok {
            lemma_proceed_frame(
                SessionModel { tasks: steps->Ok_0 + after.tasks, ..after },
                outside,
            );
        }
    }
}

/// What media message `message` carries, if it is one.
pub open spec fn media_of(message: RtmpMessageData, timestamp: u32) -> Option<ChannelDataView> {
    match message {
        RtmpMessageData::AudioData { data } => Some(
            ChannelDataView::Audio { timestamp, data: bytes_of(data) },
        ),
        RtmpMessageData::VideoData { data } => Some(
            ChannelDataView::Video { timestamp, data: bytes_of(data) },
        ),
        RtmpMessageData::AmfData { raw_data } => Some(
            ChannelDataView::MetaData { body: bytes_of(raw_data) },
        ),
        _ => None,
    }
}

/// The payload bytes of media.
pub open spec fn media_bytes(data: ChannelDataView) -> Seq<u8> {
    match data {
        ChannelDataView::Audio { timestamp, data } => data,
        ChannelDataView::Video { timestamp, data } => data,
        ChannelDataView::MetaData { body } => body,
    }
}

/// Media passes through unchanged: what a publishing session takes from its
/// peer it puts into its data channel, and what a playing session takes from
/// there it writes to its own peer, with the same bytes, their number as the
/// length and, for audio and video, the same timestamp.
pub proof fn law_media_is_relayed_unchanged(
    publisher: SessionModel,
    player: SessionModel,
    message: RtmpMessageData,
    relayed: ChannelData,
    published: Outside,
    played: Outside,
)
    requires
        media_of(message, publisher.timestamp) == Some(relayed@),
        takes_media(publisher, published.accepts_message),
    ensures
        transition(publisher, SessionEvent::Message(message), published).0.published
            == publisher.published.push(relayed@),
        ({
            let (after, action) = transition(player, SessionEvent::Data(Some(relayed)), played);
            &&& after == player
            &&& action == ActionView::Perform(RequestView::WriteChunk(media_chunk(relayed@)))
        }),
        media_chunk(relayed@).payload == media_bytes(relayed@),
        media_bytes(relayed@).len() <= u32::MAX ==> media_chunk(relayed@).msg_length
            == media_bytes(relayed@).len(),
        relayed@ is MetaData || media_chunk(relayed@).timestamp == publisher.timestamp,
{
    let (after, steps) = message_outcome(
        publisher,
        message,
        publisher.msg_stream_id,
        publisher.timestamp,
        published.accepts_message,
    );
    lemma_proceed_frame(SessionModel { tasks: steps->Ok_0 + after.tasks, ..after }, published);
}

/// Whether an event gives a session an end of a data channel.
pub open spec fn hands_out_channel(event: SessionEvent) -> bool {
    event matches SessionEvent::Publisher(Some(_)) || event matches SessionEvent::Consumer(
        Some(_),
    )
}

/// Until the hub hands out an end of a data channel, a session keeps both ends of
/// its own, and takes all media that comes.
pub proof fn law_media_is_taken_before_any_channel(
    session: SessionModel,
    event: SessionEvent,
    outside: Outside,
)
    requires
        loops_back(session),
        !hands_out_channel(event),
    ensures
        loops_back(transition(session, event, outside).0),
        event matches SessionEvent::Message(message) ==> (media_of(message, session.timestamp)
            matches Some(data) ==> transition(session, event, outside).0.published
            == session.published.push(data)),
{
    lemma_event_frame(session, event, outside);
    if let SessionEvent::Message(message) = event {
        let (after, steps) = message_outcome(
            session,
            message,
            session.msg_stream_id,
            session.timestamp,
            outside.accepts_message,
        );
        if steps is Ok {
            lemma_proceed_frame(
                SessionModel { tasks: steps->Ok_0 + after.tasks, ..after },
                outside,
            );
        }
    }
}

/// Whether nothing is left at the other end of a session's data channel, because
/// the session has given it up.
pub open spec fn is_cut_off(session: SessionModel) -> bool {
    &&& session.cut_off
    &&& forall|consumer: ChannelDataConsumer| !#[trigger] (session.hears)(consumer)
}

/// A session that is handed another consumer while it holds both ends of its own
/// data channel gives up the receiving one.
pub proof fn law_other_consumer_cuts_off(
    session: SessionModel,
    consumer: ChannelDataConsumer,
    outside: Outside,
)
    requires
        loops_back(session),
    ensures
        is_cut_off(transition(session, SessionEvent::Consumer(Some(consumer)), outside).0),
{
    lemma_proceed_frame(with_consumer(session, consumer), outside);
}

/// A session that has given up the receiving end of its data channel takes no
/// media, whatever else comes, until the hub hands it the sending end of another
/// channel: media ends the session, and none is published.
pub proof fn law_media_is_refused_once_cut_off(
    session: SessionModel,
    event: SessionEvent,
    outside: Outside,
)
    requires
        is_cut_off(session),
        !(event matches SessionEvent::Publisher(Some(_))),
    ensures
        is_cut_off(transition(session, event, outside).0),
        transition(session, event, outside).0.published == session.published,
        event matches SessionEvent::Message(message) ==> (media_of(
            message,
            session.timestamp,
        ) is Some ==> transition(session, event, outside) == (
            session,
            ActionView::Fail(failure(SessionErrorValue::SendChannelDataErr)),
        )),
{
    lemma_event_frame(session, event, outside);
    if let SessionEvent::Consumer(Some(consumer)) = event {
        lemma_proceed_frame(with_consumer(session, consumer), outside);
    }
    if let SessionEvent::Message(message) = event {
        if media_of(message, session.timestamp) is None {
            law_only_media_is_published(session, event, outside);
        }
    }
}

/// Media that the data channel does not take ends the session.
pub proof fn law_media_without_takers_ends_the_session(
    session: SessionModel,
    message: RtmpMessageData,
    outside: Outside,
)
    requires
        media_of(message, session.timestamp) is Some,
        !takes_media(session, outside.accepts_message),
    ensures
        transition(session, SessionEvent::Message(message), outside) == (
            session,
            ActionView::Fail(failure(SessionErrorValue::SendChannelDataErr)),
        ),
{
}

/// A message that ends the session has got nothing through, neither to the peer
/// nor to the hub nor to a data channel. Only a `deleteStream` has tried.
pub proof fn law_refused_message_sends_nothing(
    session: SessionModel,
    message: RtmpMessageData,
    msg_stream_id: u32,
    timestamp: u32,
    accepted: bool,
)
    requires
        message_outcome(session, message, msg_stream_id, timestamp, accepted).1 is Err,
    ensures
        ({
            let after = message_outcome(
                session,
                message,
                msg_stream_id,
                timestamp,
                accepted,
            ).0;
            &&& after.events == session.events
            &&& after.published == session.published
            &&& after.tasks == session.tasks
            &&& after.offered == session.offered || is_command(message, "deleteStream"@)
        }),
{
}

/// A command that is none of `connect`, `createStream`, `deleteStream`, `play`
/// and `publish`, and a message that is neither a command nor media nor a chunk
/// size, change nothing: the session goes on as if it had not come.
pub proof fn law_unknown_messages_are_ignored(
    session: SessionModel,
    message: RtmpMessageData,
    outside: Outside,
)
    requires
        match message {
            RtmpMessageData::Amf0Command { command_name, .. } => {
                &&& text_of(command_name) != "connect"@
                &&& text_of(command_name) != "createStream"@
                &&& text_of(command_name) != "deleteStream"@
                &&& text_of(command_name) != "play"@
                &&& text_of(command_name) != "publish"@
            },
            _ => message is Other,
        },
    ensures
        transition(session, SessionEvent::Message(message), outside) == proceed(session, outside),
{
    assert(Seq::<StepView>::empty() + session.tasks =~= session.tasks);
}

/// A new chunk size of the peer goes to the unpacketizer before anything else.
pub proof fn law_chunk_size_goes_to_the_unpacketizer(
    session: SessionModel,
    chunk_size: u32,
    outside: Outside,
)
    ensures
        transition(
            session,
            SessionEvent::Message(RtmpMessageData::SetChunkSize { chunk_size }),
            outside,
        ) == (
            session,
            ActionView::Perform(RequestView::UpdateMaxChunkSize { size: chunk_size as usize }),
        ),
{
    let step = StepView::Perform(RequestView::UpdateMaxChunkSize { size: chunk_size as usize });
    assert((seq![step] + session.tasks).skip(1) =~= session.tasks);
}

/// Bytes that come with the end of the handshake are the first that the
/// unpacketizer gets, and chunks are taken from them before the peer is read
/// again. Where there are none, the peer is read.
pub proof fn law_handshake_loses_no_bytes(
    session: SessionModel,
    data: Seq<u8>,
    remaining: BytesMut,
    outside: Outside,
    later: Outside,
)
    requires
        awaits(session, ActionView::Handshake { data }),
    ensures
        ({
            let event = SessionEvent::HandshakeStep { finished: true, remaining };
            let (after, action) = transition(session, event, outside);
            &&& after.state == ServerSessionState::ReadChunk
            &&& bytes_of(remaining).len() == 0 ==> action == ActionView::ReadNetwork
            &&& bytes_of(remaining).len() > 0 ==> {
                let (round, next) = transition(after, SessionEvent::Done, later);
                &&& action == (ActionView::ExtendUnpacketizer { data: bytes_of(remaining) })
                &&& next is ReadChunks
                &&& round.netio_data == session.netio_data
                &&& round.reading && !round.need_process
            }
        }),
{
}

proof fn lemma_proceed_reading(session: SessionModel, outside: Outside)
    requires
        session.reading,
    ensures
        ({
            let (after, action) = proceed(session, outside);
            &&& after.reading
            &&& after.need_process == session.need_process
            &&& after.netio_data == session.netio_data
            &&& !(action is ReadNetwork)
        }),
    decreases session.tasks.len(),
{
    if session.tasks.len() > 0 {
        let rest = SessionModel { tasks: session.tasks.skip(1), ..session };
        match session.tasks[0] {
            StepView::AcceptApp(app_name) => {
                lemma_proceed_reading(SessionModel { app_name, ..rest }, outside);
            },
            StepView::EnterPlay => {
                lemma_proceed_reading(
                    SessionModel { state: ServerSessionState::Play, ..rest },
                    outside,
                );
            },
            _ => {},
        }
    }
}

/// Until the unpacketizer has nothing more to take, a reading round reads nothing
/// from the peer: what is unpacked and acted on is what was there when the round
/// began. When the round is over, and when it fails, no bytes of the handshake
/// are left.
pub proof fn law_round_reads_nothing_more(
    session: SessionModel,
    action: ActionView,
    reports: Seq<(SessionEvent, Outside)>,
    outside: Outside,
)
    requires
        session.reading,
        awaits(session, action),
        !(action is ReadNetwork),
        all_report(session, action, reports),
        forall|i: int| 0 <= i < reports.len() ==> !((#[trigger] reports[i]).0 is ChunksEnd),
    ensures
        ({
            let (after, asked) = after_reports(session, action, reports);
            &&& after.reading
            &&& after.netio_data == session.netio_data
            &&& !after.need_process
            &&& !(asked is ReadNetwork)
            &&& !transition(after, SessionEvent::Failed, outside).0.need_process
            &&& reports_on(SessionEvent::ChunksEnd, asked) ==> {
                let over = transition(after, SessionEvent::ChunksEnd, outside).0;
                !over.need_process && over.netio_data == session.netio_data
            }
        }),
    decreases reports.len(),
{
    let (after, asked) = after_reports(session, action, reports);
    lemma_awaits_through(session, action, reports);
    if reports.len() > 0 {
        let earlier = reports.drop_last();
        assert forall|i: int| 0 <= i < earlier.len() implies !(
        (#[trigger] earlier[i]).0 is ChunksEnd) by {
            assert(earlier[i] == reports[i]);
        }
        law_round_reads_nothing_more(session, action, earlier, outside);
        lemma_awaits_through(session, action, earlier);
        let before = after_reports(session, action, earlier).0;
        let event = reports.last().0;
        let then = reports.last().1;
        assert(reports[reports.len() - 1] == reports.last());
        match event {
            SessionEvent::Chunks(chunks) => {
                lemma_proceed_reading(
                    SessionModel { chunks: before.chunks + chunk_views(chunks@), ..before },
                    then,
                );
            },
            SessionEvent::Message(message) => {
                let (acted, steps) = message_outcome(
                    before,
                    message,
                    before.msg_stream_id,
                    before.timestamp,
                    then.accepts_message,
                );
                if steps is Ok {
                    lemma_proceed_reading(
                        SessionModel { tasks: steps->Ok_0 + acted.tasks, ..acted },
                        then,
                    );
                }
            },
            SessionEvent::Publisher(Some(publisher)) => {
                lemma_proceed_reading(with_publisher(before, publisher), then);
            },
            SessionEvent::Consumer(Some(consumer)) => {
                lemma_proceed_reading(with_consumer(before, consumer), then);
            },
            _ => {
                lemma_proceed_reading(before, then);
            },
        }
    }
}

/// A handshake that is not over goes on with what the peer sends next.
pub proof fn law_handshake_goes_on(
    session: SessionModel,
    data: Seq<u8>,
    remaining: BytesMut,
    outside: Outside,
    more: BytesMut,
    later: Outside,
)
    requires
        awaits(session, ActionView::Handshake { data }),
    ensures
        ({
            let event = SessionEvent::HandshakeStep { finished: false, remaining };
            let (after, action) = transition(session, event, outside);
            &&& after == session
            &&& action == ActionView::ReadNetwork
            &&& transition(after, SessionEvent::NetworkData(more), later).1
                == (ActionView::Handshake { data: bytes_of(more) })
        }),
{
}

/// What the peer sends after the handshake goes to the unpacketizer, and chunks
/// are taken from it before the peer is read again.
pub proof fn law_read_bytes_are_unpacked(
    session: SessionModel,
    data: BytesMut,
    outside: Outside,
    later: Outside,
)
    requires
        awaits(session, ActionView::ReadNetwork),
        session.state == ServerSessionState::ReadChunk,
    ensures
        ({
            let (after, action) = transition(session, SessionEvent::NetworkData(data), outside);
            &&& action == (ActionView::ExtendUnpacketizer { data: bytes_of(data) })
            &&& transition(after, SessionEvent::Done, later).1 is ReadChunks
        }),
{
}

/// The chunk that an action has parsed, if it does.
pub open spec fn parses(action: ActionView) -> Seq<ChunkView> {
    match action {
        ActionView::ParseMessage { chunk, .. } => seq![chunk],
        _ => Seq::empty(),
    }
}

/// The chunks that a session has had parsed over a series of reports, oldest
/// first, `action` being what it asked for before them.
pub open spec fn parsed(
    session: SessionModel,
    action: ActionView,
    reports: Seq<(SessionEvent, Outside)>,
) -> Seq<ChunkView>
    decreases reports.len(),
{
    if reports.len() == 0 {
        parses(action)
    } else {
        parsed(session, action, reports.drop_last()) + parses(
            after_reports(session, action, reports).1,
        )
    }
}

/// Whether an action that has a chunk parsed is the turn of that chunk: the session
/// takes over the chunk's message stream and timestamp, and the session type is the
/// one that is in force.
pub open spec fn is_turn(session: SessionModel, action: ActionView) -> bool {
    action matches ActionView::ParseMessage { chunk, session_type } ==> {
        &&& session_type == session.session_type
        &&& session.msg_stream_id == chunk.msg_stream_id
        &&& session.timestamp == chunk.timestamp
    }
}

/// What `proceed` makes of the chunks at hand.
proof fn lemma_proceed_parses(session: SessionModel, outside: Outside)
    ensures
        ({
            let (after, next) = proceed(session, outside);
            &&& parses(next) + after.chunks == session.chunks
            &&& is_turn(after, next)
        }),
    decreases session.tasks.len(),
{
    let (after, next) = proceed(session, outside);
    if session.tasks.len() > 0 {
        let rest = SessionModel { tasks: session.tasks.skip(1), ..session };
        match session.tasks[0] {
            StepView::AcceptApp(app_name) => {
                lemma_proceed_parses(SessionModel { app_name, ..rest }, outside);
            },
            StepView::EnterPlay => {
                lemma_proceed_parses(
                    SessionModel { state: ServerSessionState::Play, ..rest },
                    outside,
                );
            },
            _ => {},
        }
    }
    assert(parses(next) + after.chunks =~= session.chunks);
}

/// What an event that brings no chunks makes of the chunks at hand.
proof fn lemma_event_parses(session: SessionModel, event: SessionEvent, outside: Outside)
    requires
        !(event is Chunks),
    ensures
        ({
            let (after, next) = transition(session, event, outside);
            &&& parses(next) + after.chunks == session.chunks
            &&& is_turn(after, next)
        }),
{
    let (after, next) = transition(session, event, outside);
    match event {
        SessionEvent::HandshakeStep { finished, remaining } => {
            lemma_proceed_parses(session, outside);
            lemma_proceed_parses(
                SessionModel { state: ServerSessionState::ReadChunk, ..session },
                outside,
            );
        },
        SessionEvent::ChunksEnd => {
            lemma_proceed_parses(SessionModel { reading: false, ..session }, outside);
        },
        SessionEvent::Message(message) => {
            let (acted, steps) = message_outcome(
                session,
                message,
                session.msg_stream_id,
                session.timestamp,
                outside.accepts_message,
            );
            if steps is Ok {
                lemma_proceed_parses(
                    SessionModel { tasks: steps->Ok_0 + acted.tasks, ..acted },
                    outside,
                );
            }
        },
        SessionEvent::Publisher(Some(publisher)) => {
            lemma_proceed_parses(with_publisher(session, publisher), outside);
        },
        SessionEvent::Consumer(Some(consumer)) => {
            lemma_proceed_parses(with_consumer(session, consumer), outside);
        },
        _ => {
            lemma_proceed_parses(session, outside);
        },
    }
    assert(parses(next) + after.chunks =~= session.chunks);
}

/// Chunks are parsed one by one, in the order in which they were taken, and each
/// with the session type that is in force when its turn comes. Until more are taken,
/// those that have been parsed and those that are left make up all that were taken.
/// When the unpacketizer or the peer is asked for more, none is left.
pub proof fn law_chunks_are_parsed_in_order(
    session: SessionModel,
    action: ActionView,
    chunks: Vec<ChunkInfo>,
    outside: Outside,
    reports: Seq<(SessionEvent, Outside)>,
)
    requires
        awaits(session, action),
        action is ReadChunks,
        ({
            let (taken, first) = transition(session, SessionEvent::Chunks(chunks), outside);
            all_report(taken, first, reports)
        }),
        forall|i: int| 0 <= i < reports.len() ==> !((#[trigger] reports[i]).0 is Chunks),
    ensures
        ({
            let (taken, first) = transition(session, SessionEvent::Chunks(chunks), outside);
            let (after, asked) = after_reports(taken, first, reports);
            &&& chunks@.len() > 0 ==> first == (ActionView::ParseMessage {
                chunk: chunks@[0]@,
                session_type: session.session_type,
            })
            &&& parsed(taken, first, reports) + after.chunks == chunk_views(chunks@)
            &&& is_turn(after, asked)
            &&& asked is ReadChunks || asked is ReadNetwork ==> parsed(taken, first, reports)
                == chunk_views(chunks@)
        }),
    decreases reports.len(),
{
    let (taken, first) = transition(session, SessionEvent::Chunks(chunks), outside);
    let (after, asked) = after_reports(taken, first, reports);
    let all = chunk_views(chunks@);
    assert(session.chunks + all =~= all);
    lemma_transition(session, action, SessionEvent::Chunks(chunks), outside);
    lemma_awaits_through(taken, first, reports);
    if reports.len() == 0 {
        lemma_proceed_parses(SessionModel { chunks: all, ..session }, outside);
    } else {
        let earlier = reports.drop_last();
        assert forall|i: int| 0 <= i < earlier.len() implies !(
        (#[trigger] earlier[i]).0 is Chunks) by {
            assert(earlier[i] == reports[i]);
        }
        law_chunks_are_parsed_in_order(session, action, chunks, outside, earlier);
        let before = after_reports(taken, first, earlier).0;
        assert(reports[reports.len() - 1] == reports.last());
        lemma_event_parses(before, reports.last().0, reports.last().1);
        assert(parsed(taken, first, reports) + after.chunks =~= parsed(taken, first, earlier)
            + before.chunks);
    }
    assert(after.chunks.len() == 0 ==> parsed(taken, first, reports) + after.chunks
        =~= parsed(taken, first, reports));
}

/// The peer is read, and the unpacketizer is asked for more, only when no chunk
/// and no step is left.
pub proof fn law_reading_waits_for_the_work_at_hand(
    session: SessionModel,
    action: ActionView,
    event: SessionEvent,
    outside: Outside,
)
    requires
        awaits(session, action),
        reports_on(event, action),
    ensures
        ({
            let (after, next) = transition(session, event, outside);
            next is ReadNetwork || next is ReadChunks ==> after.tasks.len() == 0
                && after.chunks.len() == 0
        }),
{
    lemma_transition(session, action, event, outside);
}

/// A session that plays waits for data and writes it, and does nothing else: it
/// neither reads from its peer nor changes any of its names, and it sends nothing
/// to the hub, until a write fails. Then it sends the hub one event, that it no
/// longer listens to the stream that it names, and ends with the failure of the
/// write, whether the hub takes the event or not.
pub proof fn law_playing_only_writes(
    session: SessionModel,
    action: ActionView,
    event: SessionEvent,
    outside: Outside,
)
    requires
        awaits(session, action),
        reports_on(event, action),
        is_playing(session),
    ensures
        ({
            let (after, next) = transition(session, event, outside);
            if event is Failed {
                &&& next == ActionView::GiveUp
                &&& after == notify(session, unsubscribe_event(session), outside.accepts_message)
                &&& after.offered == session.offered.push(unsubscribe_event(session))
                &&& after.state == ServerSessionState::Play
            } else {
                &&& after == session
                &&& next == ActionView::AwaitData || next matches ActionView::Perform(
                    RequestView::WriteChunk(_),
                )
            }
        }),
{
}

/// A failure ends the session, and one that does not play sends nothing for it.
pub proof fn law_failure_ends_the_session(session: SessionModel, outside: Outside)
    ensures
        transition(session, SessionEvent::Failed, outside).1 == ActionView::GiveUp,
        !is_playing(session) ==> transition(session, SessionEvent::Failed, outside).0 == session,
{
}

/// Whether `message` is the command `name`.
pub open spec fn is_command(message: RtmpMessageData, name: Seq<char>) -> bool {
    message matches RtmpMessageData::Amf0Command { command_name, .. } && text_of(command_name)
        == name
}

/// What `transition` makes of a session whose last action is done.
pub open spec fn done(session: SessionModel, outside: Outside) -> (SessionModel, ActionView) {
    transition(session, SessionEvent::Done, outside)
}

/// The transaction that a command names.
pub open spec fn transaction_of(message: RtmpMessageData) -> Number {
    number_of(message->transaction_id)
}

/// A `connect` is answered with three control messages. If it names an
/// application, the session takes the name and the encoded answer follows as a
/// command; that is all that it changes. If it names none, the session ends
/// there, without a name and without an answer.
pub proof fn law_connect_is_answered(
    session: SessionModel,
    message: RtmpMessageData,
    answer: BytesMut,
    outside: spec_fn(int) -> Outside,
)
    requires
        session.tasks.len() == 0,
        is_command(message, "connect"@),
    ensures
        ({
            let properties = properties_of(message->command_object);
            let settings = session.settings;
            let (s0, a0) = transition(session, SessionEvent::Message(message), outside(0));
            let (s1, a1) = done(s0, outside(1));
            let (s2, a2) = done(s1, outside(2));
            let (s3, a3) = done(s2, outside(3));
            let (s4, a4) = transition(s3, SessionEvent::Encoded(answer), outside(4));
            &&& a0 == ActionView::Perform(
                RequestView::WindowAcknowledgementSize {
                    size: settings.window_acknowledgement_size,
                },
            )
            &&& a1 == ActionView::Perform(
                RequestView::SetPeerBandwidth {
                    bandwidth: settings.peer_bandwidth,
                    limit: PeerBandwidthLimit::Dynamic,
                },
            )
            &&& a2 == ActionView::Perform(RequestView::SetChunkSize { size: settings.chunk_size })
            &&& match connect_app(properties) {
                Some(app_name) => {
                    &&& a3 == ActionView::Perform(
                        RequestView::EncodeConnectResponse {
                            transaction_id: transaction_of(message),
                            fms_version: settings.fms_version@,
                            capabilities: settings.capabilities,
                            code: "NetConnection.Connect.Success"@,
                            level: settings.level@,
                            description: "Connection Succeeded."@,
                            encoding: connect_encoding(settings, properties),
                        },
                    )
                    &&& a4 == ActionView::Perform(
                        RequestView::WriteChunk(command_chunk(bytes_of(answer))),
                    )
                    &&& s4 == SessionModel { app_name, ..session }
                },
                None => {
                    &&& a3 == ActionView::Fail(failure(SessionErrorValue::NoAppName))
                    &&& s3 == session
                },
            }
        }),
{
    let settings = session.settings;
    let steps = connect_steps(
        settings,
        transaction_of(message),
        properties_of(message->command_object),
    );
    assert(steps + session.tasks =~= steps);
    assert(steps.skip(1).skip(1).skip(1) =~= steps.skip(3));
    reveal_with_fuel(proceed, 2);
    if connect_app(properties_of(message->command_object)) is Some {
        assert(steps.skip(3).skip(1).skip(1) =~= session.tasks);
    } else {
        assert(steps.skip(3).skip(1) =~= session.tasks);
    }
}

/// A `createStream` is answered with one command, and changes nothing.
pub proof fn law_create_stream_is_answered(
    session: SessionModel,
    message: RtmpMessageData,
    answer: BytesMut,
    outside: spec_fn(int) -> Outside,
)
    requires
        session.tasks.len() == 0,
        is_command(message, "createStream"@),
    ensures
        ({
            let (s0, a0) = transition(session, SessionEvent::Message(message), outside(0));
            let (s1, a1) = transition(s0, SessionEvent::Encoded(answer), outside(1));
            &&& a0 == ActionView::Perform(
                RequestView::EncodeCreateStreamResponse {
                    transaction_id: transaction_of(message),
                    stream_id: session.settings.stream_id,
                },
            )
            &&& a1 == ActionView::Perform(
                RequestView::WriteChunk(command_chunk(bytes_of(answer))),
            )
            &&& s1 == session
        }),
{
    reveal_strlit("connect");
    reveal_strlit("createStream");
    assert("connect"@.len() != "createStream"@.len());
    let steps = create_stream_steps(session.settings, transaction_of(message));
    assert(steps + session.tasks =~= steps);
    assert(steps.skip(1) =~= session.tasks);
}

/// The action that writes an `onStatus` command of level `status`.
pub open spec fn writes_status(
    message: RtmpMessageData,
    code: Seq<char>,
    description: Seq<char>,
) -> ActionView {
    ActionView::Perform(
        RequestView::OnStatus {
            transaction_id: transaction_of(message),
            level: "status"@,
            code,
            description,
        },
    )
}

/// A session whose peer plays: it has the type of a session that is pulled from,
/// and so has its unpacketizer.
pub open spec fn is_pulled(session: SessionModel) -> bool {
    &&& session.session_type == session.settings.server_pull
    &&& session.unpacketizer_session_type == Some(session.settings.server_pull)
}

/// A session whose peer publishes: it has the type of a session that is pushed
/// to, and so has its unpacketizer.
pub open spec fn is_pushed(session: SessionModel) -> bool {
    &&& session.session_type == session.settings.server_push
    &&& session.unpacketizer_session_type == Some(session.settings.server_push)
}

/// No two commands share a name.
pub(crate) proof fn lemma_commands_differ()
    ensures
        "connect"@ != "createStream"@,
        "connect"@ != "deleteStream"@,
        "connect"@ != "play"@,
        "connect"@ != "publish"@,
        "createStream"@ != "deleteStream"@,
        "createStream"@ != "play"@,
        "createStream"@ != "publish"@,
        "deleteStream"@ != "play"@,
        "deleteStream"@ != "publish"@,
        "play"@ != "publish"@,
{
    reveal_strlit("connect");
    reveal_strlit("createStream");
    reveal_strlit("deleteStream");
    reveal_strlit("play");
    reveal_strlit("publish");
    assert("connect"@[0] == 'c' && "publish"@[0] == 'p');
    assert("createStream"@[0] == 'c' && "deleteStream"@[0] == 'd');
    assert("connect"@.len() == 7 && "publish"@.len() == 7 && "play"@.len() == 4);
    assert("createStream"@.len() == 12 && "deleteStream"@.len() == 12);
}

/// A `play` is answered with six messages, in this order. Not before all of
/// them are written is the hub asked for the stream. If it takes the question,
/// the session waits for the answer at the other end of what it gave the hub,
/// and plays from then on, from the answer's channel if there is an answer. If
/// it does not, the session ends and has not begun to play. A `play` that names
/// no stream stops the driver after the six messages.
pub proof fn law_play_subscribes_last(
    session: SessionModel,
    message: RtmpMessageData,
    answer: Option<ChannelDataConsumer>,
    outside: spec_fn(int) -> Outside,
)
    requires
        session.tasks.len() == 0,
        is_command(message, "play"@),
    ensures
        ({
            let stream_id = session.msg_stream_id;
            let name = play_name(message->others@);
            let stream_name = name->Some_0;
            let named = SessionModel { stream_name, ..session };
            let (s0, a0) = transition(session, SessionEvent::Message(message), outside(0));
            let (s1, a1) = done(s0, outside(1));
            let (s2, a2) = done(s1, outside(2));
            let (s3, a3) = done(s2, outside(3));
            let (s4, a4) = done(s3, outside(4));
            let (s5, a5) = done(s4, outside(5));
            let (s6, a6) = done(s5, outside(6));
            let (s7, a7) = transition(s6, SessionEvent::Consumer(answer), outside(7));
            &&& a0 == ActionView::Perform(RequestView::StreamBegin { stream_id })
            &&& a1 == writes_status(message, "NetStream.Play.Reset"@, "reset"@)
            &&& a2 == writes_status(message, "NetStream.Play.Start"@, "play start"@)
            &&& a3 == writes_status(message, "NetStream.Data.Start"@, "data start."@)
            &&& a4 == writes_status(
                message,
                "NetStream.Play.PublishNotify"@,
                "play publish notify."@,
            )
            &&& a5 == ActionView::Perform(RequestView::StreamIsRecord { stream_id })
            &&& is_pulled(s0)
            &&& s5 == SessionModel {
                session_type: s0.session_type,
                unpacketizer_session_type: s0.unpacketizer_session_type,
                tasks: if name is Some {
                    seq![StepView::Subscribe(stream_name), StepView::EnterPlay]
                } else {
                    seq![StepView::Halt]
                },
                ..session
            }
            &&& if name is None {
                &&& a6 == ActionView::Halt
                &&& tells_nothing(session, s6)
                &&& s6.state == session.state
            } else if outside(6).accepts_step {
                &&& a6 == (ActionView::AwaitConsumer { reply: outside(6).consumer.1 })
                &&& s6.events == session.events.push(
                    subscribe_event(named, outside(6).consumer.0),
                )
                &&& s6.offered == session.offered.push(
                    subscribe_event(named, outside(6).consumer.0),
                )
                &&& s6.state == session.state
                &&& s7.state == ServerSessionState::Play
                &&& s7.app_name == session.app_name
                &&& s7.stream_name == stream_name
                &&& tells_nothing(s6, s7)
                &&& is_pulled(s7)
                &&& s7.consumer == (match answer {
                    Some(consumer) => consumer,
                    None => session.consumer,
                })
            } else {
                &&& a6 == ActionView::Fail(failure(SessionErrorValue::ChannelEventSendErr))
                &&& s6.events == session.events
                &&& s6.offered == session.offered.push(
                    subscribe_event(named, outside(6).consumer.0),
                )
                &&& s6.state == session.state
            }
        }),
{
    lemma_commands_differ();
    let name = play_name(message->others@);
    let stream_name = name->Some_0;
    let steps = play_steps(transaction_of(message), session.msg_stream_id, name);
    assert(steps + session.tasks =~= steps);
    let last = steps.skip(1).skip(1).skip(1).skip(1).skip(1).skip(1);
    if name is Some {
        assert(last =~= seq![StepView::Subscribe(stream_name), StepView::EnterPlay]);
        assert(last.skip(1) =~= seq![StepView::EnterPlay]);
    } else {
        assert(last =~= seq![StepView::Halt]);
    }
    reveal_with_fuel(proceed, 2);
}

/// A `publish` with two strings is answered with two messages, in this order.
/// Not before both are written is the hub told of the stream. If it takes the
/// news, the session waits for the answer at the other end of what it gave the
/// hub, and from then on its media goes where the answer says. If it does not,
/// the session ends.
pub proof fn law_publish_announces_last(
    session: SessionModel,
    message: RtmpMessageData,
    publisher: ChannelDataPublisher,
    outside: spec_fn(int) -> Outside,
)
    requires
        session.tasks.len() == 0,
        is_command(message, "publish"@),
        message->others@.len() >= 2,
        message->others@[0] is UTF8String,
        message->others@[1] is UTF8String,
    ensures
        ({
            let stream_name = text_of(message->others@[0]);
            let named = SessionModel { stream_name, ..session };
            let (s0, a0) = transition(session, SessionEvent::Message(message), outside(0));
            let (s1, a1) = done(s0, outside(1));
            let (s2, a2) = done(s1, outside(2));
            let (s3, a3) = transition(s2, SessionEvent::Publisher(Some(publisher)), outside(3));
            let (s4, a4) = transition(s2, SessionEvent::Publisher(None), outside(3));
            &&& a0 == ActionView::Perform(
                RequestView::StreamBegin { stream_id: session.msg_stream_id },
            )
            &&& a1 == writes_status(message, "NetStream.Publish.Start"@, ""@)
            &&& is_pushed(s0)
            &&& s1 == SessionModel {
                stream_name,
                session_type: s0.session_type,
                unpacketizer_session_type: s0.unpacketizer_session_type,
                tasks: seq![StepView::Publish],
                ..session
            }
            &&& if outside(2).accepts_step {
                &&& a2 == (ActionView::AwaitPublisher { reply: outside(2).publisher.1 })
                &&& s2.events == session.events.push(
                    publish_event(named, outside(2).publisher.0),
                )
                &&& s2.offered == session.offered.push(
                    publish_event(named, outside(2).publisher.0),
                )
                &&& s3.published == accepted_data(publisher)
                &&& s3.hears == hearers(publisher)
                &&& s3.cut_off == cut_off(publisher)
                &&& s4.published == session.published
                &&& s4.hears == session.hears
                &&& s4.cut_off == session.cut_off
                &&& tells_nothing(s2, s3)
                &&& s3.stream_name == stream_name
                &&& s3.app_name == session.app_name
            } else {
                &&& a2 == ActionView::Fail(failure(SessionErrorValue::ChannelEventSendErr))
                &&& s2.events == session.events
                &&& s2.offered == session.offered.push(
                    publish_event(named, outside(2).publisher.0),
                )
            }
        }),
{
    lemma_commands_differ();
    let steps = publish_steps(transaction_of(message), session.msg_stream_id);
    assert(steps + session.tasks =~= steps);
    assert(steps.skip(1).skip(1) =~= seq![StepView::Publish]);
}

/// A `publish` that does not begin with two strings ends the session at once.
pub proof fn law_malformed_publish_ends_the_session(
    session: SessionModel,
    message: RtmpMessageData,
    outside: Outside,
)
    requires
        is_command(message, "publish"@),
        message->others@.len() < 2 || !(message->others@[0] is UTF8String) || !(
        message->others@[1] is UTF8String),
    ensures
        ({
            let (after, action) = transition(session, SessionEvent::Message(message), outside);
            &&& action == ActionView::Fail(failure(SessionErrorValue::Amf0ValueCountNotCorrect))
            &&& tells_nothing(session, after)
            &&& after.published == session.published
        }),
{
    lemma_commands_differ();
}

/// A `deleteStream` with a value tells the hub of the end of the session's
/// stream, and tells the peer after that. If the hub does not take the news,
/// the session ends and the peer is told nothing. Nothing else changes.
pub proof fn law_delete_stream_unpublishes_first(
    session: SessionModel,
    message: RtmpMessageData,
    outside: Outside,
)
    requires
        session.tasks.len() == 0,
        is_command(message, "deleteStream"@),
        message->others@.len() > 0,
    ensures
        ({
            let (after, action) = transition(session, SessionEvent::Message(message), outside);
            &&& after == notify(session, unpublish_event(session), outside.accepts_message)
            &&& action == (if outside.accepts_message {
                writes_status(message, "NetStream.DeleteStream.Suceess"@, ""@)
            } else {
                ActionView::Fail(failure(SessionErrorValue::ChannelEventSendErr))
            })
        }),
{
    lemma_commands_differ();
    let steps = delete_stream_steps(transaction_of(message));
    assert(steps + session.tasks =~= steps);
    assert(steps.skip(1) =~= session.tasks);
}

/// A `deleteStream` without a value is ignored.
pub proof fn law_empty_delete_stream_is_ignored(
    session: SessionModel,
    message: RtmpMessageData,
    outside: Outside,
)
    requires
        is_command(message, "deleteStream"@),
        message->others@.len() == 0,
    ensures
        transition(session, SessionEvent::Message(message), outside) == proceed(session, outside),
{
    lemma_commands_differ();
    assert(Seq::<StepView>::empty() + session.tasks =~= session.tasks);
}

/// Whether an event brings a command that names an application or a stream.
pub open spec fn brings_name(event: SessionEvent) -> bool {
    event matches SessionEvent::Message(message) && (is_command(message, "connect"@)
        || is_command(message, "play"@) || is_command(message, "publish"@))
}

/// Whether no step is left in which a session takes a name.
pub open spec fn keeps_names(session: SessionModel) -> bool {
    forall|i: int|
        0 <= i < session.tasks.len() ==> !(#[trigger] session.tasks[i] is AcceptApp) && !(
        session.tasks[i] is Subscribe)
}

/// Whether two sessions have the same names.
pub open spec fn same_names(session: SessionModel, other: SessionModel) -> bool {
    &&& session.app_name == other.app_name
    &&& session.stream_name == other.stream_name
    &&& session.session_id == other.session_id
}

proof fn lemma_proceed_keeps_names(session: SessionModel, outside: Outside)
    requires
        keeps_names(session),
    ensures
        same_names(proceed(session, outside).0, session),
        keeps_names(proceed(session, outside).0),
    decreases session.tasks.len(),
{
    if session.tasks.len() > 0 {
        let rest = SessionModel { tasks: session.tasks.skip(1), ..session };
        assert forall|i: int| 0 <= i < rest.tasks.len() implies !(
        #[trigger] rest.tasks[i] is AcceptApp) && !(rest.tasks[i] is Subscribe) by {
            assert(rest.tasks[i] == session.tasks[i + 1]);
        }
        assert(!(session.tasks[0] is AcceptApp) && !(session.tasks[0] is Subscribe));
        if session.tasks[0] is EnterPlay {
            lemma_proceed_keeps_names(
                SessionModel { state: ServerSessionState::Play, ..rest },
                outside,
            );
        }
    }
}

/// A session keeps its names as long as no `connect`, no `play` and no `publish`
/// comes and none is being acted on.
pub proof fn law_names_come_from_commands(
    session: SessionModel,
    event: SessionEvent,
    outside: Outside,
)
    requires
        keeps_names(session),
        !brings_name(event),
    ensures
        same_names(transition(session, event, outside).0, session),
        keeps_names(transition(session, event, outside).0),
{
    match event {
        SessionEvent::HandshakeStep { finished, remaining } => {
            lemma_proceed_keeps_names(session, outside);
            lemma_proceed_keeps_names(
                SessionModel { state: ServerSessionState::ReadChunk, ..session },
                outside,
            );
        },
        SessionEvent::Chunks(chunks) => {
            lemma_proceed_keeps_names(
                SessionModel { chunks: session.chunks + chunk_views(chunks@), ..session },
                outside,
            );
        },
        SessionEvent::ChunksEnd => {
            lemma_proceed_keeps_names(SessionModel { reading: false, ..session }, outside);
        },
        SessionEvent::Message(message) => {
            lemma_commands_differ();
            let (after, steps) = message_outcome(
                session,
                message,
                session.msg_stream_id,
                session.timestamp,
                outside.accepts_message,
            );
            if steps is Ok {
                let next = SessionModel { tasks: steps->Ok_0 + after.tasks, ..after };
                assert forall|i: int| 0 <= i < next.tasks.len() implies !(
                #[trigger] next.tasks[i] is AcceptApp) && !(next.tasks[i] is Subscribe) by {
                    if i >= steps->Ok_0.len() {
                        assert(next.tasks[i] == session.tasks[i - steps->Ok_0.len()]);
                    }
                }
                lemma_proceed_keeps_names(next, outside);
            }
        },
        SessionEvent::Publisher(Some(publisher)) => {
            lemma_proceed_keeps_names(
                with_publisher(session, publisher),
                outside,
            );
        },
        SessionEvent::Consumer(Some(consumer)) => {
            lemma_proceed_keeps_names(with_consumer(session, consumer), outside);
        },
        _ => {
            lemma_proceed_keeps_names(session, outside);
        },
    }
}

/// The names of a session over a series of reports.
proof fn lemma_names_through(
    session: SessionModel,
    action: ActionView,
    reports: Seq<(SessionEvent, Outside)>,
)
    requires
        keeps_names(session),
        forall|i: int| 0 <= i < reports.len() ==> !brings_name((#[trigger] reports[i]).0),
    ensures
        same_names(after_reports(session, action, reports).0, session),
        keeps_names(after_reports(session, action, reports).0),
    decreases reports.len(),
{
    if reports.len() > 0 {
        let earlier = reports.drop_last();
        assert forall|i: int| 0 <= i < earlier.len() implies !brings_name(
            (#[trigger] earlier[i]).0,
        ) by {
            assert(earlier[i] == reports[i]);
        }
        lemma_names_through(session, action, earlier);
        assert(reports[reports.len() - 1] == reports.last());
        law_names_come_from_commands(
            after_reports(session, action, earlier).0,
            reports.last().0,
            reports.last().1,
        );
    }
}

/// The end of a stream is sent to the hub once, under the names under which the
/// stream was announced, whatever comes in between but a `connect`, a `play` or
/// a `publish`. Whether the hub takes it decides whether the session goes on, and
/// nothing else in the session changes.
pub proof fn law_unpublish_matches_publish(
    announced: SessionModel,
    action: ActionView,
    reports: Seq<(SessionEvent, Outside)>,
    message: RtmpMessageData,
    publish: Outside,
    unpublish: Outside,
)
    requires
        awaits(announced, action),
        keeps_names(announced),
        all_report(announced, action, reports),
        forall|i: int| 0 <= i < reports.len() ==> !brings_name((#[trigger] reports[i]).0),
        after_reports(announced, action, reports).1 is ParseMessage,
        is_command(message, "deleteStream"@),
        message->others@.len() > 0,
    ensures
        ({
            let before = after_reports(announced, action, reports).0;
            let (after, next) = transition(before, SessionEvent::Message(message), unpublish);
            &&& after == notify(before, unpublish_event(before), unpublish.accepts_message)
            &&& after.offered == before.offered.push(unpublish_event(before))
            &&& !unpublish.accepts_message <==> next == ActionView::Fail(
                failure(SessionErrorValue::ChannelEventSendErr),
            )
            &&& event_names(unpublish_event(before)) == event_names(
                publish_event(announced, publish.publisher.0),
            )
        }),
{
    lemma_names_through(announced, action, reports);
    lemma_awaits_through(announced, action, reports);
    let before = after_reports(announced, action, reports).0;
    law_delete_stream_unpublishes_first(before, message, unpublish);
}

/// A session that fails while it plays sends the hub one event about it, under
/// the names and the number under which it asked the hub for the stream, whatever
/// comes in between but a `connect`, a `play` or a `publish`. Whether the hub takes
/// it changes nothing else, and not how the session ends.
pub proof fn law_unsubscribe_matches_subscribe(
    subscribed: SessionModel,
    action: ActionView,
    reports: Seq<(SessionEvent, Outside)>,
    subscribe: Outside,
    unsubscribe: Outside,
)
    requires
        keeps_names(subscribed),
        forall|i: int| 0 <= i < reports.len() ==> !brings_name((#[trigger] reports[i]).0),
        is_playing(after_reports(subscribed, action, reports).0),
    ensures
        ({
            let before = after_reports(subscribed, action, reports).0;
            let (after, next) = transition(before, SessionEvent::Failed, unsubscribe);
            let asked = subscribe_event(subscribed, subscribe.consumer.0);
            &&& next == ActionView::GiveUp
            &&& after == notify(before, unsubscribe_event(before), unsubscribe.accepts_message)
            &&& after.offered == before.offered.push(unsubscribe_event(before))
            &&& event_names(unsubscribe_event(before)) == event_names(asked)
            &&& unsubscribe_event(before)->UnSubscribe_session_id == asked->Subscribe_session_id
        }),
{
    lemma_names_through(subscribed, action, reports);
}

/// However long a session plays, it stays as it is, and when a write fails the
/// one thing that it does is to send the hub the event that it no longer listens.
pub proof fn law_playing_changes_nothing(
    session: SessionModel,
    action: ActionView,
    reports: Seq<(SessionEvent, Outside)>,
    outside: Outside,
)
    requires
        is_playing(session),
        awaits(session, action),
        all_report(session, action, reports),
        forall|i: int| 0 <= i < reports.len() ==> !((#[trigger] reports[i]).0 is Failed),
    ensures
        ({
            let (playing, asked) = after_reports(session, action, reports);
            let (after, next) = transition(playing, SessionEvent::Failed, outside);
            &&& playing == session
            &&& next == ActionView::GiveUp
            &&& after == notify(session, unsubscribe_event(session), outside.accepts_message)
            &&& after.offered == session.offered.push(unsubscribe_event(session))
        }),
    decreases reports.len(),
{
    if reports.len() > 0 {
        let earlier = reports.drop_last();
        assert forall|i: int| 0 <= i < earlier.len() implies !((#[trigger] earlier[i]).0 is Failed)
            by {
            assert(earlier[i] == reports[i]);
        }
        law_playing_changes_nothing(session, action, earlier, outside);
        let (before, asked) = after_reports(session, action, earlier);
        lemma_awaits_through(session, action, earlier);
        assert(reports[reports.len() - 1] == reports.last());
        law_playing_only_writes(before, asked, reports.last().0, reports.last().1);
    }
}

/// Soundness over a series of reports.
proof fn lemma_awaits_through(
    session: SessionModel,
    action: ActionView,
    reports: Seq<(SessionEvent, Outside)>,
)
    requires
        awaits(session, action),
        all_report(session, action, reports),
    ensures
        ({
            let (after, asked) = after_reports(session, action, reports);
            awaits(after, asked)
        }),
    decreases reports.len(),
{
    if reports.len() > 0 {
        let earlier = reports.drop_last();
        lemma_awaits_through(session, action, earlier);
        let (before, asked) = after_reports(session, action, earlier);
        lemma_transition(before, asked, reports.last().0, reports.last().1);
    }
}

/// Whether `step` can be one of those that `message` makes a session take: only a
/// `connect` gives an application its name, and only a `play` that names a stream
/// makes a session subscribe and play.
pub open spec fn may_follow(message: RtmpMessageData, step: StepView) -> bool {
    match step {
        StepView::AcceptApp(_) => is_command(message, "connect"@),
        StepView::Subscribe(_) => names_played(message),
        StepView::EnterPlay => names_played(message),
        _ => true,
    }
}

/// Whether `message` is a `play` that names a stream.
pub open spec fn names_played(message: RtmpMessageData) -> bool {
    is_command(message, "play"@) && play_name(message->others@) is Some
}

/// How far acting on `message` can have changed a session: it begins to play only
/// for a `play` that names a stream, its application changes only for a
/// `connect`, its stream only for a `play` or a `publish`, and so does its type.
/// Its number, its settings and what is left of the handshake do not change.
pub open spec fn within(
    before: SessionModel,
    message: RtmpMessageData,
    after: SessionModel,
) -> bool {
    let play_or_publish = is_command(message, "play"@) || is_command(message, "publish"@);
    &&& after.state != before.state ==> after.state == ServerSessionState::Play && names_played(
        message,
    )
    &&& after.app_name != before.app_name ==> is_command(message, "connect"@)
    &&& after.stream_name != before.stream_name ==> play_or_publish
    &&& after.session_type != before.session_type ==> play_or_publish
    &&& after.unpacketizer_session_type != before.unpacketizer_session_type ==> play_or_publish
    &&& after.session_id == before.session_id
    &&& after.settings == before.settings
    &&& after.need_process == before.need_process
}

/// Whether all steps that are left can be ones that `message` makes a session take.
pub open spec fn acts_on(session: SessionModel, message: RtmpMessageData) -> bool {
    forall|i: int|
        0 <= i < session.tasks.len() ==> may_follow(message, #[trigger] session.tasks[i])
}

/// A message by itself changes no more of a session than [`within`] allows, does
/// not make it play, and is followed only by steps that belong to it. One that is
/// refused is followed by none.
pub proof fn law_message_changes_its_own(
    session: SessionModel,
    message: RtmpMessageData,
    msg_stream_id: u32,
    timestamp: u32,
    accepted: bool,
)
    ensures
        ({
            let (after, steps) = message_outcome(
                session,
                message,
                msg_stream_id,
                timestamp,
                accepted,
            );
            &&& within(session, message, after)
            &&& after.state == session.state
            &&& after.app_name == session.app_name
            &&& after.tasks == session.tasks
            &&& steps matches Ok(steps) ==> forall|i: int|
                0 <= i < steps.len() ==> may_follow(message, #[trigger] steps[i])
        }),
{
    lemma_commands_differ();
}

proof fn lemma_proceed_within(
    before: SessionModel,
    message: RtmpMessageData,
    session: SessionModel,
    outside: Outside,
)
    requires
        within(before, message, session),
        acts_on(session, message),
        !session.need_process,
    ensures
        within(before, message, proceed(session, outside).0),
        acts_on(proceed(session, outside).0, message),
    decreases session.tasks.len(),
{
    if session.tasks.len() > 0 {
        let rest = SessionModel { tasks: session.tasks.skip(1), ..session };
        assert forall|i: int| 0 <= i < rest.tasks.len() implies may_follow(
            message,
            #[trigger] rest.tasks[i],
        ) by {
            assert(rest.tasks[i] == session.tasks[i + 1]);
        }
        assert(may_follow(message, session.tasks[0]));
        match session.tasks[0] {
            StepView::AcceptApp(app_name) => {
                lemma_proceed_within(
                    before,
                    message,
                    SessionModel { app_name, ..rest },
                    outside,
                );
            },
            StepView::EnterPlay => {
                lemma_proceed_within(
                    before,
                    message,
                    SessionModel { state: ServerSessionState::Play, ..rest },
                    outside,
                );
            },
            _ => {},
        }
    }
}

/// From when a message comes until the next one does, whatever is reported in
/// between, a session changes no more than [`within`] allows for the message.
pub proof fn law_session_changes_by_its_messages(
    session: SessionModel,
    action: ActionView,
    message: RtmpMessageData,
    outside: Outside,
    reports: Seq<(SessionEvent, Outside)>,
)
    requires
        action is ParseMessage,
        awaits(session, action),
        ({
            let (acted, next) = transition(session, SessionEvent::Message(message), outside);
            all_report(acted, next, reports)
        }),
        forall|i: int| 0 <= i < reports.len() ==> !((#[trigger] reports[i]).0 is Message),
    ensures
        ({
            let (acted, next) = transition(session, SessionEvent::Message(message), outside);
            let after = after_reports(acted, next, reports).0;
            within(session, message, after) && acts_on(after, message)
        }),
    decreases reports.len(),
{
    let (acted, next) = transition(session, SessionEvent::Message(message), outside);
    lemma_transition(session, action, SessionEvent::Message(message), outside);
    if reports.len() == 0 {
        law_message_changes_its_own(
            session,
            message,
            session.msg_stream_id,
            session.timestamp,
            outside.accepts_message,
        );
        let (after, steps) = message_outcome(
            session,
            message,
            session.msg_stream_id,
            session.timestamp,
            outside.accepts_message,
        );
        if steps is Ok {
            assert(steps->Ok_0 + after.tasks =~= steps->Ok_0);
            lemma_proceed_within(
                session,
                message,
                SessionModel { tasks: steps->Ok_0 + after.tasks, ..after },
                outside,
            );
        }
    } else {
        let earlier = reports.drop_last();
        assert forall|i: int| 0 <= i < earlier.len() implies !(
        (#[trigger] earlier[i]).0 is Message) by {
            assert(earlier[i] == reports[i]);
        }
        law_session_changes_by_its_messages(session, action, message, outside, earlier);
        lemma_awaits_through(acted, next, earlier);
        let (before, asked) = after_reports(acted, next, earlier);
        let event = reports.last().0;
        let then = reports.last().1;
        assert(reports[reports.len() - 1] == reports.last());
        match event {
            SessionEvent::Chunks(chunks) => {
                lemma_proceed_within(
                    session,
                    message,
                    SessionModel { chunks: before.chunks + chunk_views(chunks@), ..before },
                    then,
                );
            },
            SessionEvent::ChunksEnd => {
                lemma_proceed_within(
                    session,
                    message,
                    SessionModel { reading: false, ..before },
                    then,
                );
            },
            SessionEvent::Publisher(Some(publisher)) => {
                lemma_proceed_within(session, message, with_publisher(before, publisher), then);
            },
            SessionEvent::Consumer(Some(consumer)) => {
                lemma_proceed_within(
                    session,
                    message,
                    with_consumer(before, consumer),
                    then,
                );
            },
            _ => {
                lemma_proceed_within(session, message, before, then);
            },
        }
    }
}

} // verus!
