use crate::buffer::bytes_of;
use bytes::BytesMut;
use tokio::sync::mpsc;
use tokio::sync::oneshot;
use vstd::prelude::*;

verus! {

/// Makes `tokio::sync::mpsc::UnboundedSender` known.
#[verifier::external_type_specification]
#[verifier::external_body]
#[verifier::reject_recursive_types(T)]
pub struct ExUnboundedSender<T>(tokio::sync::mpsc::UnboundedSender<T>);

/// Makes `tokio::sync::mpsc::UnboundedReceiver` known.
#[verifier::external_type_specification]
#[verifier::external_body]
#[verifier::reject_recursive_types(T)]
pub struct ExUnboundedReceiver<T>(tokio::sync::mpsc::UnboundedReceiver<T>);

/// Makes `tokio::sync::mpsc::error::SendError` known.
#[verifier::external_type_specification]
#[verifier::external_body]
#[verifier::reject_recursive_types(T)]
pub struct ExSendError<T>(tokio::sync::mpsc::error::SendError<T>);

/// Makes `tokio::sync::oneshot::Sender` known.
#[verifier::external_type_specification]
#[verifier::external_body]
#[verifier::reject_recursive_types(T)]
pub struct ExOneshotSender<T>(tokio::sync::oneshot::Sender<T>);

/// Makes `tokio::sync::oneshot::Receiver` known.
#[verifier::external_type_specification]
#[verifier::external_body]
#[verifier::reject_recursive_types(T)]
pub struct ExOneshotReceiver<T>(tokio::sync::oneshot::Receiver<T>);

/// Makes `tokio::sync::oneshot::error::RecvError` known, which is what waiting
/// on a `Receiver` fails with.
#[verifier::external_type_specification]
#[verifier::external_body]
pub struct ExRecvError(tokio::sync::oneshot::error::RecvError);

/// The end of a data channel that a publishing session writes to.
pub type ChannelDataPublisher = mpsc::UnboundedSender<ChannelData>;

/// The end of a data channel that a playing session reads from.
pub type ChannelDataConsumer = mpsc::UnboundedReceiver<ChannelData>;

/// The end of the event channel that sessions write to.
pub type ChannelEventPublisher = mpsc::UnboundedSender<ChannelEvent>;

/// One unit of media on its way from a publishing session to playing ones.
pub enum ChannelData {
    Video { timestamp: u32, data: BytesMut },
    Audio { timestamp: u32, data: BytesMut },
    MetaData { body: BytesMut },
}

/// What a [`ChannelData`] says: its kind, its timestamp and its bytes.
pub enum ChannelDataView {
    Video { timestamp: u32, data: Seq<u8> },
    Audio { timestamp: u32, data: Seq<u8> },
    MetaData { body: Seq<u8> },
}

impl View for ChannelData {
    type V = ChannelDataView;

    open spec fn view(&self) -> ChannelDataView {
        match *self {
            ChannelData::Video { timestamp, data } => ChannelDataView::Video {
                timestamp,
                data: bytes_of(data),
            },
            ChannelData::Audio { timestamp, data } => ChannelDataView::Audio {
                timestamp,
                data: bytes_of(data),
            },
            ChannelData::MetaData { body } => ChannelDataView::MetaData { body: bytes_of(body) },
        }
    }
}

/// What a session tells the hub that connects publishers with players. The
/// hub answers a `Subscribe` or a `Publish` through its `responder`.
#[allow(inconsistent_fields)]
pub enum ChannelEvent {
    Subscribe {
        app_name: String,
        stream_name: String,
        session_id: u64,
        responder: oneshot::Sender<ChannelDataConsumer>,
    },
    UnSubscribe { app_name: String, stream_name: String, session_id: u64 },
    Publish {
        app_name: String,
        stream_name: String,
        responder: oneshot::Sender<ChannelDataPublisher>,
    },
    UnPublish { app_name: String, stream_name: String },
}

/// What a [`ChannelEvent`] says, with its names as characters.
#[allow(inconsistent_fields)]
pub enum ChannelEventView {
    Subscribe {
        app_name: Seq<char>,
        stream_name: Seq<char>,
        session_id: u64,
        responder: oneshot::Sender<ChannelDataConsumer>,
    },
    UnSubscribe { app_name: Seq<char>, stream_name: Seq<char>, session_id: u64 },
    Publish {
        app_name: Seq<char>,
        stream_name: Seq<char>,
        responder: oneshot::Sender<ChannelDataPublisher>,
    },
    UnPublish { app_name: Seq<char>, stream_name: Seq<char> },
}

impl View for ChannelEvent {
    type V = ChannelEventView;

    open spec fn view(&self) -> ChannelEventView {
        match *self {
            ChannelEvent::Subscribe { app_name, stream_name, session_id, responder } =>
                ChannelEventView::Subscribe {
                    app_name: app_name@,
                    stream_name: stream_name@,
                    session_id,
                    responder,
                },
            ChannelEvent::UnSubscribe { app_name, stream_name, session_id } =>
                ChannelEventView::UnSubscribe {
                    app_name: app_name@,
                    stream_name: stream_name@,
                    session_id,
                },
            ChannelEvent::Publish { app_name, stream_name, responder } =>
                ChannelEventView::Publish {
                    app_name: app_name@,
                    stream_name: stream_name@,
                    responder,
                },
            ChannelEvent::UnPublish { app_name, stream_name } => ChannelEventView::UnPublish {
                app_name: app_name@,
                stream_name: stream_name@,
            },
        }
    }
}

/// What one sending handle has had accepted by its data channel, oldest first.
pub uninterp spec fn accepted_data(publisher: ChannelDataPublisher) -> Seq<ChannelDataView>;

/// That `consumer` is the receiving end of the channel that `publisher` sends
/// into, and has not been closed.
pub uninterp spec fn listens(
    consumer: ChannelDataConsumer,
    publisher: ChannelDataPublisher,
) -> bool;

/// That the receiving end of a handle's data channel has been dropped by the
/// handle's owner, who held both. A channel has one receiving end, so none is left.
pub uninterp spec fn cut_off(publisher: ChannelDataPublisher) -> bool;

/// What one sending handle has had accepted by the event channel, oldest first.
pub uninterp spec fn accepted_events(publisher: ChannelEventPublisher) -> Seq<ChannelEventView>;

/// What one sending handle has been asked to send into the event channel, oldest
/// first, whether the channel took it or not.
pub uninterp spec fn offered_events(publisher: ChannelEventPublisher) -> Seq<ChannelEventView>;

/// That what is sent through `responder` arrives at `reply`.
pub uninterp spec fn publisher_reply(
    responder: oneshot::Sender<ChannelDataPublisher>,
    reply: oneshot::Receiver<ChannelDataPublisher>,
) -> bool;

/// That what is sent through `responder` arrives at `reply`.
pub uninterp spec fn consumer_reply(
    responder: oneshot::Sender<ChannelDataConsumer>,
    reply: oneshot::Receiver<ChannelDataConsumer>,
) -> bool;

/// `tokio::sync::mpsc::unbounded_channel`: the two ends of a new channel, through
/// whose sending handle nothing has been sent yet.
#[verifier::external_body]
pub(crate) fn new_data_channel() -> (ends: (ChannelDataPublisher, ChannelDataConsumer))
    ensures
        accepted_data(ends.0) == Seq::<ChannelDataView>::empty(),
        listens(ends.1, ends.0),
        !cut_off(ends.0),
{
    mpsc::unbounded_channel()
}

/// `tokio::sync::mpsc::UnboundedSender::send` on a data channel. `Ok` says that
/// the channel took the message behind those that it took before, `Err` that it
/// took nothing. The channel takes the message while its receiving end is open,
/// so `Ok` is certain where the caller holds that end, and `Err` is certain once
/// that end has been given up. Otherwise which of the two comes back rests on
/// whether the receiving end still listens, and nothing is said of it. A handle
/// keeps its receiving end, and sending closes none.
#[allow(unused_variables)]
#[verifier::external_body]
pub(crate) fn send_data(
    publisher: &mut ChannelDataPublisher,
    held: &ChannelDataConsumer,
    message: ChannelData,
) -> (sent: Result<(), mpsc::error::SendError<ChannelData>>)
    ensures
        accepted_data(*final(publisher)) == (if sent is Ok {
            accepted_data(*old(publisher)).push(message@)
        } else {
            accepted_data(*old(publisher))
        }),
        listens(*held, *old(publisher)) ==> sent is Ok,
        cut_off(*old(publisher)) ==> sent is Err,
        cut_off(*final(publisher)) == cut_off(*old(publisher)),
        forall|consumer: ChannelDataConsumer|
            listens(consumer, *final(publisher)) == #[trigger] listens(consumer, *old(publisher)),
{
    publisher.send(message)
}

/// The drop of a `tokio::sync::mpsc::UnboundedReceiver`, which closes its channel
/// for good. Where that is the channel that `publisher` sends into, `publisher` has
/// no receiving end any more. Otherwise nothing changes for `publisher`. What it has
/// had accepted before stays accepted.
#[allow(unused_variables)]
#[verifier::external_body]
pub(crate) fn drop_consumer(publisher: &mut ChannelDataPublisher, held: ChannelDataConsumer)
    ensures
        accepted_data(*final(publisher)) == accepted_data(*old(publisher)),
        cut_off(*final(publisher)) == (cut_off(*old(publisher)) || listens(
            held,
            *old(publisher),
        )),
        forall|consumer: ChannelDataConsumer| #[trigger]
            listens(consumer, *final(publisher)) == (listens(consumer, *old(publisher))
                && !listens(held, *old(publisher))),
{
    std::mem::drop(held)
}

/// `tokio::sync::mpsc::UnboundedSender::send` on the event channel. Either way
/// the handle has been asked to send the message. `Ok` says that the channel
/// took it behind those that it took before, `Err` that it took nothing. Which of
/// the two comes back rests on whether the receiving end still listens, so nothing
/// is said of it.
#[verifier::external_body]
pub(crate) fn send_event(
    publisher: &mut ChannelEventPublisher,
    message: ChannelEvent,
) -> (sent: Result<(), mpsc::error::SendError<ChannelEvent>>)
    ensures
        accepted_events(*final(publisher)) == (if sent is Ok {
            accepted_events(*old(publisher)).push(message@)
        } else {
            accepted_events(*old(publisher))
        }),
        offered_events(*final(publisher)) == offered_events(*old(publisher)).push(message@),
{
    publisher.send(message)
}

/// `tokio::sync::oneshot::channel` for the answer to a `Publish`: two ends of
/// one channel.
#[verifier::external_body]
pub(crate) fn new_publisher_reply() -> (ends: (
    oneshot::Sender<ChannelDataPublisher>,
    oneshot::Receiver<ChannelDataPublisher>,
))
    ensures
        publisher_reply(ends.0, ends.1),
{
    oneshot::channel()
}

/// `tokio::sync::oneshot::channel` for the answer to a `Subscribe`: two ends of
/// one channel.
#[verifier::external_body]
pub(crate) fn new_consumer_reply() -> (ends: (
    oneshot::Sender<ChannelDataConsumer>,
    oneshot::Receiver<ChannelDataConsumer>,
))
    ensures
        consumer_reply(ends.0, ends.1),
{
    oneshot::channel()
}

} // verus!
