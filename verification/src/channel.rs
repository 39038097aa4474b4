//! The hand-off channel between the writer and the HTTP client.
//!
//! The channel is a bounded `futures` channel with no buffer slots of its own:
//! its sending end is kept by the writer and its receiving end becomes the body
//! of the request. The channel is not verified. What this module assumes of it
//! is written on the functions marked `external_body`, each of which makes
//! exactly one call into the channel.

use bytes::Bytes;
use futures::channel::mpsc::{Receiver, SendError, Sender};
use futures::{Sink, StreamExt};
use hyper::Body;
use std::pin::Pin;
use std::task::{Context, Poll};
use vstd::prelude::*;

use crate::progress::Progress;

verus! {

#[verifier::external_type_specification]
#[verifier::external_body]
pub struct ExBytes(Bytes);

#[verifier::external_type_specification]
#[verifier::external_body]
#[verifier::reject_recursive_types(T)]
pub struct ExSender<T>(Sender<T>);

#[verifier::external_type_specification]
#[verifier::external_body]
#[verifier::reject_recursive_types(T)]
pub struct ExReceiver<T>(Receiver<T>);

#[verifier::external_type_specification]
#[verifier::external_body]
pub struct ExSendError(SendError);

#[verifier::external_type_specification]
#[verifier::external_body]
pub struct ExBody(Body);

#[verifier::external_type_specification]
#[verifier::external_body]
pub struct ExContext<'a>(Context<'a>);

/// The chunks the channel has taken from this sender so far, oldest first.
///
/// The channel is a first-in first-out queue, so this is also the order in
/// which the receiving end yields them.
pub uninterp spec fn accepted(tx: Sender<Bytes>) -> Seq<Seq<u8>>;

/// All the bytes of `chunks`, in order: what a reader of the stream sees when
/// it ignores where one chunk ends and the next begins.
pub open spec fn stream_bytes(chunks: Seq<Seq<u8>>) -> Seq<u8>
    decreases chunks.len(),
{
    if chunks.len() == 0 {
        Seq::empty()
    } else {
        stream_bytes(chunks.drop_last()) + chunks.last()
    }
}

/// `futures::channel::mpsc::channel`: a new channel with `buffer` shared
/// slots. The call panics when `buffer` is not below a quarter of the largest
/// `usize`. Assumed: the new sender has been given nothing yet.
#[verifier::external_body]
pub(crate) fn bounded_channel(buffer: usize) -> (ends: (Sender<Bytes>, Receiver<Bytes>))
    requires
        buffer < usize::MAX / 4,
    ensures
        accepted(ends.0) == Seq::<Seq<u8>>::empty(),
{
    futures::channel::mpsc::channel(buffer)
}

/// `hyper::Body::wrap_stream`, on the receiving end with every chunk marked
/// as a successful item. Nothing is assumed of the body.
#[verifier::external_body]
pub(crate) fn body_of_receiver(rx: Receiver<Bytes>) -> Body {
    Body::wrap_stream(rx.map(Ok::<Bytes, std::io::Error>))
}

/// `Sender::poll_ready`: asks whether the channel can take one more chunk.
/// Assumed: asking hands the channel nothing.
#[verifier::external_body]
pub(crate) fn sender_poll_ready(tx: &mut Sender<Bytes>, cx: &mut Context<'_>) -> (p: Progress<
    Result<(), SendError>,
>)
    ensures
        accepted(*final(tx)) == accepted(*old(tx)),
{
    match tx.poll_ready(cx) {
        Poll::Pending => Progress::Pending,
        Poll::Ready(r) => Progress::Ready(r),
    }
}

/// `Sender::start_send`, on `chunk` turned into `Bytes`. Assumed: when the
/// call succeeds the channel has queued the chunk behind those it took
/// before, and when it fails the channel has taken nothing.
#[verifier::external_body]
pub(crate) fn sender_start_send(tx: &mut Sender<Bytes>, chunk: Vec<u8>) -> (r: Result<
    (),
    SendError,
>)
    ensures
        r is Ok ==> accepted(*final(tx)) == accepted(*old(tx)).push(chunk@),
        r is Err ==> accepted(*final(tx)) == accepted(*old(tx)),
{
    tx.start_send(Bytes::from(chunk))
}

/// `Sink::poll_flush` of the sender. Assumed: flushing hands the channel
/// nothing.
#[verifier::external_body]
pub(crate) fn sender_poll_flush(tx: &mut Sender<Bytes>, cx: &mut Context<'_>) -> (p: Progress<
    Result<(), SendError>,
>)
    ensures
        accepted(*final(tx)) == accepted(*old(tx)),
{
    match Pin::new(tx).poll_flush(cx) {
        Poll::Pending => Progress::Pending,
        Poll::Ready(r) => Progress::Ready(r),
    }
}

/// `Sink::poll_close` of the sender, which ends the stream on the receiving
/// side. Assumed: closing hands the channel nothing.
#[verifier::external_body]
pub(crate) fn sender_poll_close(tx: &mut Sender<Bytes>, cx: &mut Context<'_>) -> (p: Progress<
    Result<(), SendError>,
>)
    ensures
        accepted(*final(tx)) == accepted(*old(tx)),
{
    match Pin::new(tx).poll_close(cx) {
        Poll::Pending => Progress::Pending,
        Poll::Ready(r) => Progress::Ready(r),
    }
}

/// Creates the channel of one upload: the sender for the writer, and the
/// request body that yields what the sender is given.
///
/// The channel has no buffer slots: the sender may run one chunk ahead of the
/// reader of the body and no further, which is what holds a write back until
/// the client has taken what was written before.
pub fn new_http_channel() -> (ends: (Sender<Bytes>, Body))
    ensures
        accepted(ends.0) == Seq::<Seq<u8>>::empty(),
{
    let (tx, rx) = bounded_channel(0);
    (tx, body_of_receiver(rx))
}

} // verus!
