//! The writer: write, flush and close on top of the channel, with the pending
//! response watched from the first write to the end of the close.

use bytes::Bytes;
use futures::channel::mpsc::Sender;
use http::Response;
use hyper::client::ResponseFuture;
use hyper::Body;
use std::task::Context;
use vstd::prelude::*;
use vstd::slice::slice_to_vec;

use crate::channel::{
    accepted, sender_poll_close, sender_poll_flush, sender_poll_ready, sender_start_send,
    stream_bytes,
};
use crate::error::{accepted_or_failed, channel_progress, Cause, WriteError};
use crate::op::OpWrite;
use crate::progress::Progress;
use crate::response::{interpret, poll_future, ResponsePoll};

verus! {

/// Where a writer stands in its one upload.
#[derive(Clone, Copy, Debug, PartialEq, Eq, Structural)]
pub enum Phase {
    /// Chunks are being written. Every writer starts here.
    Writing,
    /// The caller has asked to close and the channel has not finished
    /// closing.
    Closing,
    /// The channel is closed, the body has ended, and the response is
    /// awaited.
    AwaitingResponse,
    /// The upload is over, well or badly. Nothing more can be asked of the
    /// writer.
    Done,
}

impl Phase {
    /// The place of the phase in the life of a writer, counted from the
    /// start.
    pub open spec fn rank(self) -> nat {
        match self {
            Phase::Writing => 0,
            Phase::Closing => 1,
            Phase::AwaitingResponse => 2,
            Phase::Done => 3,
        }
    }
}

/// What a writer amounts to: its phase and the chunks the channel has taken
/// from it, oldest first.
pub struct WriterView {
    pub phase: Phase,
    pub sent: Seq<Seq<u8>>,
}

/// Writes the body of one HTTP request chunk by chunk and turns the response
/// into the result of the upload.
///
/// A writer serves one upload. It moves from [`Phase::Writing`] through the
/// close to [`Phase::Done`] and never back.
pub struct HttpBodyWriter<H> {
    op: OpWrite,
    tx: Sender<Bytes>,
    fut: Option<ResponseFuture>,
    handle: H,
    phase: Phase,
}

impl<H> View for HttpBodyWriter<H> {
    type V = WriterView;

    closed spec fn view(&self) -> WriterView {
        WriterView { phase: self.phase, sent: accepted(self.tx) }
    }
}

/// A write of `chunk` that completed: the writer was and stays in
/// [`Phase::Writing`], and the channel has taken the whole chunk, once,
/// behind everything it had taken before.
pub open spec fn write_completed(pre: WriterView, chunk: Seq<u8>, post: WriterView) -> bool {
    &&& pre.phase == Phase::Writing
    &&& post.phase == Phase::Writing
    &&& post.sent == pre.sent.push(chunk)
}

/// What one call of any operation may do to a writer. The writer was not
/// done. Its phase stays or moves on. While it stays in [`Phase::Writing`]
/// the channel takes at most one more chunk, and in every other case it
/// takes nothing.
pub open spec fn step(pre: WriterView, post: WriterView) -> bool {
    &&& pre.phase != Phase::Done
    &&& pre.phase.rank() <= post.phase.rank()
    &&& if pre.phase == Phase::Writing && post.phase == Phase::Writing {
        post.sent == pre.sent || exists|chunk: Seq<u8>| post.sent == #[trigger] pre.sent.push(chunk)
    } else {
        post.sent == pre.sent
    }
}

impl<H: Fn(&OpWrite, Response<Body>) -> Result<(), std::io::Error>> HttpBodyWriter<H> {
    /// The description of the write, as given at construction.
    pub closed spec fn context(&self) -> OpWrite {
        self.op
    }

    /// The response handler, as given at construction.
    pub closed spec fn handler(&self) -> H {
        self.handle
    }

    /// The pending response the writer holds, if it still holds one.
    pub closed spec fn pending_response(&self) -> Option<ResponseFuture> {
        self.fut
    }

    /// The writer still holds the pending response exactly as long as it is
    /// not done, and its handler accepts every response.
    pub closed spec fn wf(&self) -> bool {
        &&& self.fut is Some <==> self.phase != Phase::Done
        &&& forall|op: &OpWrite, resp: Response<Body>| call_requires(self.handle, (op, resp))
    }

    /// Whether `res` can be what the close returns once the response has
    /// resolved: the handler's own answer to some response, seen together
    /// with this writer's context, or a failure of the transport.
    pub open spec fn answers(&self, res: Result<(), WriteError>) -> bool {
        match res {
            Ok(_) => exists|resp: Response<Body>|
                call_ensures(self.handler(), (&self.context(), resp), Ok::<(), std::io::Error>(())),
            Err(WriteError::Domain(e)) => exists|resp: Response<Body>|
                call_ensures(
                    self.handler(),
                    (&self.context(), resp),
                    Err::<(), std::io::Error>(e),
                ),
            Err(WriteError::Other(Cause::Transport(_))) => true,
            Err(_) => false,
        }
    }

    /// Creates a writer.
    ///
    /// * `op`: the write being performed; the writer keeps a copy.
    /// * `tx`: the sender made by [`crate::channel::new_http_channel`].
    /// * `fut`: the pending response of the request that has the other end of
    ///   the channel as its body. It must not have resolved yet.
    /// * `handle`: turns the response into the result of the upload.
    pub fn new(op: &OpWrite, tx: Sender<Bytes>, fut: ResponseFuture, handle: H) -> (w: Self)
        requires
            forall|o: &OpWrite, resp: Response<Body>| call_requires(handle, (o, resp)),
        ensures
            w.wf(),
            w@.phase == Phase::Writing,
            w@.sent == accepted(tx),
            w.context() == *op,
            w.handler() == handle,
            w.pending_response() == Some(fut),
    {
        HttpBodyWriter { op: op.clone(), tx, fut: Some(fut), handle, phase: Phase::Writing }
    }

    /// The phase the writer is in.
    pub fn phase(&self) -> (p: Phase)
        ensures
            p == self@.phase,
    {
        self.phase
    }

    /// Polls the pending response after the channel has closed, and lets the
    /// handler judge the response when it is there.
    fn poll_response(&mut self, cx: &mut Context<'_>) -> (r: Progress<Result<(), WriteError>>)
        requires
            old(self).wf(),
            old(self)@.phase == Phase::AwaitingResponse,
        ensures
            final(self).wf(),
            final(self).context() == old(self).context(),
            final(self).handler() == old(self).handler(),
            final(self)@.sent == old(self)@.sent,
            r is Pending ==> final(self)@.phase == Phase::AwaitingResponse,
            r matches Progress::Ready(res) ==> final(self)@.phase == Phase::Done && final(
                self
            ).answers(res),
    {
        let fut = self.fut.take().unwrap();
        match poll_future(fut, cx) {
            ResponsePoll::Pending(fut) => {
                self.fut = Some(fut);
                Progress::Pending
            },
            ResponsePoll::Ready(outcome) => {
                self.phase = Phase::Done;
                let ghost produced = outcome;
                let res = interpret(&self.op, &self.handle, outcome);
                proof {
                    if produced is Ok {
                        let resp = produced->Ok_0;
                        if res is Err {
                            assert(call_ensures(
                                self.handler(),
                                (&self.context(), resp),
                                Err::<(), std::io::Error>(res->Err_0->Domain_0),
                            ));
                        } else {
                            assert(call_ensures(
                                self.handler(),
                                (&self.context(), resp),
                                Ok::<(), std::io::Error>(()),
                            ));
                        }
                    }
                }
                Progress::Ready(res)
            },
        }
    }

    /// Tries to write `buf` as one chunk.
    ///
    /// The pending response is polled first. If it has resolved, the server
    /// answered before the payload was complete: the write fails with
    /// [`WriteError::ResponseTooEarly`], the chunk is not handed over, the
    /// handler is not called, and the writer is done. Otherwise the channel
    /// is asked whether it can take a chunk, and the write stays pending
    /// until it can. Then the whole of `buf` is handed over and its length
    /// returned; a chunk is never accepted in part. A failure of the channel
    /// at either step is returned as [`WriteError::Other`]; the writer stays
    /// in [`Phase::Writing`] and may still be closed.
    pub fn poll_write(&mut self, cx: &mut Context<'_>, buf: &[u8]) -> (r: Progress<
        Result<usize, WriteError>,
    >)
        requires
            old(self).wf(),
            old(self)@.phase == Phase::Writing,
        ensures
            final(self).wf(),
            final(self).context() == old(self).context(),
            final(self).handler() == old(self).handler(),
            step(old(self)@, final(self)@),
            match r {
                Progress::Pending => final(self)@ == old(self)@,
                Progress::Ready(Ok(n)) => n == buf.len() && write_completed(
                    old(self)@,
                    buf@,
                    final(self)@,
                ),
                Progress::Ready(Err(WriteError::Other(Cause::Channel(_)))) => final(self)@ == old(
                    self
                )@,
                Progress::Ready(Err(WriteError::ResponseTooEarly(_))) => final(self)@.phase
                    == Phase::Done && final(self)@.sent == old(self)@.sent,
                Progress::Ready(Err(_)) => false,
            },
    {
        let fut = self.fut.take().unwrap();
        match poll_future(fut, cx).expect_pending() {
            Ok(fut) => {
                self.fut = Some(fut);
            },
            Err(e) => {
                self.phase = Phase::Done;
                return Progress::Ready(Err(e));
            },
        }
        match channel_progress(sender_poll_ready(&mut self.tx, cx)) {
            Progress::Pending => {
                return Progress::Pending;
            },
            Progress::Ready(Err(e)) => {
                return Progress::Ready(Err(e));
            },
            Progress::Ready(Ok(_)) => {},
        }
        let chunk = slice_to_vec(buf);
        Progress::Ready(accepted_or_failed(sender_start_send(&mut self.tx, chunk), buf.len()))
    }

    /// Tries to flush the channel. The pending response is left alone: it is
    /// not polled, and the writer holds it afterwards as it held it before. A
    /// failure of the channel is returned as [`WriteError::Other`].
    pub fn poll_flush(&mut self, cx: &mut Context<'_>) -> (r: Progress<Result<(), WriteError>>)
        requires
            old(self).wf(),
            old(self)@.phase == Phase::Writing,
        ensures
            final(self).wf(),
            final(self).context() == old(self).context(),
            final(self).handler() == old(self).handler(),
            final(self).pending_response() == old(self).pending_response(),
            final(self)@ == old(self)@,
            step(old(self)@, final(self)@),
            r matches Progress::Ready(Err(e)) ==> e matches WriteError::Other(Cause::Channel(_)),
    {
        channel_progress(sender_poll_flush(&mut self.tx, cx))
    }

    /// Tries to close the writer and obtain the result of the upload.
    ///
    /// First the channel is closed, which ends the request body. If that
    /// fails, the failure is returned as [`WriteError::Other`] and the
    /// response is not awaited. Once the channel is closed the pending
    /// response is polled until it resolves. A failure of the transport is
    /// returned as [`WriteError::Other`]; a response is given to the handler
    /// together with the context, and the handler's answer is the result. In
    /// each of these cases the writer is done.
    ///
    /// While the result is pending the call is repeated; the channel is not
    /// closed a second time.
    pub fn poll_close(&mut self, cx: &mut Context<'_>) -> (r: Progress<Result<(), WriteError>>)
        requires
            old(self).wf(),
            old(self)@.phase != Phase::Done,
        ensures
            final(self).wf(),
            final(self).context() == old(self).context(),
            final(self).handler() == old(self).handler(),
            final(self)@.sent == old(self)@.sent,
            step(old(self)@, final(self)@),
            match r {
                Progress::Pending => final(self)@.phase == Phase::AwaitingResponse || (old(
                    self
                )@.phase != Phase::AwaitingResponse && final(self)@.phase == Phase::Closing),
                Progress::Ready(Err(WriteError::Other(Cause::Channel(_)))) => final(self)@.phase
                    == Phase::Done && old(self)@.phase != Phase::AwaitingResponse,
                Progress::Ready(res) => final(self)@.phase == Phase::Done && final(self).answers(
                    res,
                ),
            },
    {
        if self.phase != Phase::AwaitingResponse {
            match channel_progress(sender_poll_close(&mut self.tx, cx)) {
                Progress::Pending => {
                    self.phase = Phase::Closing;
                    return Progress::Pending;
                },
                Progress::Ready(Err(e)) => {
                    self.phase = Phase::Done;
                    self.fut = None;
                    return Progress::Ready(Err(e));
                },
                Progress::Ready(Ok(_)) => {
                    self.phase = Phase::AwaitingResponse;
                },
            }
        }
        self.poll_response(cx)
    }
}

/// Order is preserved. Take any run of completed writes, one for each chunk
/// of `chunks` in turn, with `trace` the writer before the first, between
/// each two, and after the last. Then the channel has taken exactly those
/// chunks, in the order of the calls, behind what it held before: none is
/// missing, none is there twice, none has moved, and the bytes of the stream
/// are the bytes of the chunks, one chunk after the other.
///
/// Attempts that stay pending or fail leave what the channel has taken as it
/// was, so they need not appear in the run.
pub proof fn lemma_writes_keep_order(trace: Seq<WriterView>, chunks: Seq<Seq<u8>>)
    requires
        trace.len() == chunks.len() + 1,
        forall|i: int|
            0 <= i < chunks.len() ==> write_completed(
                #[trigger] trace[i],
                chunks[i],
                trace[i + 1],
            ),
    ensures
        trace.last().sent == trace[0].sent + chunks,
        stream_bytes(trace.last().sent) == stream_bytes(trace[0].sent) + stream_bytes(chunks),
    decreases chunks.len(),
{
    if chunks.len() == 0 {
        assert(trace[0].sent + chunks == trace[0].sent);
        assert(stream_bytes(chunks) == Seq::<u8>::empty());
        assert(stream_bytes(trace[0].sent) + Seq::<u8>::empty() == stream_bytes(trace[0].sent));
    } else {
        let n = chunks.len() as int;
        lemma_writes_keep_order(trace.drop_last(), chunks.drop_last());
        assert(write_completed(trace[n - 1], chunks[n - 1], trace[n]));
        assert(trace.drop_last().last() == trace[n - 1]);
        assert(trace[0].sent + chunks == (trace[0].sent + chunks.drop_last()).push(chunks.last()));
        lemma_stream_bytes_concat(trace[0].sent, chunks);
    }
}

/// The response slot. A writer that is well formed holds the pending response
/// in every phase but [`Phase::Done`], and in that phase holds none: a
/// response that has resolved has left the writer, in the result of the
/// close or in the error of the write that found it, and cannot be polled
/// again.
pub proof fn lemma_holds_response_until_done<H>(w: HttpBodyWriter<H>) where
    H: Fn(&OpWrite, Response<Body>) -> Result<(), std::io::Error>,

    requires
        w.wf(),
    ensures
        w.pending_response() is Some <==> w@.phase != Phase::Done,
{
}

/// A writer only moves forward. Take any run of calls, with `trace` the
/// writer before the first call, between each two, and after the last, and
/// any two points `i` and `j` of the run, `i` not after `j`. Then the phase
/// at `j` is the phase at `i` or a later one; what the channel had taken at
/// `i` is still there at `j`, at the front and in the same order; once the
/// writer has left [`Phase::Writing`] the channel takes nothing more; and
/// nothing follows [`Phase::Done`].
pub proof fn lemma_writer_moves_forward(trace: Seq<WriterView>, i: int, j: int)
    requires
        forall|k: int| 0 <= k < trace.len() - 1 ==> step(#[trigger] trace[k], trace[k + 1]),
        0 <= i <= j < trace.len(),
    ensures
        trace[i].phase.rank() <= trace[j].phase.rank(),
        trace[i].sent.is_prefix_of(trace[j].sent),
        trace[i].phase != Phase::Writing ==> trace[j].sent == trace[i].sent,
        trace[i].phase == Phase::Done ==> i == j,
    decreases j - i,
{
    if i < j {
        lemma_writer_moves_forward(trace, i, j - 1);
        assert(step(trace[j - 1], trace[j]));
        assert(trace[j - 1].sent.is_prefix_of(trace[j].sent));
        assert(step(trace[i], trace[i + 1]));
    }
}

/// The bytes of two runs of chunks, one after the other, are the bytes of
/// the first followed by the bytes of the second.
pub proof fn lemma_stream_bytes_concat(first: Seq<Seq<u8>>, second: Seq<Seq<u8>>)
    ensures
        stream_bytes(first + second) == stream_bytes(first) + stream_bytes(second),
    decreases second.len(),
{
    if second.len() == 0 {
        assert(first + second == first);
        assert(stream_bytes(first) + stream_bytes(second) == stream_bytes(first));
    } else {
        lemma_stream_bytes_concat(first, second.drop_last());
        assert((first + second).drop_last() == first + second.drop_last());
        assert((first + second).last() == second.last());
        assert(stream_bytes(first + second) == stream_bytes(first + second.drop_last())
            + second.last());
        assert((stream_bytes(first) + stream_bytes(second.drop_last())) + second.last()
            == stream_bytes(first) + (stream_bytes(second.drop_last()) + second.last()));
    }
}

} // verus!
