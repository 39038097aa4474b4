//! The ways an upload fails.

use futures::channel::mpsc::SendError;
use http::Response;
use hyper::Body;
use vstd::prelude::*;

use crate::progress::Progress;

verus! {

#[verifier::external_type_specification]
#[verifier::external_body]
pub struct ExHyperError(hyper::Error);

#[verifier::external_type_specification]
#[verifier::external_body]
pub struct ExIoError(std::io::Error);

/// The failure underneath a [`WriteError::Other`], kept as it was reported.
/// The writer never looks inside.
#[derive(Debug)]
pub enum Cause {
    /// The hand-off channel could not take a chunk, flush or close: as a
    /// rule, the reader of the request body is gone.
    Channel(SendError),
    /// The HTTP client could not produce a response at all.
    Transport(hyper::Error),
}

/// Why a write, a flush or a close failed.
#[derive(Debug)]
pub enum WriteError {
    /// A failure of the channel or of the transport. The writer does not
    /// classify these any further; all of them are of this one kind.
    Other(Cause),
    /// The exchange completed and the response handler judged it a failure.
    /// This is the handler's own error, untouched.
    Domain(std::io::Error),
    /// The pending response resolved while the caller was still writing. The
    /// server answered, or the transport gave up, before the payload was
    /// complete, so the upload cannot be trusted: the writer stops and hands
    /// no further chunk to the channel. What the client produced is kept for
    /// the caller to look at; the response handler has not seen it.
    ResponseTooEarly(Result<Response<Body>, hyper::Error>),
}

impl WriteError {
    /// Wraps a failure of the channel.
    pub fn channel(e: SendError) -> (err: WriteError)
        ensures
            err == WriteError::Other(Cause::Channel(e)),
    {
        WriteError::Other(Cause::Channel(e))
    }

    /// Wraps a failure of the transport.
    pub fn transport(e: hyper::Error) -> (err: WriteError)
        ensures
            err == WriteError::Other(Cause::Transport(e)),
    {
        WriteError::Other(Cause::Transport(e))
    }
}

/// What an operation on the channel came to, with a failure of the channel
/// wrapped as [`WriteError::Other`]. A pending or successful attempt stays as
/// it is.
pub fn channel_progress(p: Progress<Result<(), SendError>>) -> (r: Progress<Result<(), WriteError>>)
    ensures
        p is Pending ==> r is Pending,
        p matches Progress::Ready(Ok(_)) ==> r == Progress::Ready(Ok::<(), WriteError>(())),
        p matches Progress::Ready(Err(e)) ==> r == Progress::Ready(
            Err::<(), WriteError>(WriteError::Other(Cause::Channel(e))),
        ),
{
    match p {
        Progress::Pending => Progress::Pending,
        Progress::Ready(Ok(())) => Progress::Ready(Ok(())),
        Progress::Ready(Err(e)) => Progress::Ready(Err(WriteError::channel(e))),
    }
}

/// The result of a write of `len` bytes once the channel has said whether it
/// took the chunk: all `len` bytes were accepted, or none were and the
/// failure of the channel is wrapped as [`WriteError::Other`].
pub fn accepted_or_failed(sent: Result<(), SendError>, len: usize) -> (r: Result<usize, WriteError>)
    ensures
        sent is Ok ==> r == Ok::<usize, WriteError>(len),
        sent matches Err(e) ==> r == Err::<usize, WriteError>(
            WriteError::Other(Cause::Channel(e)),
        ),
{
    match sent {
        Ok(()) => Ok(len),
        Err(e) => Err(WriteError::channel(e)),
    }
}

} // verus!
