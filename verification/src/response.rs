//! The pending response of the request whose body is being written.
//!
//! The response is a future of the HTTP client. It is polled, never awaited:
//! the writer looks at it during every write, to notice a server that answers
//! too early, and again after the close, to obtain the answer. A future that
//! has produced its value is gone, so it cannot be polled a second time.

use http::Response;
use hyper::client::ResponseFuture;
use hyper::Body;
use std::future::Future;
use std::pin::Pin;
use std::task::{Context, Poll};
use vstd::prelude::*;

use crate::error::{Cause, WriteError};
use crate::op::OpWrite;

verus! {

#[verifier::external_type_specification]
#[verifier::external_body]
pub struct ExResponseFuture(ResponseFuture);

#[verifier::external_type_specification]
#[verifier::external_body]
#[verifier::reject_recursive_types(T)]
pub struct ExResponse<T>(Response<T>);

/// What polling the pending response came to.
#[derive(Debug)]
pub enum ResponsePoll {
    /// No answer yet. The future comes back to be polled again.
    Pending(ResponseFuture),
    /// The client has the response, or has failed to get one.
    Ready(Result<Response<Body>, hyper::Error>),
}

/// `Future::poll` of the pending response. The future is taken by value and
/// handed back only while it is pending, so that one which has resolved is
/// never polled again. Nothing is assumed of the outcome.
#[verifier::external_body]
pub(crate) fn poll_future(fut: ResponseFuture, cx: &mut Context<'_>) -> ResponsePoll {
    let mut fut = fut;
    match Pin::new(&mut fut).poll(cx) {
        Poll::Pending => ResponsePoll::Pending(fut),
        Poll::Ready(outcome) => ResponsePoll::Ready(outcome),
    }
}

impl ResponsePoll {
    /// The check every write makes: the response must still be pending. If
    /// it is, the future is returned for the next poll. If it has resolved,
    /// with a response or with a failure, the server did not wait for the
    /// end of the payload, and that is reported as
    /// [`WriteError::ResponseTooEarly`] around what the client produced.
    pub fn expect_pending(self) -> (r: Result<ResponseFuture, WriteError>)
        ensures
            match self {
                ResponsePoll::Pending(fut) => r == Ok::<ResponseFuture, WriteError>(fut),
                ResponsePoll::Ready(outcome) => r == Err::<ResponseFuture, WriteError>(
                    WriteError::ResponseTooEarly(outcome),
                ),
            },
    {
        match self {
            ResponsePoll::Pending(fut) => Ok(fut),
            ResponsePoll::Ready(outcome) => Err(WriteError::ResponseTooEarly(outcome)),
        }
    }
}

/// Turns what the client produced into the result of the upload.
///
/// A failure of the transport is wrapped as [`WriteError::Other`] and the
/// handler is not called. A response is given to `handle` together with `op`,
/// once, and what the handler answers is the result: its `Ok` as `Ok`, its
/// error as [`WriteError::Domain`] around that same error.
pub fn interpret<H>(
    op: &OpWrite,
    handle: &H,
    outcome: Result<Response<Body>, hyper::Error>,
) -> (r: Result<(), WriteError>) where H: Fn(&OpWrite, Response<Body>) -> Result<(), std::io::Error>
    requires
        outcome matches Ok(resp) ==> call_requires(*handle, (op, resp)),
    ensures
        match outcome {
            Err(e) => r == Err::<(), WriteError>(WriteError::Other(Cause::Transport(e))),
            Ok(resp) => match r {
                Ok(_) => call_ensures(*handle, (op, resp), Ok::<(), std::io::Error>(())),
                Err(WriteError::Domain(e)) => call_ensures(
                    *handle,
                    (op, resp),
                    Err::<(), std::io::Error>(e),
                ),
                Err(_) => false,
            },
        },
{
    match outcome {
        Err(e) => Err(WriteError::transport(e)),
        Ok(resp) => {
            match handle(op, resp) {
                Ok(unit) => {
                    assert(unit == ());
                    Ok(())
                },
                Err(e) => Err(WriteError::Domain(e)),
            }
        },
    }
}

} // verus!
