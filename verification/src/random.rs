//! Cryptographically strong pseudo-random byte generation.
//!
//! [`random_bytes`] performs the blocking entropy read itself; because that
//! call may wait on system entropy, callers that must not block hand it to a
//! worker pool.  [`RandomRequest`] is the state of one such deferred request:
//! it dispatches the blocking work on the first poll only, so a request that
//! is dropped before ever being driven costs the pool nothing.

use vstd::prelude::*;

use crate::error::Error;

verus! {

/// The largest request size the entropy source accepts in one call.
pub const MAX_RANDOM_LEN: usize = 0x7fff_ffff;

/// Generate cryptographically strong pseudo-random data: exactly `size`
/// bytes, including when `size` is zero.
///
/// This call may block on system entropy availability; drive it through a
/// worker pool where that matters.  An entropy-source fault is reported as an
/// `Engine` error for this one request and is never retried here: retrying a
/// failed entropy read silently would risk predictable output, so retrying is
/// the caller's decision.
pub fn random_bytes(size: usize) -> (r: Result<Vec<u8>, Error>)
    requires
        size <= MAX_RANDOM_LEN,
    ensures
        (match r {
            Ok(v) => v@.len() == size,
            Err(e) => e is Engine,
        }),
{
    match rand_fill(size) {
        Ok(v) => Ok(v),
        Err(stack) => Err(Error::Engine(stack)),
    }
}

/// Fills a fresh buffer of `size` bytes from the entropy source.  Relies on
/// `openssl::rand::rand_bytes`: on success the whole buffer was filled, and
/// sizes within `c_int` stay inside its input limit.
#[verifier::external_body]
fn rand_fill(size: usize) -> (r: Result<Vec<u8>, openssl::error::ErrorStack>)
    requires
        size <= MAX_RANDOM_LEN,
    ensures
        r matches Ok(v) ==> v@.len() == size,
{
    let mut buf = vec![0u8; size];
    openssl::rand::rand_bytes(&mut buf)?;
    Ok(buf)
}

/// What the driver of a [`RandomRequest`] must do after one poll.
pub enum PollAction {
    /// Submit one blocking task that generates this many bytes.
    Dispatch(usize),
    /// The task was already submitted; check its completion instead.
    AwaitTask,
    /// The pool rejected the task; the request is terminally failed.
    ReportRejection,
}

/// The state of one deferred random-byte request: the requested size,
/// whether its blocking task has been dispatched yet, and whether the pool
/// rejected it.
///
/// Dispatch is deliberately lazy: nothing is submitted at construction, the
/// first poll asks for exactly one dispatch, and every later poll asks the
/// driver to await the task it already submitted.  A recorded pool rejection
/// is fatal to the request and never retried.
pub struct RandomRequest {
    size: usize,
    dispatched: bool,
    rejected: bool,
}

impl RandomRequest {
    /// The number of bytes requested.
    pub closed spec fn spec_size(&self) -> usize {
        self.size
    }

    /// Whether the blocking task has been dispatched.
    pub closed spec fn spec_dispatched(&self) -> bool {
        self.dispatched
    }

    /// Whether the pool rejected the one dispatch.
    pub closed spec fn spec_rejected(&self) -> bool {
        self.rejected
    }

    /// Record a request for `size` bytes, without dispatching anything.
    pub fn new(size: usize) -> (r: RandomRequest)
        ensures
            r.spec_size() == size,
            !r.spec_dispatched(),
            !r.spec_rejected(),
    {
        RandomRequest { size, dispatched: false, rejected: false }
    }

    /// Record that the pool rejected the dispatched task: the request stays
    /// terminally failed, and every later poll reports the rejection.
    pub fn mark_rejected(&mut self)
        requires
            old(self).spec_dispatched(),
        ensures
            final(self).spec_size() == old(self).spec_size(),
            final(self).spec_dispatched(),
            final(self).spec_rejected(),
    {
        self.rejected = true;
    }

    /// Advance the request by one poll: the first poll asks for the one
    /// dispatch, every later one asks the driver to await the running task —
    /// or to report the recorded rejection, forever, once the pool refused.
    pub fn on_poll(&mut self) -> (a: PollAction)
        ensures
            final(self).spec_size() == old(self).spec_size(),
            final(self).spec_dispatched() == (old(self).spec_dispatched()
                || !old(self).spec_rejected()),
            final(self).spec_rejected() == old(self).spec_rejected(),
            a == (if old(self).spec_rejected() {
                PollAction::ReportRejection
            } else if old(self).spec_dispatched() {
                PollAction::AwaitTask
            } else {
                PollAction::Dispatch(old(self).spec_size())
            }),
    {
        if self.rejected {
            PollAction::ReportRejection
        } else if self.dispatched {
            PollAction::AwaitTask
        } else {
            self.dispatched = true;
            PollAction::Dispatch(self.size)
        }
    }
}

} // verus!
