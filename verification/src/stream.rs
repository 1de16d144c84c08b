//! Pull-based byte-chunk producers.
//!
//! A [`ByteStream`] hands out byte chunks one pull at a time, may signal
//! "not ready yet" without losing data (backpressure), and eventually signals
//! end-of-data.  The transform and digest adapters of this library both
//! consume and implement this interface, so they compose.

use vstd::prelude::*;

use crate::error::Error;

verus! {

/// The outcome of one pull of a [`ByteStream`].
pub enum PollOutcome {
    /// No data is ready yet; pull again later.
    Pending,
    /// The next chunk of the sequence.
    Item(Vec<u8>),
    /// The sequence has ended; no further chunks will ever be produced.
    Done,
    /// The producer reported an error for this pull.
    Failed(Error),
}

/// A pull-based producer of byte chunks.
///
/// `history()` is the sequence of chunks the producer has yielded so far and
/// `done()` says whether it has signalled end-of-data; both are abstract
/// state that each implementation refines through its invariant `inv()`.
pub trait ByteStream: Sized {
    /// The implementation's invariant, established at construction and
    /// preserved by every pull.
    spec fn inv(&self) -> bool;

    /// All chunks yielded so far, oldest first.
    spec fn history(&self) -> Seq<Seq<u8>>;

    /// Whether end-of-data has been signalled.
    spec fn done(&self) -> bool;

    /// How many pulls have reported a failure, the producer's own or a
    /// forwarded one; every `Failed` outcome steps it by exactly one, so a
    /// failure report always belongs to a real pull.
    spec fn failures(&self) -> nat;

    /// The chunks still to come, where the producer knows them exactly;
    /// `None` for a producer whose future yields are not determined by its
    /// state.  A scripted producer yields its script in order, then ends,
    /// and keeps the script exact along every pull that does not fail.
    spec fn script(&self) -> Option<Seq<Seq<u8>>>;

    /// Pull once.  A yielded chunk extends the history and, on a scripted
    /// producer, is exactly the script's head; `Pending` and `Failed` leave
    /// the abstract state unchanged; after `Done` every further pull signals
    /// `Done` again.
    fn poll(&mut self) -> (r: PollOutcome)
        requires
            old(self).inv(),
        ensures
            final(self).inv(),
            (match r {
                PollOutcome::Pending => final(self).history() == old(self).history()
                    && final(self).done() == old(self).done()
                    && final(self).script() == old(self).script()
                    && final(self).failures() == old(self).failures(),
                PollOutcome::Item(c) => final(self).history() == old(self).history().push(c@)
                    && !old(self).done()
                    && final(self).failures() == old(self).failures()
                    && (old(self).script() matches Some(s) ==> s.len() > 0 && c@ == s[0]
                        && final(self).script() == Some(s.skip(1))),
                PollOutcome::Done => final(self).history() == old(self).history()
                    && final(self).done()
                    && final(self).script() == old(self).script()
                    && final(self).failures() == old(self).failures()
                    && (final(self).script() matches Some(s) ==> s.len() == 0),
                PollOutcome::Failed(_) => final(self).history() == old(self).history()
                    && final(self).done() == old(self).done()
                    && final(self).failures() == old(self).failures() + 1,
            }),
            old(self).done() ==> r is Done,
    ;
}

/// A [`ByteStream`] over a fixed list of chunks, yielded in order.
///
/// This is the library's own in-memory producer; tests and callers use it to
/// feed a known byte sequence through the adapters.
pub struct VecStream {
    rest: Vec<Vec<u8>>,
    emitted: Ghost<Seq<Seq<u8>>>,
    finished: bool,
}

impl VecStream {
    /// The chunks not yet yielded, in the order they will come out.
    pub closed spec fn remaining(&self) -> Seq<Seq<u8>> {
        self.rest@.map_values(|v: Vec<u8>| v@)
    }

    /// Create a producer that yields `chunks` in order, then ends.
    pub fn new(chunks: Vec<Vec<u8>>) -> (r: VecStream)
        ensures
            r.inv(),
            r.remaining() == chunks@.map_values(|v: Vec<u8>| v@),
            r.history() == Seq::<Seq<u8>>::empty(),
            !r.done(),
    {
        VecStream { rest: chunks, emitted: Ghost(Seq::empty()), finished: false }
    }

    /// One pull, pinned exactly: the first remaining chunk comes out, or the
    /// end is signalled once nothing remains.
    pub fn poll_next(&mut self) -> (r: PollOutcome)
        requires
            old(self).inv(),
        ensures
            final(self).inv(),
            (if old(self).remaining().len() > 0 {
                &&& r matches PollOutcome::Item(c) && c@ == old(self).remaining()[0]
                &&& final(self).remaining() == old(self).remaining().skip(1)
                &&& final(self).history() == old(self).history().push(old(self).remaining()[0])
                &&& !final(self).done()
            } else {
                &&& r is Done
                &&& final(self).remaining() == old(self).remaining()
                &&& final(self).history() == old(self).history()
                &&& final(self).done()
            }),
    {
        if self.rest.len() > 0 {
            let c = self.rest.remove(0);
            self.emitted = Ghost(self.emitted@.push(c@));
            proof {
                assert(self.remaining() =~= old(self).remaining().skip(1));
            }
            PollOutcome::Item(c)
        } else {
            self.finished = true;
            PollOutcome::Done
        }
    }
}

impl ByteStream for VecStream {
    closed spec fn inv(&self) -> bool {
        self.finished ==> self.rest@.len() == 0
    }

    closed spec fn history(&self) -> Seq<Seq<u8>> {
        self.emitted@
    }

    closed spec fn done(&self) -> bool {
        self.finished
    }

    open spec fn script(&self) -> Option<Seq<Seq<u8>>> {
        Some(self.remaining())
    }

    open spec fn failures(&self) -> nat {
        0
    }

    fn poll(&mut self) -> (r: PollOutcome) {
        self.poll_next()
    }
}

/// A [`ByteStream`] over a fixed list of chunks that signals "not ready"
/// before every chunk and before its end, the way a producer waiting on an
/// external source would.
///
/// Adapters built over it must forward each `Pending` without consuming or
/// producing anything; tests use it to exercise that backpressure path.
pub struct PulseStream {
    rest: Vec<Vec<u8>>,
    ready: bool,
    emitted: Ghost<Seq<Seq<u8>>>,
    finished: bool,
}

impl PulseStream {
    /// The chunks not yet yielded, in the order they will come out.
    pub closed spec fn remaining(&self) -> Seq<Seq<u8>> {
        self.rest@.map_values(|v: Vec<u8>| v@)
    }

    /// Whether the next pull will yield rather than signal "not ready".
    pub closed spec fn primed(&self) -> bool {
        self.ready
    }

    /// Create a producer that yields `chunks` in order, each behind one
    /// "not ready" signal, then ends.
    pub fn new(chunks: Vec<Vec<u8>>) -> (r: PulseStream)
        ensures
            r.inv(),
            r.remaining() == chunks@.map_values(|v: Vec<u8>| v@),
            r.history() == Seq::<Seq<u8>>::empty(),
            !r.done(),
            !r.primed(),
    {
        PulseStream { rest: chunks, ready: false, emitted: Ghost(Seq::empty()), finished: false }
    }

    /// One pull, pinned exactly: ends stay ends, an unprimed producer primes
    /// itself and reports "not ready", and a primed one hands out the first
    /// remaining chunk or the end signal.
    pub fn poll_next(&mut self) -> (r: PollOutcome)
        requires
            old(self).inv(),
        ensures
            final(self).inv(),
            (if old(self).done() {
                &&& r is Done
                &&& final(self).remaining() == old(self).remaining()
                &&& final(self).history() == old(self).history()
                &&& final(self).done()
            } else if !old(self).primed() {
                &&& r is Pending
                &&& final(self).primed()
                &&& final(self).remaining() == old(self).remaining()
                &&& final(self).history() == old(self).history()
                &&& !final(self).done()
            } else if old(self).remaining().len() > 0 {
                &&& r matches PollOutcome::Item(c) && c@ == old(self).remaining()[0]
                &&& !final(self).primed()
                &&& final(self).remaining() == old(self).remaining().skip(1)
                &&& final(self).history() == old(self).history().push(old(self).remaining()[0])
                &&& !final(self).done()
            } else {
                &&& r is Done
                &&& final(self).remaining() == old(self).remaining()
                &&& final(self).history() == old(self).history()
                &&& final(self).done()
            }),
    {
        if self.finished {
            PollOutcome::Done
        } else if !self.ready {
            self.ready = true;
            PollOutcome::Pending
        } else {
            self.ready = false;
            if self.rest.len() > 0 {
                let c = self.rest.remove(0);
                self.emitted = Ghost(self.emitted@.push(c@));
                proof {
                    assert(self.remaining() =~= old(self).remaining().skip(1));
                }
                PollOutcome::Item(c)
            } else {
                self.finished = true;
                PollOutcome::Done
            }
        }
    }
}

impl ByteStream for PulseStream {
    closed spec fn inv(&self) -> bool {
        self.finished ==> self.rest@.len() == 0
    }

    closed spec fn history(&self) -> Seq<Seq<u8>> {
        self.emitted@
    }

    closed spec fn done(&self) -> bool {
        self.finished
    }

    open spec fn script(&self) -> Option<Seq<Seq<u8>>> {
        Some(self.remaining())
    }

    open spec fn failures(&self) -> nat {
        0
    }

    fn poll(&mut self) -> (r: PollOutcome) {
        self.poll_next()
    }
}

} // verus!
