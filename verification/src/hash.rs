//! Hash algorithms for computing digests of byte-chunk streams.
//!
//! A [`Hash`] adapter forwards its inner producer's chunks unchanged while
//! feeding them to a running digest engine; [`Hash::digest`] finalizes the
//! accumulation on demand and resets it, so one adapter can digest successive
//! segments of the same stream.  [`Hash::split`] decouples consuming the data
//! from receiving the final digest through a one-shot completion slot.

use vstd::prelude::*;
use vstd::string::StringExecFns;

use crate::error::Error;
use crate::stream::{ByteStream, PollOutcome};

verus! {

/// Algorithm that can be used to hash data.
#[derive(Clone, Copy, Debug, PartialEq, Eq, Structural)]
pub enum Algorithm {
    /// MD-5
    Md5,
    /// SHA-1
    Sha1,
    /// SHA-224
    Sha224,
    /// SHA-256
    Sha256,
    /// SHA-384
    Sha384,
    /// SHA-512
    Sha512,
}

impl Algorithm {
    /// The fixed length of the algorithm's digests, in bytes.
    pub open spec fn spec_digest_len(self) -> usize {
        match self {
            Algorithm::Md5 => 16usize,
            Algorithm::Sha1 => 20usize,
            Algorithm::Sha224 => 28usize,
            Algorithm::Sha256 => 32usize,
            Algorithm::Sha384 => 48usize,
            Algorithm::Sha512 => 64usize,
        }
    }
}

/// Declares openssl's incremental hasher; opaque to the library, it is read
/// and advanced only through the trusted wrappers below.
#[verifier::external_type_specification]
#[verifier::external_body]
pub struct ExHasher(openssl::hash::Hasher);

/// Declares openssl's digest descriptor so the trusted engine constructor
/// can pass it along; opaque to the library.
#[verifier::external_type_specification]
#[verifier::external_body]
pub struct ExMessageDigest(openssl::hash::MessageDigest);

/// The digest that openssl's hasher produces for the given algorithm once
/// exactly `data` has been fed since the last reset.  A function of those
/// arguments alone: hashing is deterministic.
pub uninterp spec fn digest_bytes(algo: Algorithm, data: Seq<u8>) -> Seq<u8>;

/// A live digest engine: it eats input bytes chunk by chunk and produces a
/// fixed-size digest on demand, resetting its accumulation each time.
///
/// `fed_bytes()` is the concatenation of everything fed since the last reset;
/// the digest produced for it is pinned by [`digest_bytes`], so it depends
/// only on the algorithm and the fed bytes, never on how they were chunked.
pub struct HashCore {
    hasher: openssl::hash::Hasher,
    algo: Algorithm,
    dead: bool,
    fed: Ghost<Seq<u8>>,
}

impl HashCore {
    /// The algorithm the engine hashes with.
    pub closed spec fn spec_algo(&self) -> Algorithm {
        self.algo
    }

    /// The concatenation of all input bytes fed since the last reset.
    pub closed spec fn fed_bytes(&self) -> Seq<u8> {
        self.fed@
    }

    /// Whether the engine is dead after a fault; a dead engine accepts no
    /// further calls.
    pub closed spec fn spec_dead(&self) -> bool {
        self.dead
    }

    /// Create a live digest engine for an algorithm.
    pub fn new(algo: Algorithm) -> (r: Result<HashCore, Error>)
        ensures
            (match r {
                Ok(core) => {
                    &&& core.spec_algo() == algo
                    &&& core.fed_bytes() == Seq::<u8>::empty()
                    &&& !core.spec_dead()
                },
                Err(e) => e is Engine,
            }),
    {
        match hasher_new(algo) {
            Ok(hasher) => Ok(HashCore { hasher, algo, dead: false, fed: Ghost(Seq::empty()) }),
            Err(stack) => Err(Error::Engine(stack)),
        }
    }

    /// Feed `input` into the running accumulation.
    ///
    /// An `Engine` error is fatal: the engine must be dropped.
    pub fn update(&mut self, input: &Vec<u8>) -> (r: Result<(), Error>)
        requires
            !old(self).spec_dead(),
        ensures
            final(self).spec_algo() == old(self).spec_algo(),
            (match r {
                Ok(_) => {
                    &&& !final(self).spec_dead()
                    &&& final(self).fed_bytes() == old(self).fed_bytes() + input@
                },
                Err(e) => e is Engine && final(self).spec_dead(),
            }),
    {
        match hasher_update(self, input) {
            Ok(_) => Ok(()),
            Err(stack) => Err(Error::Engine(stack)),
        }
    }

    /// Produce the digest of everything fed since the last reset, and reset
    /// the accumulation to empty.
    ///
    /// An `Engine` error is fatal: the engine must be dropped.
    pub fn digest(&mut self) -> (r: Result<Digest, Error>)
        requires
            !old(self).spec_dead(),
        ensures
            final(self).spec_algo() == old(self).spec_algo(),
            (match r {
                Ok(d) => {
                    &&& !final(self).spec_dead()
                    &&& final(self).fed_bytes() == Seq::<u8>::empty()
                    &&& d.spec_algorithm() == old(self).spec_algo()
                    &&& d.spec_bytes() == digest_bytes(old(self).spec_algo(), old(self).fed_bytes())
                    &&& d.spec_bytes().len() == old(self).spec_algo().spec_digest_len()
                },
                Err(e) => e is Engine && final(self).spec_dead(),
            }),
    {
        let algo = self.algo;
        match hasher_finish(self) {
            Ok(bytes) => Ok(Digest { bytes, algorithm: algo }),
            Err(stack) => Err(Error::Engine(stack)),
        }
    }
}

/// Maps each algorithm to openssl's digest descriptor; relies on
/// `openssl::hash::MessageDigest`'s per-algorithm constructors.
#[verifier::external_body]
fn md_of(algo: Algorithm) -> openssl::hash::MessageDigest {
    match algo {
        Algorithm::Md5 => openssl::hash::MessageDigest::md5(),
        Algorithm::Sha1 => openssl::hash::MessageDigest::sha1(),
        Algorithm::Sha224 => openssl::hash::MessageDigest::sha224(),
        Algorithm::Sha256 => openssl::hash::MessageDigest::sha256(),
        Algorithm::Sha384 => openssl::hash::MessageDigest::sha384(),
        Algorithm::Sha512 => openssl::hash::MessageDigest::sha512(),
    }
}

/// Builds the live hasher.  Relies on `openssl::hash::Hasher::new`: a fresh,
/// deterministic incremental hasher for the chosen digest.
#[verifier::external_body]
fn hasher_new(algo: Algorithm) -> (r: Result<openssl::hash::Hasher, openssl::error::ErrorStack>) {
    openssl::hash::Hasher::new(md_of(algo))
}

/// Feeds `input` into the hasher.  Relies on `openssl::hash::Hasher::update`:
/// it appends the bytes to the running accumulation and never blocks.
#[verifier::external_body]
fn hasher_update(core: &mut HashCore, input: &Vec<u8>) -> (r: Result<
    (),
    openssl::error::ErrorStack,
>)
    requires
        !old(core).spec_dead(),
    ensures
        final(core).spec_algo() == old(core).spec_algo(),
        (match r {
            Ok(_) => !final(core).spec_dead() && final(core).fed_bytes() == old(core).fed_bytes()
                + input@,
            Err(_) => final(core).spec_dead(),
        }),
{
    match core.hasher.update(input.as_slice()) {
        Ok(()) => Ok(()),
        Err(stack) => {
            core.dead = true;
            Err(stack)
        }
    }
}

/// Finalizes the running accumulation.  Relies on
/// `openssl::hash::Hasher::finish`: it emits the digest of exactly the bytes
/// fed since the last reset — a fixed-size value determined by the algorithm
/// and those bytes alone — and resets the hasher for further use.
#[verifier::external_body]
fn hasher_finish(core: &mut HashCore) -> (r: Result<Vec<u8>, openssl::error::ErrorStack>)
    requires
        !old(core).spec_dead(),
    ensures
        final(core).spec_algo() == old(core).spec_algo(),
        (match r {
            Ok(out) => {
                &&& !final(core).spec_dead()
                &&& final(core).fed_bytes() == Seq::<u8>::empty()
                &&& out@ == digest_bytes(old(core).spec_algo(), old(core).fed_bytes())
                &&& out@.len() == old(core).spec_algo().spec_digest_len()
            },
            Err(_) => final(core).spec_dead(),
        }),
{
    match core.hasher.finish() {
        Ok(bytes) => Ok(bytes.to_vec()),
        Err(stack) => {
            core.dead = true;
            Err(stack)
        }
    }
}

/// The hexadecimal digit character for a value below sixteen.
pub open spec fn hex_digit(n: u8) -> char {
    if n == 0 {
        '0'
    } else if n == 1 {
        '1'
    } else if n == 2 {
        '2'
    } else if n == 3 {
        '3'
    } else if n == 4 {
        '4'
    } else if n == 5 {
        '5'
    } else if n == 6 {
        '6'
    } else if n == 7 {
        '7'
    } else if n == 8 {
        '8'
    } else if n == 9 {
        '9'
    } else if n == 10 {
        'a'
    } else if n == 11 {
        'b'
    } else if n == 12 {
        'c'
    } else if n == 13 {
        'd'
    } else if n == 14 {
        'e'
    } else {
        'f'
    }
}

/// The lower-case hexadecimal rendering of a byte sequence: two digits per
/// byte, high nibble first.
pub open spec fn hex_chars(data: Seq<u8>) -> Seq<char>
    decreases data.len(),
{
    if data.len() == 0 {
        Seq::empty()
    } else {
        seq![hex_digit(data[0] / 16), hex_digit(data[0] % 16)] + hex_chars(data.skip(1))
    }
}

/// Rendering one more byte appends exactly its two digits.
proof fn lemma_hex_chars_push(data: Seq<u8>, b: u8)
    ensures
        hex_chars(data.push(b)) == hex_chars(data) + seq![hex_digit(b / 16), hex_digit(b % 16)],
    decreases data.len(),
{
    if data.len() == 0 {
        assert(data.push(b).skip(1) =~= Seq::<u8>::empty());
        assert(hex_chars(Seq::<u8>::empty()) == Seq::<char>::empty());
        assert(data.push(b)[0] == b);
        assert(hex_chars(data.push(b)) =~= seq![hex_digit(b / 16), hex_digit(b % 16)]);
        assert(hex_chars(data) + seq![hex_digit(b / 16), hex_digit(b % 16)] =~= seq![
            hex_digit(b / 16),
            hex_digit(b % 16),
        ]);
    } else {
        lemma_hex_chars_push(data.skip(1), b);
        assert(data.push(b).skip(1) =~= data.skip(1).push(b));
        assert(hex_chars(data) + seq![hex_digit(b / 16), hex_digit(b % 16)] =~= seq![
            hex_digit(data[0] / 16),
            hex_digit(data[0] % 16),
        ] + (hex_chars(data.skip(1)) + seq![hex_digit(b / 16), hex_digit(b % 16)]));
    }
}

/// The one-character string for a hexadecimal digit value.
fn hex_digit_str(n: u8) -> (s: &'static str)
    requires
        n < 16,
    ensures
        s@ == seq![hex_digit(n)],
{
    proof {
        reveal_strlit("0");
        reveal_strlit("1");
        reveal_strlit("2");
        reveal_strlit("3");
        reveal_strlit("4");
        reveal_strlit("5");
        reveal_strlit("6");
        reveal_strlit("7");
        reveal_strlit("8");
        reveal_strlit("9");
        reveal_strlit("a");
        reveal_strlit("b");
        reveal_strlit("c");
        reveal_strlit("d");
        reveal_strlit("e");
        reveal_strlit("f");
    }
    if n == 0 {
        "0"
    } else if n == 1 {
        "1"
    } else if n == 2 {
        "2"
    } else if n == 3 {
        "3"
    } else if n == 4 {
        "4"
    } else if n == 5 {
        "5"
    } else if n == 6 {
        "6"
    } else if n == 7 {
        "7"
    } else if n == 8 {
        "8"
    } else if n == 9 {
        "9"
    } else if n == 10 {
        "a"
    } else if n == 11 {
        "b"
    } else if n == 12 {
        "c"
    } else if n == 13 {
        "d"
    } else if n == 14 {
        "e"
    } else {
        "f"
    }
}

/// A binary hash digest, tagged with the algorithm that produced it.
///
/// Byte-for-byte equality of the digest bytes is the digest's equality
/// semantics.
#[derive(Debug)]
pub struct Digest {
    bytes: Vec<u8>,
    algorithm: Algorithm,
}

impl PartialEq for Digest {
    /// Two digests are equal exactly when their bytes are, byte for byte.
    fn eq(&self, other: &Digest) -> (r: bool) {
        if self.bytes.len() != other.bytes.len() {
            return false;
        }
        let mut i: usize = 0;
        while i < self.bytes.len()
            invariant
                i <= self.bytes@.len(),
                self.bytes@.len() == other.bytes@.len(),
                forall|j: int| 0 <= j < i ==> self.bytes@[j] == other.bytes@[j],
            decreases self.bytes@.len() - i,
        {
            if self.bytes[i] != other.bytes[i] {
                return false;
            }
            i = i + 1;
        }
        proof {
            assert(self.bytes@ =~= other.bytes@);
        }
        true
    }
}

impl vstd::std_specs::cmp::PartialEqSpecImpl for Digest {
    open spec fn obeys_eq_spec() -> bool {
        true
    }

    open spec fn eq_spec(&self, other: &Digest) -> bool {
        self.spec_bytes() == other.spec_bytes()
    }
}

impl Digest {
    /// The digest's bytes.
    pub closed spec fn spec_bytes(&self) -> Seq<u8> {
        self.bytes@
    }

    /// The algorithm that produced the digest.
    pub closed spec fn spec_algorithm(&self) -> Algorithm {
        self.algorithm
    }

    /// Get the algorithm that was used to compute the digest.
    pub fn algorithm(&self) -> (a: Algorithm)
        ensures
            a == self.spec_algorithm(),
    {
        self.algorithm
    }

    /// The digest's bytes.
    pub fn as_bytes(&self) -> (b: &[u8])
        ensures
            b@ == self.spec_bytes(),
    {
        self.bytes.as_slice()
    }

    /// Convert the digest into a hex-encoded string: two lower-case digits
    /// per byte, high nibble first.
    pub fn to_hex_string(&self) -> (s: String)
        ensures
            s@ == hex_chars(self.spec_bytes()),
    {
        let mut s = String::new();
        let mut i: usize = 0;
        while i < self.bytes.len()
            invariant
                i <= self.bytes@.len(),
                s@ == hex_chars(self.bytes@.take(i as int)),
            decreases self.bytes@.len() - i,
        {
            let b = self.bytes[i];
            s.append(hex_digit_str(b / 16));
            s.append(hex_digit_str(b % 16));
            proof {
                lemma_hex_chars_push(self.bytes@.take(i as int), b);
                assert(self.bytes@.take(i as int).push(b) =~= self.bytes@.take(i + 1 as int));
                assert(s@ =~= hex_chars(self.bytes@.take(i + 1 as int)));
            }
            i = i + 1;
        }
        proof {
            assert(self.bytes@.take(self.bytes@.len() as int) =~= self.bytes@);
        }
        s
    }
}

/// The pull-driven state of a digest adapter.
enum HashPhase {
    /// Forwarding chunks and accumulating the digest.
    Active,
    /// The engine faulted; every further pull reports the fault again.
    Failed,
}

/// Stream adapter that computes a hash over the data while forwarding it.
///
/// Every chunk the inner producer yields is fed into the running digest
/// engine and then passed on unchanged; readiness and end-of-data signals are
/// forwarded as they are.
pub struct Hash<S> {
    core: HashCore,
    inner: S,
    phase: HashPhase,
    fault: Option<Error>,
    hist: Ghost<Seq<Seq<u8>>>,
    base: Ghost<Seq<Seq<u8>>>,
    digested: Ghost<Seq<u8>>,
    fails: Ghost<nat>,
}

impl<S: ByteStream> Hash<S> {
    /// The algorithm this adapter hashes with.
    pub closed spec fn spec_algo(&self) -> Algorithm {
        self.core.spec_algo()
    }

    /// The chunks the inner producer has yielded since this adapter was
    /// created: the adapter's own input.
    pub closed spec fn consumed(&self) -> Seq<Seq<u8>> {
        self.inner.history().skip(self.base@.len() as int)
    }

    /// The bytes accumulated since the last digest retrieval.
    pub closed spec fn pending(&self) -> Seq<u8> {
        self.core.fed_bytes()
    }

    /// The bytes consumed by earlier digest retrievals.
    pub closed spec fn digested(&self) -> Seq<u8> {
        self.digested@
    }

    /// The inner producer this adapter pulls from.
    pub closed spec fn spec_inner(&self) -> S {
        self.inner
    }

    /// Whether the adapter is still live (it has not seen an engine fault).
    pub closed spec fn active(&self) -> bool {
        self.phase is Active
    }

    /// Whether the adapter saw an engine fault; a faulted adapter reports
    /// the recorded fault on every later pull and never digests again.
    pub closed spec fn failed(&self) -> bool {
        self.phase is Failed
    }

    /// Given an algorithm, create a new stream adapter.
    ///
    /// On failure the inner producer is handed back, so the caller keeps
    /// ownership of it.
    pub fn new(algo: Algorithm, inner: S) -> (r: Result<Hash<S>, (Error, S)>)
        requires
            inner.inv(),
        ensures
            (match r {
                Ok(h) => {
                    &&& h.inv()
                    &&& h.active()
                    &&& h.spec_inner() == inner
                    &&& h.spec_algo() == algo
                    &&& h.history() == Seq::<Seq<u8>>::empty()
                    &&& h.consumed() == Seq::<Seq<u8>>::empty()
                    &&& h.pending() == Seq::<u8>::empty()
                    &&& h.digested() == Seq::<u8>::empty()
                    &&& h.failures() == 0
                    &&& h.done() == inner.done()
                },
                Err(p) => p.1 == inner && p.0 is Engine,
            }),
    {
        match HashCore::new(algo) {
            Ok(core) => {
                let ghost b = inner.history();
                let h = Hash {
                    core,
                    inner,
                    phase: HashPhase::Active,
                    fault: None,
                    hist: Ghost(Seq::empty()),
                    base: Ghost(b),
                    digested: Ghost(Seq::empty()),
                    fails: Ghost(0),
                };
                proof {
                    assert(h.consumed() =~= Seq::<Seq<u8>>::empty());
                    assert(h.consumed().flatten() =~= Seq::<u8>::empty());
                }
                Ok(h)
            },
            Err(e) => Err((e, inner)),
        }
    }

    /// Compute the hash digest of everything seen since the last retrieval
    /// and reset the internal hashing state, so the adapter afterwards
    /// digests the next segment of the same stream.
    ///
    /// A retrieval failure is fatal to the adapter: the stream state it
    /// forwards is unaffected, but no further digesting happens.
    pub fn digest(&mut self) -> (r: Result<Digest, Error>)
        requires
            old(self).inv(),
            old(self).active(),
        ensures
            final(self).inv(),
            final(self).spec_algo() == old(self).spec_algo(),
            final(self).spec_inner() == old(self).spec_inner(),
            final(self).history() == old(self).history(),
            final(self).consumed() == old(self).consumed(),
            final(self).failures() == old(self).failures(),
            final(self).done() == old(self).done() || !final(self).active(),
            (match r {
                Ok(d) => {
                    &&& final(self).active()
                    &&& d.spec_algorithm() == old(self).spec_algo()
                    &&& d.spec_bytes() == digest_bytes(old(self).spec_algo(), old(self).pending())
                    &&& d.spec_bytes().len() == old(self).spec_algo().spec_digest_len()
                    &&& final(self).pending() == Seq::<u8>::empty()
                    &&& final(self).digested() == old(self).digested() + old(self).pending()
                },
                Err(e) => e is Engine && !final(self).active(),
            }),
    {
        match self.core.digest() {
            Ok(d) => {
                self.digested = Ghost(self.digested@ + old(self).pending());
                Ok(d)
            },
            Err(e) => {
                self.fault = Some(e.duplicate());
                self.phase = HashPhase::Failed;
                Err(e)
            },
        }
    }

    /// Extract the underlying stream.
    pub fn into_inner(self) -> (r: S)
        ensures
            r == self.spec_inner(),
    {
        self.inner
    }

    /// One pull, with the digest bookkeeping in the contract: chunks pass
    /// through unchanged while extending the pending bytes, and the adapter
    /// stays live on every outcome but an engine fault.
    pub fn poll_next(&mut self) -> (r: PollOutcome)
        requires
            old(self).inv(),
        ensures
            final(self).inv(),
            final(self).spec_algo() == old(self).spec_algo(),
            final(self).digested() == old(self).digested(),
            (match r {
                PollOutcome::Pending => {
                    &&& final(self).history() == old(self).history()
                    &&& final(self).consumed() == old(self).consumed()
                    &&& final(self).pending() == old(self).pending()
                    &&& final(self).active() == old(self).active()
                    &&& final(self).failed() == old(self).failed()
                    &&& final(self).done() == old(self).done()
                    &&& final(self).failures() == old(self).failures()
                    &&& final(self).spec_inner().script() == old(self).spec_inner().script()
                },
                PollOutcome::Item(c) => {
                    &&& old(self).active() && final(self).active()
                    &&& !old(self).done()
                    &&& final(self).history() == old(self).history().push(c@)
                    &&& final(self).consumed() == old(self).consumed().push(c@)
                    &&& final(self).pending() == old(self).pending() + c@
                    &&& final(self).failures() == old(self).failures()
                    &&& (old(self).spec_inner().script() matches Some(s) ==> s.len() > 0 && c@
                        == s[0] && final(self).spec_inner().script() == Some(s.skip(1)))
                },
                PollOutcome::Done => {
                    &&& final(self).history() == old(self).history()
                    &&& final(self).consumed() == old(self).consumed()
                    &&& final(self).pending() == old(self).pending()
                    &&& final(self).active() == old(self).active()
                    &&& final(self).failed() == old(self).failed()
                    &&& final(self).done()
                    &&& final(self).failures() == old(self).failures()
                    &&& final(self).spec_inner().script() == old(self).spec_inner().script()
                    &&& (final(self).spec_inner().script() matches Some(s) ==> s.len() == 0)
                },
                PollOutcome::Failed(e) => {
                    &&& final(self).history() == old(self).history()
                    &&& final(self).done() == old(self).done()
                    &&& final(self).failures() == old(self).failures() + 1
                    &&& (if old(self).failed() {
                        // Permanently faulted: the recorded engine fault is
                        // reported again and nothing changes.
                        &&& e is Engine
                        &&& final(self).failed()
                        &&& final(self).consumed() == old(self).consumed()
                        &&& final(self).pending() == old(self).pending()
                        &&& final(self).spec_inner() == old(self).spec_inner()
                    } else if final(self).failed() {
                        // The engine faulted on this pull: fatal, and the
                        // chunk it was fed is never emitted.
                        &&& e is Engine
                        &&& old(self).active()
                        &&& final(self).spec_inner().failures() == old(self).spec_inner().failures()
                        &&& final(self).consumed() == old(self).consumed().push(
                            final(self).consumed().last(),
                        )
                    } else {
                        // The inner producer itself failed this pull; the
                        // failure is forwarded without an engine call.
                        &&& old(self).active() && final(self).active()
                        &&& final(self).consumed() == old(self).consumed()
                        &&& final(self).pending() == old(self).pending()
                        &&& final(self).spec_inner().failures() == old(self).spec_inner().failures()
                            + 1
                    })
                },
            }),
            old(self).done() ==> r is Done,
            old(self).failed() ==> r is Failed,
    {
        match self.phase {
            HashPhase::Failed => {
                match &self.fault {
                    Some(e) => {
                        self.fails = Ghost(self.fails@ + 1);
                        PollOutcome::Failed(e.duplicate())
                    },
                    None => unreached(),
                }
            },
            HashPhase::Active => {
                match self.inner.poll() {
                    PollOutcome::Pending => PollOutcome::Pending,
                    PollOutcome::Failed(e) => {
                        self.fails = Ghost(self.fails@ + 1);
                        PollOutcome::Failed(e)
                    },
                    PollOutcome::Done => PollOutcome::Done,
                    PollOutcome::Item(c) => {
                        proof {
                            old(self).consumed().lemma_flatten_push(c@);
                            assert(self.consumed() =~= old(self).consumed().push(c@));
                        }
                        match self.core.update(&c) {
                            Ok(_) => {
                                self.hist = Ghost(self.hist@.push(c@));
                                proof {
                                    assert(self.base@.is_prefix_of(self.inner.history()));
                                    assert(self.hist@ == self.consumed());
                                    assert(self.digested@ + self.core.fed_bytes()
                                        == self.consumed().flatten());
                                }
                                PollOutcome::Item(c)
                            },
                            Err(e) => {
                                self.fault = Some(e.duplicate());
                                self.phase = HashPhase::Failed;
                                self.fails = Ghost(self.fails@ + 1);
                                PollOutcome::Failed(e)
                            },
                        }
                    },
                }
            },
        }
    }

    /// Split the stream adapter into two halves, one to receive the computed
    /// digest, and one to compute the hash over the stream.
    ///
    /// This serves situations where ownership of the stream carrying the
    /// data must be transferred to a consumer that does not return it, while
    /// the caller still wants the digest once the stream has been fully
    /// processed.
    ///
    /// The receiving half ([`SplitDigest`]) resolves with the digest as soon
    /// as the computing half has processed the whole stream, with "no digest"
    /// if the computing half is dropped early, or with the fault the
    /// computing half recorded.
    ///
    /// The computing half ([`SplitHash`]), like `Hash` itself, forwards the
    /// data of its underlying stream while hashing it; at the stream's end it
    /// retrieves the final digest and delivers it into the slot.
    pub fn split(self) -> (r: (SplitDigest, SplitHash<S>))
        requires
            self.inv(),
            self.active(),
        ensures
            !r.0.spec_resolved(),
            r.1.inv(),
            r.1.active(),
            r.1.spec_inner() == self.spec_inner(),
            r.1.spec_algo() == self.spec_algo(),
            r.1.history() == self.history(),
            r.1.consumed() == self.consumed(),
            r.1.pending() == self.pending(),
            r.1.digested() == self.digested(),
            r.1.delivered() is None,
            r.1.failures() == self.failures(),
            !r.1.done(),
    {
        let (tx, rx) = digest_channel();
        let receive = SplitDigest { receiver: rx, resolved: false };
        let compute = SplitHash {
            core: self.core,
            inner: self.inner,
            phase: SplitPhase::Active,
            fault: None,
            sender: Some(tx),
            hist: self.hist,
            base: self.base,
            digested: self.digested,
            delivered: Ghost(None),
            sealed: Ghost(Seq::empty()),
            fails: Ghost(self.fails@),
        };
        (receive, compute)
    }
}

impl<S: ByteStream> ByteStream for Hash<S> {
    closed spec fn inv(&self) -> bool {
        &&& self.inner.inv()
        &&& self.base@.is_prefix_of(self.inner.history())
        &&& (match self.phase {
            HashPhase::Active => {
                &&& !self.core.spec_dead()
                &&& self.hist@ == self.consumed()
                &&& self.digested@ + self.core.fed_bytes() == self.consumed().flatten()
            },
            HashPhase::Failed => self.fault matches Some(f) && f is Engine,
        })
    }

    closed spec fn history(&self) -> Seq<Seq<u8>> {
        self.hist@
    }

    closed spec fn done(&self) -> bool {
        self.phase is Active && self.inner.done()
    }

    closed spec fn failures(&self) -> nat {
        self.fails@
    }

    open spec fn script(&self) -> Option<Seq<Seq<u8>>> {
        if self.active() {
            self.spec_inner().script()
        } else {
            None
        }
    }

    fn poll(&mut self) -> (r: PollOutcome) {
        self.poll_next()
    }
}

/// Digest pass-through law: a live digest adapter has emitted exactly the
/// chunks its inner producer yielded it, unaltered and in order, and signals
/// its own end-of-data exactly when the inner producer has.
pub proof fn lemma_digest_pass_through<S: ByteStream>(h: &Hash<S>)
    requires
        h.inv(),
        h.active(),
    ensures
        h.history() == h.consumed(),
        h.done() == h.spec_inner().done(),
{
}

/// Declares the sending half of futures' one-shot channel; opaque to the
/// library.
#[verifier::external_type_specification]
#[verifier::external_body]
#[verifier::reject_recursive_types(T)]
pub struct ExOneshotSender<T>(futures::channel::oneshot::Sender<T>);

/// Declares the receiving half of futures' one-shot channel; opaque to the
/// library.
#[verifier::external_type_specification]
#[verifier::external_body]
#[verifier::reject_recursive_types(T)]
pub struct ExOneshotReceiver<T>(futures::channel::oneshot::Receiver<T>);

/// Declares the cancellation marker of futures' one-shot channel; opaque to
/// the library.
#[verifier::external_type_specification]
#[verifier::external_body]
pub struct ExCanceled(futures::channel::oneshot::Canceled);

/// What one non-blocking check of the receiving half saw.
enum SlotPoll {
    /// Nothing has been delivered yet and the sending half is still alive.
    Empty,
    /// The delivered value.
    Value(Result<Digest, Error>),
    /// The sending half was dropped without delivering.
    Abandoned,
}

/// Relies on `futures::channel::oneshot::channel`: a fresh, unused one-shot
/// pair whose receiving half observes what the sending half does with it.
#[verifier::external_body]
fn digest_channel() -> (
    futures::channel::oneshot::Sender<Result<Digest, Error>>,
    futures::channel::oneshot::Receiver<Result<Digest, Error>>,
) {
    futures::channel::oneshot::channel()
}

/// Relies on `futures::channel::oneshot::Sender::send`: it hands the value to
/// the receiving half, or returns it back when that half is already gone.
#[verifier::external_body]
fn digest_send(
    tx: futures::channel::oneshot::Sender<Result<Digest, Error>>,
    value: Result<Digest, Error>,
) -> (r: Result<(), Result<Digest, Error>>)
    ensures
        r matches Err(v) ==> v == value,
{
    tx.send(value)
}

/// Relies on `futures::channel::oneshot::Receiver::try_recv`: it never blocks
/// and reports the delivered value, "nothing yet", or that the sending half
/// was dropped without delivering.
#[verifier::external_body]
fn digest_try_recv(rx: &mut futures::channel::oneshot::Receiver<Result<Digest, Error>>) -> (r:
    SlotPoll)
{
    match rx.try_recv() {
        Ok(Some(v)) => SlotPoll::Value(v),
        Ok(None) => SlotPoll::Empty,
        Err(_) => SlotPoll::Abandoned,
    }
}

/// One pull of the receiving half of a split hashing process.
pub enum DigestPoll {
    /// The computing half has not resolved the slot yet; poll again later.
    Pending,
    /// The computed digest.
    Resolved(Digest),
    /// The computing half was dropped before reaching end-of-data; there is
    /// no digest, which is distinct from a fault.
    Abandoned,
    /// The computing half recorded a digest-retrieval failure.
    Failed(Error),
}

/// The receiving half of a split hashing process: a single-resolution source
/// of the final digest.
///
/// It resolves with the digest as soon as the computing half has processed
/// the whole stream, with [`DigestPoll::Abandoned`] when the computing half
/// is dropped prematurely, and with the recorded fault when digest retrieval
/// failed at the stream's end.
///
/// See [`Hash::split`] for more information.
pub struct SplitDigest {
    receiver: futures::channel::oneshot::Receiver<Result<Digest, Error>>,
    resolved: bool,
}

impl SplitDigest {
    /// Whether a non-`Pending` outcome has been returned; the slot resolves
    /// only once.
    pub closed spec fn spec_resolved(&self) -> bool {
        self.resolved
    }

    /// Check the completion slot once, without blocking.
    pub fn poll_digest(&mut self) -> (r: DigestPoll)
        requires
            !old(self).spec_resolved(),
        ensures
            final(self).spec_resolved() <==> !(r is Pending),
    {
        match digest_try_recv(&mut self.receiver) {
            SlotPoll::Empty => DigestPoll::Pending,
            SlotPoll::Value(Ok(d)) => {
                self.resolved = true;
                DigestPoll::Resolved(d)
            },
            SlotPoll::Value(Err(e)) => {
                self.resolved = true;
                DigestPoll::Failed(e)
            },
            SlotPoll::Abandoned => {
                self.resolved = true;
                DigestPoll::Abandoned
            },
        }
    }
}

/// The pull-driven state of the computing half.
enum SplitPhase {
    /// Forwarding chunks and accumulating the digest.
    Active,
    /// End-of-data was reached and the slot has been resolved.
    Sent,
    /// The engine faulted while streaming; every further pull reports the
    /// fault again.
    Failed,
}

/// The computing half of a split hashing process.
///
/// It forwards its underlying stream like [`Hash`] does; when the stream
/// signals end-of-data it retrieves the final digest, delivers the result —
/// success or failure — into the completion slot, and only then signals its
/// own end.  Dropping it before that point abandons the slot instead.
///
/// See [`Hash::split`] for more information.
pub struct SplitHash<S> {
    core: HashCore,
    inner: S,
    phase: SplitPhase,
    fault: Option<Error>,
    sender: Option<futures::channel::oneshot::Sender<Result<Digest, Error>>>,
    hist: Ghost<Seq<Seq<u8>>>,
    base: Ghost<Seq<Seq<u8>>>,
    digested: Ghost<Seq<u8>>,
    delivered: Ghost<Option<Result<Seq<u8>, ()>>>,
    sealed: Ghost<Seq<u8>>,
    fails: Ghost<nat>,
}

impl<S: ByteStream> SplitHash<S> {
    /// The algorithm this adapter hashes with.
    pub closed spec fn spec_algo(&self) -> Algorithm {
        self.core.spec_algo()
    }

    /// The chunks the inner producer has yielded since the original digest
    /// adapter was created.
    pub closed spec fn consumed(&self) -> Seq<Seq<u8>> {
        self.inner.history().skip(self.base@.len() as int)
    }

    /// The bytes accumulated and not yet covered by a digest.
    pub closed spec fn pending(&self) -> Seq<u8> {
        self.core.fed_bytes()
    }

    /// The bytes consumed by digest retrievals made before the split.
    pub closed spec fn digested(&self) -> Seq<u8> {
        self.digested@
    }

    /// What was delivered into the completion slot: `None` while streaming,
    /// then either the digest's bytes or a recorded failure.
    pub closed spec fn delivered(&self) -> Option<Result<Seq<u8>, ()>> {
        self.delivered@
    }

    /// The bytes whose digest was delivered.
    pub closed spec fn sealed_bytes(&self) -> Seq<u8> {
        self.sealed@
    }

    /// The inner producer this adapter pulls from.
    pub closed spec fn spec_inner(&self) -> S {
        self.inner
    }

    /// Whether the adapter is still streaming: it has neither delivered the
    /// final digest nor seen an engine fault.
    pub closed spec fn active(&self) -> bool {
        self.phase is Active
    }

    /// Whether the adapter saw an engine fault while streaming; a faulted
    /// adapter reports the recorded fault on every later pull and never
    /// delivers into the slot.
    pub closed spec fn failed(&self) -> bool {
        self.phase is Failed
    }

    /// Extract the underlying stream.  The completion slot is abandoned: the
    /// receiving half resolves to "no digest".
    pub fn into_inner(self) -> (r: S)
        ensures
            r == self.spec_inner(),
    {
        self.inner
    }

    /// One pull, with the whole transition in the contract: chunks pass
    /// through unchanged while extending the pending bytes; the inner
    /// producer's end makes the adapter deliver the digest of everything the
    /// stream carried past the split into the slot — once, before its own
    /// end signal, after which nothing changes; an engine fault is permanent
    /// and reported on every later pull; an inner failure is forwarded and
    /// changes nothing.
    pub fn poll_next(&mut self) -> (r: PollOutcome)
        requires
            old(self).inv(),
        ensures
            final(self).inv(),
            final(self).spec_algo() == old(self).spec_algo(),
            final(self).digested() == old(self).digested(),
            (match r {
                PollOutcome::Pending => {
                    &&& final(self).history() == old(self).history()
                    &&& final(self).consumed() == old(self).consumed()
                    &&& final(self).pending() == old(self).pending()
                    &&& final(self).active() == old(self).active()
                    &&& final(self).failed() == old(self).failed()
                    &&& final(self).done() == old(self).done()
                    &&& final(self).delivered() == old(self).delivered()
                    &&& final(self).sealed_bytes() == old(self).sealed_bytes()
                    &&& final(self).failures() == old(self).failures()
                    &&& final(self).spec_inner().script() == old(self).spec_inner().script()
                },
                PollOutcome::Item(c) => {
                    &&& old(self).active() && final(self).active()
                    &&& !old(self).done() && !final(self).done()
                    &&& final(self).history() == old(self).history().push(c@)
                    &&& final(self).consumed() == old(self).consumed().push(c@)
                    &&& final(self).pending() == old(self).pending() + c@
                    &&& final(self).delivered() is None
                    &&& final(self).failures() == old(self).failures()
                    &&& (old(self).spec_inner().script() matches Some(s) ==> s.len() > 0 && c@
                        == s[0] && final(self).spec_inner().script() == Some(s.skip(1)))
                },
                PollOutcome::Done => {
                    &&& final(self).done()
                    &&& final(self).history() == old(self).history()
                    &&& final(self).consumed() == old(self).consumed()
                    &&& final(self).failures() == old(self).failures()
                    &&& final(self).spec_inner().script() == old(self).spec_inner().script()
                    &&& (final(self).spec_inner().script() matches Some(s) ==> s.len() == 0)
                    &&& (if old(self).done() {
                        // Idempotent end: the slot was written on the one
                        // delivering pull and never again.
                        &&& final(self).delivered() == old(self).delivered()
                        &&& final(self).sealed_bytes() == old(self).sealed_bytes()
                    } else {
                        // The delivering pull: the slot gets the digest of
                        // the bytes carried past the split, or the recorded
                        // retrieval failure.
                        &&& old(self).active()
                        &&& final(self).sealed_bytes() == old(self).pending()
                        &&& final(self).delivered() matches Some(res) && (res matches Ok(b)
                            ==> b == digest_bytes(old(self).spec_algo(), old(self).pending()))
                    })
                },
                PollOutcome::Failed(e) => {
                    &&& !old(self).done() && !final(self).done()
                    &&& final(self).history() == old(self).history()
                    &&& final(self).delivered() is None
                    &&& final(self).failures() == old(self).failures() + 1
                    &&& (if old(self).failed() {
                        // Permanently faulted: the recorded engine fault is
                        // reported again and nothing changes.
                        &&& e is Engine
                        &&& final(self).failed()
                        &&& final(self).consumed() == old(self).consumed()
                        &&& final(self).spec_inner() == old(self).spec_inner()
                    } else if final(self).failed() {
                        // The engine faulted on this pull: fatal, and the
                        // chunk it was fed is never emitted.
                        &&& e is Engine
                        &&& old(self).active()
                        &&& final(self).spec_inner().failures() == old(self).spec_inner().failures()
                        &&& final(self).consumed() == old(self).consumed().push(
                            final(self).consumed().last(),
                        )
                    } else {
                        // The inner producer itself failed this pull; the
                        // failure is forwarded without an engine call.
                        &&& old(self).active() && final(self).active()
                        &&& final(self).consumed() == old(self).consumed()
                        &&& final(self).pending() == old(self).pending()
                        &&& final(self).spec_inner().failures() == old(self).spec_inner().failures()
                            + 1
                    })
                },
            }),
            old(self).done() ==> r is Done,
            old(self).failed() ==> r is Failed,
    {
        match self.phase {
            SplitPhase::Sent => PollOutcome::Done,
            SplitPhase::Failed => {
                match &self.fault {
                    Some(e) => {
                        self.fails = Ghost(self.fails@ + 1);
                        PollOutcome::Failed(e.duplicate())
                    },
                    None => unreached(),
                }
            },
            SplitPhase::Active => {
                match self.inner.poll() {
                    PollOutcome::Pending => PollOutcome::Pending,
                    PollOutcome::Failed(e) => {
                        self.fails = Ghost(self.fails@ + 1);
                        PollOutcome::Failed(e)
                    },
                    PollOutcome::Item(c) => {
                        proof {
                            old(self).consumed().lemma_flatten_push(c@);
                            assert(self.consumed() =~= old(self).consumed().push(c@));
                        }
                        match self.core.update(&c) {
                            Ok(_) => {
                                self.hist = Ghost(self.hist@.push(c@));
                                proof {
                                    assert(self.base@.is_prefix_of(self.inner.history()));
                                    assert(self.hist@ == self.consumed());
                                    assert(self.digested@ + self.core.fed_bytes()
                                        == self.consumed().flatten());
                                }
                                PollOutcome::Item(c)
                            },
                            Err(e) => {
                                self.fault = Some(e.duplicate());
                                self.phase = SplitPhase::Failed;
                                self.fails = Ghost(self.fails@ + 1);
                                PollOutcome::Failed(e)
                            },
                        }
                    },
                    PollOutcome::Done => {
                        let ghost fed_now = self.core.fed_bytes();
                        match self.sender.take() {
                            Some(tx) => {
                                match self.core.digest() {
                                    Ok(d) => {
                                        self.delivered = Ghost(Some(Ok(d.spec_bytes())));
                                        self.sealed = Ghost(fed_now);
                                        let _ = digest_send(tx, Ok(d));
                                    },
                                    Err(e) => {
                                        self.delivered = Ghost(Some(Err(())));
                                        self.sealed = Ghost(fed_now);
                                        let _ = digest_send(tx, Err(e));
                                    },
                                }
                                self.phase = SplitPhase::Sent;
                                proof {
                                    assert(self.base@.is_prefix_of(self.inner.history()));
                                    assert(self.hist@ == self.consumed());
                                    assert(self.digested@ + self.sealed@
                                        == self.consumed().flatten());
                                    assert(match self.inner.script() {
                                        Some(s) => s.len() == 0,
                                        None => true,
                                    });
                                }
                                PollOutcome::Done
                            },
                            None => unreached(),
                        }
                    },
                }
            },
        }
    }
}

impl<S: ByteStream> ByteStream for SplitHash<S> {
    closed spec fn inv(&self) -> bool {
        &&& self.inner.inv()
        &&& self.base@.is_prefix_of(self.inner.history())
        &&& (match self.phase {
            SplitPhase::Active => {
                &&& !self.core.spec_dead()
                &&& self.sender is Some
                &&& self.delivered@ is None
                &&& self.hist@ == self.consumed()
                &&& self.digested@ + self.core.fed_bytes() == self.consumed().flatten()
            },
            SplitPhase::Sent => {
                &&& self.inner.done()
                &&& (self.inner.script() matches Some(s) ==> s.len() == 0)
                &&& self.hist@ == self.consumed()
                &&& self.digested@ + self.sealed@ == self.consumed().flatten()
                &&& (match self.delivered@ {
                    Some(res) => (match res {
                        Ok(b) => b == digest_bytes(self.core.spec_algo(), self.sealed@),
                        Err(_) => true,
                    }),
                    None => false,
                })
            },
            SplitPhase::Failed => self.fault matches Some(f) && f is Engine && self.delivered@
                is None,
        })
    }

    closed spec fn history(&self) -> Seq<Seq<u8>> {
        self.hist@
    }

    closed spec fn done(&self) -> bool {
        self.phase is Sent
    }

    closed spec fn failures(&self) -> nat {
        self.fails@
    }

    open spec fn script(&self) -> Option<Seq<Seq<u8>>> {
        if self.failed() {
            None
        } else {
            self.spec_inner().script()
        }
    }

    fn poll(&mut self) -> (r: PollOutcome) {
        self.poll_next()
    }
}

/// Split pass-through law: while the computing half is still streaming, it
/// has emitted exactly the chunks its inner producer yielded it, unaltered
/// and in order, and has resolved nothing — the split is invisible to the
/// data consumer until end-of-data.
pub proof fn lemma_split_pass_through<S: ByteStream>(sh: &SplitHash<S>)
    requires
        sh.inv(),
        sh.active(),
    ensures
        sh.history() == sh.consumed(),
        !sh.done(),
        sh.delivered() is None,
{
}

/// Split delivery law: once the computing half has signalled its own end, it
/// has resolved the completion slot, and a successfully delivered digest is
/// exactly the digest of the bytes the stream carried past the split — the
/// same value a non-split adapter's final digest retrieval yields over that
/// stream.
pub proof fn lemma_split_delivery<S: ByteStream>(sh: &SplitHash<S>)
    requires
        sh.inv(),
        sh.done(),
    ensures
        sh.delivered() is Some,
        (match sh.delivered() {
            Some(Ok(b)) => b == digest_bytes(sh.spec_algo(), sh.sealed_bytes())
                && sh.digested() + sh.sealed_bytes() == sh.consumed().flatten(),
            _ => true,
        }),
        sh.history() == sh.consumed(),
{
}

} // verus!
