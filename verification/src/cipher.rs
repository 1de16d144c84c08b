//! Symmetric ciphers for encryption and decryption of byte-chunk streams.
//!
//! A [`Config`] carries an [`Algorithm`] together with key and IV buffers
//! sized to the algorithm's requirements.  From a valid configuration and an
//! inner [`ByteStream`](crate::stream::ByteStream), [`Encrypt`] and
//! [`Decrypt`] build adapters that transform the inner producer's bytes while
//! preserving its flow control.  [`CipherCore`] is the chunk-level engine the
//! adapters drive; callers that run their own pull loop can drive it
//! directly.

use vstd::prelude::*;

use openssl::symm::Cipher;
use vstd::pervasive::unreached;

use crate::error::Error;
use crate::stream::{ByteStream, PollOutcome};

verus! {

/// Upper bound, over all supported algorithms, of the required key length.
pub const MAX_KEY_LEN: usize = 32;

/// Upper bound, over all supported algorithms, of the required IV length.
pub const MAX_IV_LEN: usize = 16;

/// Algorithm that can be used to encrypt or decrypt data.
#[derive(Clone, Copy, Debug, PartialEq, Eq, Structural)]
pub enum Algorithm {
    /// AES with 128-bit keys in Electronic Codebook mode.
    Aes128Ecb,
    /// AES with 128-bit keys in Cipher Block Chaining mode.
    Aes128Cbc,
    /// AES with 128-bit keys in Counter mode.
    Aes128Ctr,
    /// AES with 128-bit keys in Cipher Feedback mode with 1-bit feedback.
    Aes128Cfb1,
    /// AES with 128-bit keys in Cipher Feedback mode with 128-bit feedback.
    Aes128Cfb128,
    /// AES with 128-bit keys in Cipher Feedback mode with 8-bit feedback.
    Aes128Cfb8,
    /// AES with 256-bit keys in Electronic Codebook mode.
    Aes256Ecb,
    /// AES with 256-bit keys in Cipher Block Chaining mode.
    Aes256Cbc,
    /// AES with 256-bit keys in Counter mode.
    Aes256Ctr,
    /// AES with 256-bit keys in Cipher Feedback mode with 1-bit feedback.
    Aes256Cfb1,
    /// AES with 256-bit keys in Cipher Feedback mode with 128-bit feedback.
    Aes256Cfb128,
    /// AES with 256-bit keys in Cipher Feedback mode with 8-bit feedback.
    Aes256Cfb8,
}

/// Whether an adapter transforms plaintext to ciphertext or back.
#[derive(Clone, Copy, Debug, PartialEq, Eq, Structural)]
pub enum Mode {
    /// Transform plaintext into ciphertext.
    Encrypt,
    /// Transform ciphertext back into plaintext.
    Decrypt,
}

impl Algorithm {
    /// The key length the algorithm requires, in bytes.
    pub open spec fn spec_key_len(self) -> usize {
        match self {
            Algorithm::Aes128Ecb => 16usize,
            Algorithm::Aes128Cbc => 16usize,
            Algorithm::Aes128Ctr => 16usize,
            Algorithm::Aes128Cfb1 => 16usize,
            Algorithm::Aes128Cfb128 => 16usize,
            Algorithm::Aes128Cfb8 => 16usize,
            Algorithm::Aes256Ecb => 32usize,
            Algorithm::Aes256Cbc => 32usize,
            Algorithm::Aes256Ctr => 32usize,
            Algorithm::Aes256Cfb1 => 32usize,
            Algorithm::Aes256Cfb128 => 32usize,
            Algorithm::Aes256Cfb8 => 32usize,
        }
    }

    /// The IV length the algorithm requires, or `None` if it takes no IV.
    pub open spec fn spec_iv_len(self) -> Option<usize> {
        match self {
            Algorithm::Aes128Ecb => None,
            Algorithm::Aes256Ecb => None,
            _ => Some(16usize),
        }
    }

    /// The number of IV bytes the algorithm requires (zero when it takes no
    /// IV).
    pub open spec fn spec_iv_req(self) -> usize {
        match self.spec_iv_len() {
            Some(n) => n,
            None => 0usize,
        }
    }

    /// Get the required key length for the algorithm.
    pub fn key_len(self) -> (n: usize)
        ensures
            n == self.spec_key_len(),
    {
        match self {
            Algorithm::Aes128Ecb
            | Algorithm::Aes128Cbc
            | Algorithm::Aes128Ctr
            | Algorithm::Aes128Cfb1
            | Algorithm::Aes128Cfb128
            | Algorithm::Aes128Cfb8 => 16,
            Algorithm::Aes256Ecb
            | Algorithm::Aes256Cbc
            | Algorithm::Aes256Ctr
            | Algorithm::Aes256Cfb1
            | Algorithm::Aes256Cfb128
            | Algorithm::Aes256Cfb8 => 32,
        }
    }

    /// Get the required IV length for the algorithm.
    ///
    /// Returns `None` if the algorithm does not require an IV.
    pub fn iv_len(self) -> (n: Option<usize>)
        ensures
            n == self.spec_iv_len(),
    {
        match self {
            Algorithm::Aes128Ecb | Algorithm::Aes256Ecb => None,
            _ => Some(16),
        }
    }
}

/// Every supported algorithm's key fits the fixed key buffer bound, and the
/// bound is attained, so the bound is exactly the largest required key
/// length.
pub proof fn lemma_max_key_len()
    ensures
        forall|a: Algorithm| #[trigger] a.spec_key_len() <= MAX_KEY_LEN,
        exists|a: Algorithm| #[trigger] a.spec_key_len() == MAX_KEY_LEN,
{
    assert(Algorithm::Aes256Ecb.spec_key_len() == MAX_KEY_LEN);
}

/// Every supported algorithm's IV fits the fixed IV buffer bound, and the
/// bound is attained, so the bound is exactly the largest required IV length.
pub proof fn lemma_max_iv_len()
    ensures
        forall|a: Algorithm| #[trigger] a.spec_iv_req() <= MAX_IV_LEN,
        exists|a: Algorithm| #[trigger] a.spec_iv_req() == MAX_IV_LEN,
{
    assert(Algorithm::Aes128Cbc.spec_iv_req() == MAX_IV_LEN);
}

/// Configuration for the transform adapters: an algorithm and the key and IV
/// buffers it will consume, each created with exactly the length the
/// algorithm requires.
pub struct Config {
    algo: Algorithm,
    key: Vec<u8>,
    iv: Vec<u8>,
}

impl Config {
    /// The configured algorithm.
    pub closed spec fn spec_algo(&self) -> Algorithm {
        self.algo
    }

    /// The key bytes.
    pub closed spec fn key_bytes(&self) -> Seq<u8> {
        self.key@
    }

    /// The IV bytes (empty when the algorithm takes no IV).
    pub closed spec fn iv_bytes(&self) -> Seq<u8> {
        self.iv@
    }

    /// Whether the key buffer's length matches the algorithm's requirement.
    pub open spec fn key_ok(&self) -> bool {
        self.key_bytes().len() == self.spec_algo().spec_key_len()
    }

    /// Whether the IV buffer's length matches the algorithm's requirement.
    pub open spec fn iv_ok(&self) -> bool {
        self.iv_bytes().len() == self.spec_algo().spec_iv_req()
    }

    /// Whether a transform instance may be created from this configuration.
    pub open spec fn valid(&self) -> bool {
        self.key_ok() && self.iv_ok()
    }

    /// Initialize a config given an algorithm, with zeroed key and IV buffers
    /// of exactly the lengths the algorithm requires.
    pub fn new(algo: Algorithm) -> (c: Config)
        ensures
            c.spec_algo() == algo,
            c.valid(),
            c.key_bytes() =~= Seq::new(algo.spec_key_len() as nat, |i: int| 0u8),
            c.iv_bytes() =~= Seq::new(algo.spec_iv_req() as nat, |i: int| 0u8),
    {
        let iv_req = match algo.iv_len() {
            Some(n) => n,
            None => 0,
        };
        Config { algo, key: zero_vec(algo.key_len()), iv: zero_vec(iv_req) }
    }

    /// Get the mutable key buffer, to set the key to be used for the cipher.
    ///
    /// The buffer starts out with exactly the required length; a caller that
    /// changes its length invalidates the configuration.
    pub fn key_mut(&mut self) -> (k: &mut Vec<u8>)
        ensures
            k@ == old(self).key_bytes(),
            final(self).key_bytes() == final(k)@,
            final(self).spec_algo() == old(self).spec_algo(),
            final(self).iv_bytes() == old(self).iv_bytes(),
    {
        &mut self.key
    }

    /// Get the mutable IV buffer, to set the [initialization vector]
    /// (https://en.wikipedia.org/wiki/Initialization_vector)
    /// to be used for the cipher.
    ///
    /// Returns `None` if the selected algorithm does not require an IV.
    pub fn iv_mut(&mut self) -> (r: Option<&mut Vec<u8>>)
        ensures
            final(self).spec_algo() == old(self).spec_algo(),
            final(self).key_bytes() == old(self).key_bytes(),
            (match old(self).spec_algo().spec_iv_len() {
                None => r is None && final(self).iv_bytes() == old(self).iv_bytes(),
                Some(_) => r is Some && r.unwrap()@ == old(self).iv_bytes()
                    && final(self).iv_bytes() == final(r.unwrap())@,
            }),
    {
        match self.algo.iv_len() {
            None => None,
            Some(_) => Some(&mut self.iv),
        }
    }
}

/// A vector of `n` zero bytes.
fn zero_vec(n: usize) -> (v: Vec<u8>)
    ensures
        v@ =~= Seq::new(n as nat, |i: int| 0u8),
{
    let mut v: Vec<u8> = Vec::new();
    while v.len() < n
        invariant
            v@.len() <= n,
            forall|i: int| 0 <= i < v@.len() ==> v@[i] == 0u8,
        decreases n - v.len(),
    {
        v.push(0);
    }
    v
}

/// Declares openssl's cipher descriptor so the trusted engine constructor can
/// pass it along; opaque to the library.
#[verifier::external_type_specification]
#[verifier::external_body]
pub struct ExCipher(openssl::symm::Cipher);

/// Declares openssl's streaming cipher context; opaque to the library, it is
/// read and advanced only through the trusted wrappers below.
#[verifier::external_type_specification]
#[verifier::external_body]
pub struct ExCrypter(openssl::symm::Crypter);

/// The bytes that openssl's `Crypter` emits from its `update` calls, in
/// total, after the whole of `data` has been fed to an engine created over
/// the given algorithm, mode, key and IV.  A function of those arguments
/// alone: the engine is deterministic.
pub uninterp spec fn update_bytes(
    algo: Algorithm,
    mode: Mode,
    key: Seq<u8>,
    iv: Seq<u8>,
    data: Seq<u8>,
) -> Seq<u8>;

/// The bytes that openssl's `Crypter::finalize` emits when called after the
/// whole of `data` has been fed to an engine created over the given
/// algorithm, mode, key and IV.
pub uninterp spec fn finish_bytes(
    algo: Algorithm,
    mode: Mode,
    key: Seq<u8>,
    iv: Seq<u8>,
    data: Seq<u8>,
) -> Seq<u8>;

/// The engine's complete output over `data`: everything `update` emitted
/// followed by the trailing bytes `finalize` flushes.
pub open spec fn transform_bytes(
    algo: Algorithm,
    mode: Mode,
    key: Seq<u8>,
    iv: Seq<u8>,
    data: Seq<u8>,
) -> Seq<u8> {
    update_bytes(algo, mode, key, iv, data) + finish_bytes(algo, mode, key, iv, data)
}

/// Decrypting what was encrypted under the same algorithm, key and IV gives
/// back the original bytes, whatever they were.
pub open spec fn round_trips(algo: Algorithm, key: Seq<u8>, iv: Seq<u8>) -> bool {
    forall|data: Seq<u8>|
        #[trigger] transform_bytes(
            algo,
            Mode::Decrypt,
            key,
            iv,
            transform_bytes(algo, Mode::Encrypt, key, iv, data),
        ) == data
}

/// A live transform engine: it eats input bytes chunk by chunk, emits
/// transformed bytes, and flushes a trailing block when finalized.
///
/// `fed_bytes()` is the concatenation of everything fed so far; what the
/// engine has emitted for it is pinned by [`update_bytes`] and
/// [`finish_bytes`], so the output depends only on the configuration and the
/// fed bytes, never on how they were chunked.
pub struct CipherCore {
    crypter: openssl::symm::Crypter,
    block: usize,
    algo: Algorithm,
    mode: Mode,
    key: Ghost<Seq<u8>>,
    iv: Ghost<Seq<u8>>,
    fed: Ghost<Seq<u8>>,
    finished: bool,
}

impl CipherCore {
    /// The algorithm the engine was created over.
    pub closed spec fn spec_algo(&self) -> Algorithm {
        self.algo
    }

    /// The direction the engine transforms in.
    pub closed spec fn spec_mode(&self) -> Mode {
        self.mode
    }

    /// The key the engine was created over.
    pub closed spec fn key_bytes(&self) -> Seq<u8> {
        self.key@
    }

    /// The IV the engine was created over (empty when the algorithm takes
    /// none).
    pub closed spec fn iv_bytes(&self) -> Seq<u8> {
        self.iv@
    }

    /// The concatenation of all input bytes fed so far.
    pub closed spec fn fed_bytes(&self) -> Seq<u8> {
        self.fed@
    }

    /// Whether the engine is terminal — finalized, or dead after a fault —
    /// and accepts no further input.
    pub closed spec fn spec_finished(&self) -> bool {
        self.finished
    }

    /// What the engine's `update` calls emit, in total, once `data` has been
    /// fed to an engine with this configuration.
    pub open spec fn upd_of(&self, data: Seq<u8>) -> Seq<u8> {
        update_bytes(self.spec_algo(), self.spec_mode(), self.key_bytes(), self.iv_bytes(), data)
    }

    /// The engine's complete output (updates plus the final flush) over
    /// `data`, for this configuration.
    pub open spec fn transform_of(&self, data: Seq<u8>) -> Seq<u8> {
        transform_bytes(self.spec_algo(), self.spec_mode(), self.key_bytes(), self.iv_bytes(), data)
    }

    /// The engine's configuration is unchanged between two states.
    pub open spec fn same_config(&self, other: &Self) -> bool {
        &&& self.spec_algo() == other.spec_algo()
        &&& self.spec_mode() == other.spec_mode()
        &&& self.key_bytes() == other.key_bytes()
        &&& self.iv_bytes() == other.iv_bytes()
    }

    /// Facts that hold of every engine the trusted constructor hands out:
    /// the key and IV lengths fit the algorithm, an engine that was fed
    /// nothing has emitted nothing, and decryption inverts encryption.
    pub open spec fn wf(&self) -> bool {
        &&& self.key_bytes().len() == self.spec_algo().spec_key_len()
        &&& self.iv_bytes().len() == self.spec_algo().spec_iv_req()
        &&& self.upd_of(Seq::<u8>::empty()) == Seq::<u8>::empty()
        &&& round_trips(self.spec_algo(), self.key_bytes(), self.iv_bytes())
    }

    /// Create a live engine from a configuration, in the given direction.
    ///
    /// Fails with a `KeyLength` or `IvLength` error exactly when the
    /// configuration's buffers do not match the algorithm's requirements; an
    /// `Engine` error means the provider itself rejected the material.
    pub fn new(config: &Config, mode: Mode) -> (r: Result<CipherCore, Error>)
        ensures
            (r is Err && r->Err_0 is KeyLength) <==> !config.key_ok(),
            (r is Err && r->Err_0 is IvLength) <==> (config.key_ok() && !config.iv_ok()),
            r is Err && r->Err_0 is Engine ==> config.valid(),
            (match r {
                Ok(core) => {
                    &&& config.valid()
                    &&& core.wf()
                    &&& core.spec_algo() == config.spec_algo()
                    &&& core.spec_mode() == mode
                    &&& core.key_bytes() == config.key_bytes()
                    &&& core.iv_bytes() == config.iv_bytes()
                    &&& core.fed_bytes() == Seq::<u8>::empty()
                    &&& !core.spec_finished()
                },
                Err(e) => {
                    &&& (e matches Error::KeyLength { expected, actual } ==> expected
                        == config.spec_algo().spec_key_len() && actual == config.key_bytes().len())
                    &&& (e matches Error::IvLength { expected, actual } ==> expected
                        == config.spec_algo().spec_iv_req() && actual == config.iv_bytes().len())
                },
            }),
    {
        let key_req = config.algo.key_len();
        if config.key.len() != key_req {
            return Err(Error::KeyLength { expected: key_req, actual: config.key.len() });
        }
        let iv_req = match config.algo.iv_len() {
            Some(n) => n,
            None => 0,
        };
        if config.iv.len() != iv_req {
            return Err(Error::IvLength { expected: iv_req, actual: config.iv.len() });
        }
        match engine_new(config.algo, mode, &config.key, &config.iv) {
            Ok((crypter, block)) => Ok(
                CipherCore {
                    crypter,
                    block,
                    algo: config.algo,
                    mode,
                    key: Ghost(config.key@),
                    iv: Ghost(config.iv@),
                    fed: Ghost(Seq::empty()),
                    finished: false,
                },
            ),
            Err(stack) => Err(Error::Engine(stack)),
        }
    }

    /// Feed `input` to the engine and get back whatever bytes it emits for
    /// it (possibly none, possibly also previously buffered bytes).
    ///
    /// An `Engine` error is fatal: the engine must be dropped.
    pub fn update(&mut self, input: &Vec<u8>) -> (r: Result<Vec<u8>, Error>)
        requires
            !old(self).spec_finished(),
        ensures
            (match r {
                Ok(out) => {
                    &&& final(self).same_config(old(self))
                    &&& !final(self).spec_finished()
                    &&& final(self).fed_bytes() == old(self).fed_bytes() + input@
                    &&& old(self).upd_of(old(self).fed_bytes()) + out@ == old(self).upd_of(
                        final(self).fed_bytes(),
                    )
                },
                Err(e) => e is Engine && final(self).spec_finished() && final(self).same_config(
                    old(self),
                ),
            }),
    {
        let mut out: Vec<u8> = Vec::new();
        let mut pos: usize = 0;
        while pos < input.len()
            invariant
                !self.spec_finished(),
                self.same_config(old(self)),
                pos <= input@.len(),
                self.fed_bytes() == old(self).fed_bytes() + input@.subrange(0, pos as int),
                old(self).upd_of(old(self).fed_bytes()) + out@ == old(self).upd_of(
                    self.fed_bytes(),
                ),
            decreases input@.len() - pos,
        {
            let end = if input.len() - pos > UPDATE_WINDOW {
                pos + UPDATE_WINDOW
            } else {
                input.len()
            };
            match engine_update(self, input, pos, end) {
                Ok(piece) => {
                    proof {
                        assert(input@.subrange(0, pos as int) + input@.subrange(
                            pos as int,
                            end as int,
                        ) =~= input@.subrange(0, end as int));
                        assert((old(self).upd_of(old(self).fed_bytes()) + out@) + piece@
                            =~= old(self).upd_of(old(self).fed_bytes()) + (out@ + piece@));
                    }
                    let mut piece = piece;
                    out.append(&mut piece);
                    pos = end;
                }
                Err(stack) => {
                    return Err(Error::Engine(stack));
                }
            }
        }
        proof {
            assert(input@.subrange(0, input@.len() as int) =~= input@);
        }
        Ok(out)
    }

    /// Finalize the engine: flush and return its trailing buffered bytes
    /// (possibly none).  The engine is terminal afterwards.
    ///
    /// An `Engine` error is fatal: the engine must be dropped.
    pub fn finalize(&mut self) -> (r: Result<Vec<u8>, Error>)
        requires
            !old(self).spec_finished(),
        ensures
            (match r {
                Ok(out) => {
                    &&& final(self).same_config(old(self))
                    &&& final(self).spec_finished()
                    &&& final(self).fed_bytes() == old(self).fed_bytes()
                    &&& out@ == finish_bytes(
                        old(self).spec_algo(),
                        old(self).spec_mode(),
                        old(self).key_bytes(),
                        old(self).iv_bytes(),
                        old(self).fed_bytes(),
                    )
                },
                Err(e) => e is Engine && final(self).spec_finished() && final(self).same_config(
                    old(self),
                ),
            }),
    {
        match engine_finish(self) {
            Ok(out) => Ok(out),
            Err(stack) => Err(Error::Engine(stack)),
        }
    }
}

/// Window kept under openssl's `c_int` input-length limit when feeding the
/// engine.
const UPDATE_WINDOW: usize = 0x4000_0000;

/// Maps each algorithm to openssl's cipher descriptor; relies on
/// `openssl::symm::Cipher`'s per-algorithm constructors.
#[verifier::external_body]
fn cipher_of(algo: Algorithm) -> openssl::symm::Cipher {
    match algo {
        Algorithm::Aes128Ecb => Cipher::aes_128_ecb(),
        Algorithm::Aes128Cbc => Cipher::aes_128_cbc(),
        Algorithm::Aes128Ctr => Cipher::aes_128_ctr(),
        Algorithm::Aes128Cfb1 => Cipher::aes_128_cfb1(),
        Algorithm::Aes128Cfb128 => Cipher::aes_128_cfb128(),
        Algorithm::Aes128Cfb8 => Cipher::aes_128_cfb8(),
        Algorithm::Aes256Ecb => Cipher::aes_256_ecb(),
        Algorithm::Aes256Cbc => Cipher::aes_256_cbc(),
        Algorithm::Aes256Ctr => Cipher::aes_256_ctr(),
        Algorithm::Aes256Cfb1 => Cipher::aes_256_cfb1(),
        Algorithm::Aes256Cfb128 => Cipher::aes_256_cfb128(),
        Algorithm::Aes256Cfb8 => Cipher::aes_256_cfb8(),
    }
}

/// Builds the live engine and reports its block-size bound.  Relies on
/// `openssl::symm::Crypter::new`: with key and IV buffers of exactly the
/// documented lengths it builds a deterministic streaming engine for the
/// chosen cipher and direction, whose update and finalize outputs are
/// functions of the configuration and the bytes fed (so a fresh engine has
/// emitted nothing), and whose decrypt direction inverts its encrypt
/// direction.  The IV argument is passed only when the cipher requires one,
/// which `Crypter::new` demands.
#[verifier::external_body]
fn engine_new(algo: Algorithm, mode: Mode, key: &Vec<u8>, iv: &Vec<u8>) -> (r: Result<
    (openssl::symm::Crypter, usize),
    openssl::error::ErrorStack,
>)
    requires
        key@.len() == algo.spec_key_len(),
        iv@.len() == algo.spec_iv_req(),
    ensures
        r is Ok ==> update_bytes(algo, mode, key@, iv@, Seq::<u8>::empty()) == Seq::<u8>::empty()
            && round_trips(algo, key@, iv@),
{
    let cipher = cipher_of(algo);
    let direction = match mode {
        Mode::Encrypt => openssl::symm::Mode::Encrypt,
        Mode::Decrypt => openssl::symm::Mode::Decrypt,
    };
    let iv_arg = if iv.is_empty() { None } else { Some(iv.as_slice()) };
    let crypter = openssl::symm::Crypter::new(cipher, direction, key.as_slice(), iv_arg)?;
    Ok((crypter, cipher.block_size()))
}

/// Feeds `input[start..end]` through the engine into a buffer sized to the
/// input plus the cipher's block size, and returns exactly the bytes written.
/// Relies on `openssl::symm::Crypter::update`: that buffer bound cannot be
/// overflowed, the emitted bytes extend the engine's update output as a
/// function of the bytes fed so far, and inputs under the window stay inside
/// its `c_int` limit.
#[verifier::external_body]
fn engine_update(core: &mut CipherCore, input: &Vec<u8>, start: usize, end: usize) -> (r: Result<
    Vec<u8>,
    openssl::error::ErrorStack,
>)
    requires
        !old(core).spec_finished(),
        start <= end <= input@.len(),
        end - start <= UPDATE_WINDOW,
    ensures
        (match r {
            Ok(out) => {
                &&& final(core).same_config(old(core))
                &&& !final(core).spec_finished()
                &&& final(core).fed_bytes() == old(core).fed_bytes() + input@.subrange(
                    start as int,
                    end as int,
                )
                &&& old(core).upd_of(old(core).fed_bytes()) + out@ == old(core).upd_of(
                    final(core).fed_bytes(),
                )
            },
            Err(_) => final(core).spec_finished() && final(core).same_config(old(core)),
        }),
{
    let cap = end - start + core.block;
    let mut buf = vec![0u8; cap];
    match core.crypter.update(&input[start..end], &mut buf) {
        Ok(n) => {
            buf.truncate(n);
            Ok(buf)
        }
        Err(stack) => {
            core.finished = true;
            Err(stack)
        }
    }
}

/// Flushes the engine's trailing bytes into a block-sized buffer and returns
/// exactly the bytes written.  Relies on `openssl::symm::Crypter::finalize`:
/// the flush fits one block, is a function of the configuration and the
/// bytes fed, and ends the engine's life.
#[verifier::external_body]
fn engine_finish(core: &mut CipherCore) -> (r: Result<Vec<u8>, openssl::error::ErrorStack>)
    requires
        !old(core).spec_finished(),
    ensures
        (match r {
            Ok(out) => {
                &&& final(core).same_config(old(core))
                &&& final(core).spec_finished()
                &&& final(core).fed_bytes() == old(core).fed_bytes()
                &&& out@ == finish_bytes(
                    old(core).spec_algo(),
                    old(core).spec_mode(),
                    old(core).key_bytes(),
                    old(core).iv_bytes(),
                    old(core).fed_bytes(),
                )
            },
            Err(_) => final(core).spec_finished() && final(core).same_config(old(core)),
        }),
{
    let cap = if core.block > 1 { core.block } else { 1 };
    let mut buf = vec![0u8; cap];
    core.finished = true;
    let n = core.crypter.finalize(&mut buf)?;
    buf.truncate(n);
    Ok(buf)
}

/// The pull-driven state of a transform adapter.
enum Phase {
    /// Still pulling the inner producer and feeding the engine.
    Active,
    /// The trailing block has been emitted; every further pull signals end.
    Finished,
    /// The engine faulted; every further pull reports the fault again.
    Failed,
}

/// The transform adapter shared by [`Encrypt`] and [`Decrypt`]: an inner
/// producer, a live engine and an explicit phase.
struct CipherStream<S> {
    inner: S,
    core: CipherCore,
    phase: Phase,
    fault: Option<Error>,
    hist: Ghost<Seq<Seq<u8>>>,
    base: Ghost<Seq<Seq<u8>>>,
    fails: Ghost<nat>,
}

impl<S: ByteStream> CipherStream<S> {
    /// The chunks the inner producer has yielded since this adapter was
    /// created.
    spec fn consumed(&self) -> Seq<Seq<u8>> {
        self.inner.history().skip(self.base@.len() as int)
    }

    /// The chunks this adapter has emitted.
    spec fn history_cs(&self) -> Seq<Seq<u8>> {
        self.hist@
    }

    /// Whether this adapter has signalled its own end-of-data.
    spec fn done_cs(&self) -> bool {
        self.phase is Finished
    }

    /// Whether this adapter is still transforming.
    spec fn active_cs(&self) -> bool {
        self.phase is Active
    }

    /// Whether this adapter saw an engine fault and is permanently faulted.
    spec fn failed_cs(&self) -> bool {
        self.phase is Failed
    }

    /// How many pulls of this adapter have reported a failure.
    spec fn failures_cs(&self) -> nat {
        self.fails@
    }

    /// The adapter's invariant: while active, everything consumed has been
    /// fed to the engine and everything emitted is exactly the engine's
    /// update output for it; once finished, the emitted bytes are the
    /// engine's complete output over the consumed bytes; once faulted, the
    /// engine fault is recorded for every later pull to report.
    spec fn inv_cs(&self) -> bool {
        &&& self.inner.inv()
        &&& self.core.wf()
        &&& self.base@.is_prefix_of(self.inner.history())
        &&& (match self.phase {
            Phase::Active => {
                &&& !self.core.spec_finished()
                &&& self.core.fed_bytes() == self.consumed().flatten()
                &&& self.hist@.flatten() == self.core.upd_of(self.core.fed_bytes())
            },
            Phase::Finished => {
                &&& self.inner.done()
                &&& self.hist@.flatten() == self.core.transform_of(self.consumed().flatten())
            },
            Phase::Failed => self.fault matches Some(f) && f is Engine,
        })
    }

    /// Build the adapter over `inner` from a validated configuration.
    fn make(config: &Config, mode: Mode, inner: S) -> (r: Result<CipherStream<S>, (Error, S)>)
        requires
            inner.inv(),
        ensures
            (match r {
                Ok(cs) => {
                    &&& cs.inv_cs()
                    &&& config.valid()
                    &&& cs.core.spec_algo() == config.spec_algo()
                    &&& cs.core.spec_mode() == mode
                    &&& cs.core.key_bytes() == config.key_bytes()
                    &&& cs.core.iv_bytes() == config.iv_bytes()
                    &&& cs.inner == inner
                    &&& cs.history_cs() == Seq::<Seq<u8>>::empty()
                    &&& cs.consumed() == Seq::<Seq<u8>>::empty()
                    &&& !cs.done_cs()
                    &&& cs.phase is Active
                    &&& cs.failures_cs() == 0
                },
                Err(p) => {
                    &&& p.1 == inner
                    &&& (p.0 is KeyLength <==> !config.key_ok())
                    &&& (p.0 is IvLength <==> (config.key_ok() && !config.iv_ok()))
                    &&& (p.0 is Engine ==> config.valid())
                },
            }),
    {
        match CipherCore::new(config, mode) {
            Ok(core) => {
                let ghost b = inner.history();
                let cs = CipherStream {
                    inner,
                    core,
                    phase: Phase::Active,
                    fault: None,
                    hist: Ghost(Seq::empty()),
                    base: Ghost(b),
                    fails: Ghost(0),
                };
                proof {
                    assert(cs.consumed() =~= Seq::<Seq<u8>>::empty());
                    assert(cs.consumed().flatten() =~= Seq::<u8>::empty());
                    assert(cs.hist@.flatten() =~= Seq::<u8>::empty());
                }
                Ok(cs)
            },
            Err(e) => Err((e, inner)),
        }
    }

    /// One pull: forward the inner producer's flow control, transform any
    /// chunk it yields, flush the trailing block at its end-of-data, and be
    /// terminal afterwards — permanently at its end, or permanently faulted
    /// after an engine fault.
    fn poll_cs(&mut self) -> (r: PollOutcome)
        requires
            old(self).inv_cs(),
        ensures
            final(self).inv_cs(),
            final(self).core.same_config(&old(self).core),
            final(self).base@ == old(self).base@,
            (match r {
                PollOutcome::Pending => {
                    &&& final(self).history_cs() == old(self).history_cs()
                    &&& final(self).consumed() == old(self).consumed()
                    &&& final(self).done_cs() == old(self).done_cs()
                    &&& final(self).active_cs() == old(self).active_cs()
                    &&& final(self).failed_cs() == old(self).failed_cs()
                    &&& final(self).failures_cs() == old(self).failures_cs()
                },
                PollOutcome::Item(c) => {
                    &&& old(self).active_cs()
                    &&& !old(self).done_cs()
                    &&& !final(self).failed_cs()
                    &&& final(self).failures_cs() == old(self).failures_cs()
                    &&& final(self).history_cs() == old(self).history_cs().push(c@)
                    &&& (if final(self).done_cs() {
                        // The inner producer ended: this is the trailing
                        // flush, and the adapter's own end comes next.
                        &&& final(self).consumed() == old(self).consumed()
                        &&& c@ == finish_bytes(
                            old(self).core.spec_algo(),
                            old(self).core.spec_mode(),
                            old(self).core.key_bytes(),
                            old(self).core.iv_bytes(),
                            old(self).consumed().flatten(),
                        )
                    } else {
                        // An ordinary chunk: the adapter stays active, one
                        // more inner chunk was consumed, and the emitted
                        // bytes are exactly the engine's update output for
                        // it.
                        &&& final(self).active_cs()
                        &&& final(self).consumed() == old(self).consumed().push(
                            final(self).consumed().last(),
                        )
                        &&& update_bytes(
                            old(self).core.spec_algo(),
                            old(self).core.spec_mode(),
                            old(self).core.key_bytes(),
                            old(self).core.iv_bytes(),
                            old(self).consumed().flatten(),
                        ) + c@ == update_bytes(
                            old(self).core.spec_algo(),
                            old(self).core.spec_mode(),
                            old(self).core.key_bytes(),
                            old(self).core.iv_bytes(),
                            final(self).consumed().flatten(),
                        )
                    })
                },
                PollOutcome::Done => {
                    &&& old(self).done_cs()
                    &&& final(self).done_cs()
                    &&& final(self).history_cs() == old(self).history_cs()
                    &&& final(self).consumed() == old(self).consumed()
                    &&& final(self).failures_cs() == old(self).failures_cs()
                },
                PollOutcome::Failed(e) => {
                    &&& !old(self).done_cs()
                    &&& !final(self).done_cs()
                    &&& final(self).history_cs() == old(self).history_cs()
                    &&& final(self).failures_cs() == old(self).failures_cs() + 1
                    &&& (if old(self).failed_cs() {
                        // Permanently faulted: the recorded engine fault is
                        // reported again and nothing changes.
                        &&& e is Engine
                        &&& final(self).failed_cs()
                        &&& final(self).consumed() == old(self).consumed()
                        &&& final(self).inner == old(self).inner
                    } else if final(self).failed_cs() {
                        // The engine faulted on this pull: fatal, and the
                        // chunk it may have been fed is never emitted.
                        &&& e is Engine
                        &&& old(self).active_cs()
                        &&& final(self).inner.failures() == old(self).inner.failures()
                        &&& (final(self).consumed() == old(self).consumed()
                            || final(self).consumed() == old(self).consumed().push(
                                final(self).consumed().last(),
                            ))
                    } else {
                        // The inner producer itself failed this pull; the
                        // failure is forwarded without an engine call.
                        &&& old(self).active_cs()
                        &&& final(self).active_cs()
                        &&& final(self).consumed() == old(self).consumed()
                        &&& final(self).inner.failures() == old(self).inner.failures() + 1
                    })
                },
            }),
            old(self).done_cs() ==> r is Done,
            old(self).failed_cs() ==> r is Failed,
    {
        match self.phase {
            Phase::Finished => PollOutcome::Done,
            Phase::Failed => {
                match &self.fault {
                    Some(e) => {
                        self.fails = Ghost(self.fails@ + 1);
                        PollOutcome::Failed(e.duplicate())
                    },
                    None => unreached(),
                }
            },
            Phase::Active => {
                match self.inner.poll() {
                    PollOutcome::Pending => PollOutcome::Pending,
                    PollOutcome::Failed(e) => {
                        self.fails = Ghost(self.fails@ + 1);
                        PollOutcome::Failed(e)
                    },
                    PollOutcome::Item(c) => {
                        proof {
                            old(self).consumed().lemma_flatten_push(c@);
                            assert(self.consumed() =~= old(self).consumed().push(c@));
                        }
                        match self.core.update(&c) {
                            Ok(out) => {
                                proof {
                                    self.hist@.lemma_flatten_push(out@);
                                }
                                self.hist = Ghost(self.hist@.push(out@));
                                PollOutcome::Item(out)
                            },
                            Err(e) => {
                                self.fault = Some(e.duplicate());
                                self.phase = Phase::Failed;
                                self.fails = Ghost(self.fails@ + 1);
                                PollOutcome::Failed(e)
                            },
                        }
                    },
                    PollOutcome::Done => {
                        match self.core.finalize() {
                            Ok(out) => {
                                proof {
                                    self.hist@.lemma_flatten_push(out@);
                                }
                                self.hist = Ghost(self.hist@.push(out@));
                                self.phase = Phase::Finished;
                                PollOutcome::Item(out)
                            },
                            Err(e) => {
                                self.fault = Some(e.duplicate());
                                self.phase = Phase::Failed;
                                self.fails = Ghost(self.fails@ + 1);
                                PollOutcome::Failed(e)
                            },
                        }
                    },
                }
            },
        }
    }
}

/// Stream adapter that transparently encrypts the data of the inner
/// producer, emitting the trailing cipher block as its last chunk.
pub struct Encrypt<S> {
    s: CipherStream<S>,
}

/// Stream adapter that transparently decrypts the data of the inner
/// producer, emitting the trailing plaintext block as its last chunk.
pub struct Decrypt<S> {
    s: CipherStream<S>,
}

impl<S: ByteStream> Encrypt<S> {
    /// The algorithm this adapter transforms under.
    pub closed spec fn spec_algo(&self) -> Algorithm {
        self.s.core.spec_algo()
    }

    /// The key this adapter transforms under.
    pub closed spec fn key_bytes(&self) -> Seq<u8> {
        self.s.core.key_bytes()
    }

    /// The IV this adapter transforms under.
    pub closed spec fn iv_bytes(&self) -> Seq<u8> {
        self.s.core.iv_bytes()
    }

    /// The chunks the inner producer has yielded since this adapter was
    /// created: the adapter's own input.
    pub closed spec fn consumed(&self) -> Seq<Seq<u8>> {
        self.s.consumed()
    }

    /// The inner producer this adapter pulls from.
    pub closed spec fn spec_inner(&self) -> S {
        self.s.inner
    }

    /// Whether the adapter is still transforming: neither finished nor
    /// faulted.
    pub closed spec fn active(&self) -> bool {
        self.s.active_cs()
    }

    /// Whether the adapter saw an engine fault; a faulted adapter reports
    /// the recorded fault on every later pull and never transforms again.
    pub closed spec fn failed(&self) -> bool {
        self.s.failed_cs()
    }

    /// One pull, with the whole transition in the contract: an ordinary
    /// chunk is the engine's update output for exactly one more consumed
    /// chunk; the inner producer's end yields the engine's trailing flush
    /// and ends the adapter; an engine fault is permanent and reported on
    /// every later pull; an inner failure is forwarded and changes nothing.
    pub fn poll_next(&mut self) -> (r: PollOutcome)
        requires
            old(self).inv(),
        ensures
            final(self).inv(),
            final(self).spec_algo() == old(self).spec_algo(),
            final(self).key_bytes() == old(self).key_bytes(),
            final(self).iv_bytes() == old(self).iv_bytes(),
            (match r {
                PollOutcome::Pending => {
                    &&& final(self).history() == old(self).history()
                    &&& final(self).consumed() == old(self).consumed()
                    &&& final(self).done() == old(self).done()
                    &&& final(self).active() == old(self).active()
                    &&& final(self).failed() == old(self).failed()
                    &&& final(self).failures() == old(self).failures()
                },
                PollOutcome::Item(c) => {
                    &&& old(self).active()
                    &&& !old(self).done()
                    &&& !final(self).failed()
                    &&& final(self).failures() == old(self).failures()
                    &&& final(self).history() == old(self).history().push(c@)
                    &&& (if final(self).done() {
                        &&& final(self).consumed() == old(self).consumed()
                        &&& c@ == finish_bytes(
                            old(self).spec_algo(),
                            Mode::Encrypt,
                            old(self).key_bytes(),
                            old(self).iv_bytes(),
                            old(self).consumed().flatten(),
                        )
                    } else {
                        &&& final(self).active()
                        &&& final(self).consumed() == old(self).consumed().push(
                            final(self).consumed().last(),
                        )
                        &&& update_bytes(
                            old(self).spec_algo(),
                            Mode::Encrypt,
                            old(self).key_bytes(),
                            old(self).iv_bytes(),
                            old(self).consumed().flatten(),
                        ) + c@ == update_bytes(
                            old(self).spec_algo(),
                            Mode::Encrypt,
                            old(self).key_bytes(),
                            old(self).iv_bytes(),
                            final(self).consumed().flatten(),
                        )
                    })
                },
                PollOutcome::Done => {
                    &&& old(self).done()
                    &&& final(self).done()
                    &&& final(self).history() == old(self).history()
                    &&& final(self).consumed() == old(self).consumed()
                    &&& final(self).failures() == old(self).failures()
                },
                PollOutcome::Failed(e) => {
                    &&& !old(self).done()
                    &&& !final(self).done()
                    &&& final(self).history() == old(self).history()
                    &&& final(self).failures() == old(self).failures() + 1
                    &&& (if old(self).failed() {
                        // Permanently faulted: the recorded engine fault is
                        // reported again and nothing changes.
                        &&& e is Engine
                        &&& final(self).failed()
                        &&& final(self).consumed() == old(self).consumed()
                        &&& final(self).spec_inner() == old(self).spec_inner()
                    } else if final(self).failed() {
                        // The engine faulted on this pull: fatal, and the
                        // chunk it may have been fed is never emitted.
                        &&& e is Engine
                        &&& old(self).active()
                        &&& final(self).spec_inner().failures() == old(self).spec_inner().failures()
                        &&& (final(self).consumed() == old(self).consumed()
                            || final(self).consumed() == old(self).consumed().push(
                                final(self).consumed().last(),
                            ))
                    } else {
                        // The inner producer itself failed this pull; the
                        // failure is forwarded without an engine call.
                        &&& old(self).active()
                        &&& final(self).active()
                        &&& final(self).consumed() == old(self).consumed()
                        &&& final(self).spec_inner().failures() == old(self).spec_inner().failures()
                            + 1
                    })
                },
            }),
            old(self).done() ==> r is Done,
            old(self).failed() ==> r is Failed,
    {
        self.s.poll_cs()
    }

    /// Create an encrypting stream adapter.
    ///
    /// On failure the inner producer is handed back, so the caller keeps
    /// ownership of it; the error is `KeyLength` or `IvLength` exactly when
    /// the configuration's buffers do not match the algorithm.
    pub fn new(config: &Config, inner: S) -> (r: Result<Encrypt<S>, (Error, S)>)
        requires
            inner.inv(),
        ensures
            (match r {
                Ok(enc) => {
                    &&& enc.inv()
                    &&& enc.active()
                    &&& enc.spec_inner() == inner
                    &&& config.valid()
                    &&& enc.spec_algo() == config.spec_algo()
                    &&& enc.key_bytes() == config.key_bytes()
                    &&& enc.iv_bytes() == config.iv_bytes()
                    &&& enc.history() == Seq::<Seq<u8>>::empty()
                    &&& enc.consumed() == Seq::<Seq<u8>>::empty()
                    &&& enc.failures() == 0
                    &&& !enc.done()
                },
                Err(p) => {
                    &&& p.1 == inner
                    &&& (p.0 is KeyLength <==> !config.key_ok())
                    &&& (p.0 is IvLength <==> (config.key_ok() && !config.iv_ok()))
                    &&& (p.0 is Engine ==> config.valid())
                },
            }),
    {
        match CipherStream::make(config, Mode::Encrypt, inner) {
            Ok(s) => Ok(Encrypt { s }),
            Err(p) => Err(p),
        }
    }
}

impl<S: ByteStream> Decrypt<S> {
    /// The algorithm this adapter transforms under.
    pub closed spec fn spec_algo(&self) -> Algorithm {
        self.s.core.spec_algo()
    }

    /// The key this adapter transforms under.
    pub closed spec fn key_bytes(&self) -> Seq<u8> {
        self.s.core.key_bytes()
    }

    /// The IV this adapter transforms under.
    pub closed spec fn iv_bytes(&self) -> Seq<u8> {
        self.s.core.iv_bytes()
    }

    /// The chunks the inner producer has yielded since this adapter was
    /// created: the adapter's own input.
    pub closed spec fn consumed(&self) -> Seq<Seq<u8>> {
        self.s.consumed()
    }

    /// The inner producer this adapter pulls from.
    pub closed spec fn spec_inner(&self) -> S {
        self.s.inner
    }

    /// Whether the adapter is still transforming: neither finished nor
    /// faulted.
    pub closed spec fn active(&self) -> bool {
        self.s.active_cs()
    }

    /// Whether the adapter saw an engine fault; a faulted adapter reports
    /// the recorded fault on every later pull and never transforms again.
    pub closed spec fn failed(&self) -> bool {
        self.s.failed_cs()
    }

    /// One pull, with the whole transition in the contract: an ordinary
    /// chunk is the engine's update output for exactly one more consumed
    /// chunk; the inner producer's end yields the engine's trailing flush
    /// and ends the adapter; an engine fault is permanent and reported on
    /// every later pull; an inner failure is forwarded and changes nothing.
    pub fn poll_next(&mut self) -> (r: PollOutcome)
        requires
            old(self).inv(),
        ensures
            final(self).inv(),
            final(self).spec_algo() == old(self).spec_algo(),
            final(self).key_bytes() == old(self).key_bytes(),
            final(self).iv_bytes() == old(self).iv_bytes(),
            (match r {
                PollOutcome::Pending => {
                    &&& final(self).history() == old(self).history()
                    &&& final(self).consumed() == old(self).consumed()
                    &&& final(self).done() == old(self).done()
                    &&& final(self).active() == old(self).active()
                    &&& final(self).failed() == old(self).failed()
                    &&& final(self).failures() == old(self).failures()
                },
                PollOutcome::Item(c) => {
                    &&& old(self).active()
                    &&& !old(self).done()
                    &&& !final(self).failed()
                    &&& final(self).failures() == old(self).failures()
                    &&& final(self).history() == old(self).history().push(c@)
                    &&& (if final(self).done() {
                        &&& final(self).consumed() == old(self).consumed()
                        &&& c@ == finish_bytes(
                            old(self).spec_algo(),
                            Mode::Decrypt,
                            old(self).key_bytes(),
                            old(self).iv_bytes(),
                            old(self).consumed().flatten(),
                        )
                    } else {
                        &&& final(self).active()
                        &&& final(self).consumed() == old(self).consumed().push(
                            final(self).consumed().last(),
                        )
                        &&& update_bytes(
                            old(self).spec_algo(),
                            Mode::Decrypt,
                            old(self).key_bytes(),
                            old(self).iv_bytes(),
                            old(self).consumed().flatten(),
                        ) + c@ == update_bytes(
                            old(self).spec_algo(),
                            Mode::Decrypt,
                            old(self).key_bytes(),
                            old(self).iv_bytes(),
                            final(self).consumed().flatten(),
                        )
                    })
                },
                PollOutcome::Done => {
                    &&& old(self).done()
                    &&& final(self).done()
                    &&& final(self).history() == old(self).history()
                    &&& final(self).consumed() == old(self).consumed()
                    &&& final(self).failures() == old(self).failures()
                },
                PollOutcome::Failed(e) => {
                    &&& !old(self).done()
                    &&& !final(self).done()
                    &&& final(self).history() == old(self).history()
                    &&& final(self).failures() == old(self).failures() + 1
                    &&& (if old(self).failed() {
                        // Permanently faulted: the recorded engine fault is
                        // reported again and nothing changes.
                        &&& e is Engine
                        &&& final(self).failed()
                        &&& final(self).consumed() == old(self).consumed()
                        &&& final(self).spec_inner() == old(self).spec_inner()
                    } else if final(self).failed() {
                        // The engine faulted on this pull: fatal, and the
                        // chunk it may have been fed is never emitted.
                        &&& e is Engine
                        &&& old(self).active()
                        &&& final(self).spec_inner().failures() == old(self).spec_inner().failures()
                        &&& (final(self).consumed() == old(self).consumed()
                            || final(self).consumed() == old(self).consumed().push(
                                final(self).consumed().last(),
                            ))
                    } else {
                        // The inner producer itself failed this pull; the
                        // failure is forwarded without an engine call.
                        &&& old(self).active()
                        &&& final(self).active()
                        &&& final(self).consumed() == old(self).consumed()
                        &&& final(self).spec_inner().failures() == old(self).spec_inner().failures()
                            + 1
                    })
                },
            }),
            old(self).done() ==> r is Done,
            old(self).failed() ==> r is Failed,
    {
        self.s.poll_cs()
    }

    /// Create a decrypting stream adapter.
    ///
    /// On failure the inner producer is handed back, so the caller keeps
    /// ownership of it; the error is `KeyLength` or `IvLength` exactly when
    /// the configuration's buffers do not match the algorithm.
    pub fn new(config: &Config, inner: S) -> (r: Result<Decrypt<S>, (Error, S)>)
        requires
            inner.inv(),
        ensures
            (match r {
                Ok(dec) => {
                    &&& dec.inv()
                    &&& dec.active()
                    &&& dec.spec_inner() == inner
                    &&& config.valid()
                    &&& dec.spec_algo() == config.spec_algo()
                    &&& dec.key_bytes() == config.key_bytes()
                    &&& dec.iv_bytes() == config.iv_bytes()
                    &&& dec.history() == Seq::<Seq<u8>>::empty()
                    &&& dec.consumed() == Seq::<Seq<u8>>::empty()
                    &&& dec.failures() == 0
                    &&& !dec.done()
                },
                Err(p) => {
                    &&& p.1 == inner
                    &&& (p.0 is KeyLength <==> !config.key_ok())
                    &&& (p.0 is IvLength <==> (config.key_ok() && !config.iv_ok()))
                    &&& (p.0 is Engine ==> config.valid())
                },
            }),
    {
        match CipherStream::make(config, Mode::Decrypt, inner) {
            Ok(s) => Ok(Decrypt { s }),
            Err(p) => Err(p),
        }
    }
}

impl<S: ByteStream> ByteStream for Encrypt<S> {
    closed spec fn inv(&self) -> bool {
        self.s.inv_cs() && self.s.core.spec_mode() == Mode::Encrypt
    }

    closed spec fn history(&self) -> Seq<Seq<u8>> {
        self.s.history_cs()
    }

    closed spec fn done(&self) -> bool {
        self.s.done_cs()
    }

    closed spec fn failures(&self) -> nat {
        self.s.failures_cs()
    }

    open spec fn script(&self) -> Option<Seq<Seq<u8>>> {
        None
    }

    fn poll(&mut self) -> (r: PollOutcome) {
        self.poll_next()
    }
}

impl<S: ByteStream> ByteStream for Decrypt<S> {
    closed spec fn inv(&self) -> bool {
        self.s.inv_cs() && self.s.core.spec_mode() == Mode::Decrypt
    }

    closed spec fn history(&self) -> Seq<Seq<u8>> {
        self.s.history_cs()
    }

    closed spec fn done(&self) -> bool {
        self.s.done_cs()
    }

    closed spec fn failures(&self) -> nat {
        self.s.failures_cs()
    }

    open spec fn script(&self) -> Option<Seq<Seq<u8>>> {
        None
    }

    fn poll(&mut self) -> (r: PollOutcome) {
        self.poll_next()
    }
}

/// Chunking-invariance law for encryption: two fully drained encrypting
/// adapters under the same configuration whose inner producers delivered the
/// same bytes emit the same bytes, however differently those inputs and
/// outputs were divided into chunks.
pub proof fn lemma_chunking_invariance_encrypt<S1: ByteStream, S2: ByteStream>(
    x: &Encrypt<S1>,
    y: &Encrypt<S2>,
)
    requires
        x.inv(),
        y.inv(),
        x.done(),
        y.done(),
        x.spec_algo() == y.spec_algo(),
        x.key_bytes() == y.key_bytes(),
        x.iv_bytes() == y.iv_bytes(),
        x.consumed().flatten() == y.consumed().flatten(),
    ensures
        x.history().flatten() == y.history().flatten(),
{
}

/// Chunking-invariance law for decryption: two fully drained decrypting
/// adapters under the same configuration whose inner producers delivered the
/// same bytes emit the same bytes, however differently those inputs and
/// outputs were divided into chunks.
pub proof fn lemma_chunking_invariance_decrypt<S1: ByteStream, S2: ByteStream>(
    x: &Decrypt<S1>,
    y: &Decrypt<S2>,
)
    requires
        x.inv(),
        y.inv(),
        x.done(),
        y.done(),
        x.spec_algo() == y.spec_algo(),
        x.key_bytes() == y.key_bytes(),
        x.iv_bytes() == y.iv_bytes(),
        x.consumed().flatten() == y.consumed().flatten(),
    ensures
        x.history().flatten() == y.history().flatten(),
{
}

/// Round-trip law: when a fully drained decrypting adapter consumed, under
/// the same configuration, exactly the bytes a fully drained encrypting
/// adapter emitted, it emits exactly the bytes the encrypting adapter
/// consumed — whatever those bytes were and however they were chunked.
pub proof fn lemma_round_trip<S1: ByteStream, S2: ByteStream>(enc: &Encrypt<S1>, dec: &Decrypt<S2>)
    requires
        enc.inv(),
        dec.inv(),
        enc.done(),
        dec.done(),
        enc.spec_algo() == dec.spec_algo(),
        enc.key_bytes() == dec.key_bytes(),
        enc.iv_bytes() == dec.iv_bytes(),
        dec.consumed().flatten() == enc.history().flatten(),
    ensures
        dec.history().flatten() == enc.consumed().flatten(),
{
    let algo = enc.spec_algo();
    let key = enc.key_bytes();
    let iv = enc.iv_bytes();
    let data = enc.consumed().flatten();
    assert(transform_bytes(
        algo,
        Mode::Decrypt,
        key,
        iv,
        transform_bytes(algo, Mode::Encrypt, key, iv, data),
    ) == data);
}

/// Round-trip law for the owned composition: a fully drained decrypting
/// adapter stacked directly over an encrypting adapter with the same
/// configuration emits exactly the bytes the encrypting adapter consumed.
pub proof fn lemma_pipeline_round_trip<S: ByteStream>(dec: &Decrypt<Encrypt<S>>)
    requires
        dec.inv(),
        dec.done(),
        dec.spec_algo() == dec.spec_inner().spec_algo(),
        dec.key_bytes() == dec.spec_inner().key_bytes(),
        dec.iv_bytes() == dec.spec_inner().iv_bytes(),
        dec.consumed().flatten() == dec.spec_inner().history().flatten(),
    ensures
        dec.history().flatten() == dec.spec_inner().consumed().flatten(),
{
    lemma_round_trip(&dec.s.inner, dec);
}

} // verus!
