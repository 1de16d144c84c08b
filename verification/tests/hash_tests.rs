use futures_crypto::hash::{Algorithm, DigestPoll};
use futures_crypto::stream::{ByteStream, PollOutcome, VecStream};

fn words() -> Vec<Vec<u8>> {
    vec![
        b"foo".to_vec(),
        b"bar".to_vec(),
        b"baz".to_vec(),
        b"quux".to_vec(),
    ]
}

fn drain<S: ByteStream>(s: &mut S) -> Vec<Vec<u8>> {
    let mut out = Vec::new();
    loop {
        match s.poll() {
            PollOutcome::Item(c) => out.push(c),
            PollOutcome::Done => return out,
            PollOutcome::Pending => continue,
            PollOutcome::Failed(e) => panic!("stream failed: {:?}", e),
        }
    }
}

#[test]
fn sha1() {
    let input = VecStream::new(words());
    let mut hash = futures_crypto::hash::Hash::new(Algorithm::Sha1, input)
        .ok()
        .unwrap();
    let output = drain(&mut hash);
    assert_eq!(output, words());
    let digest = hash.digest().unwrap();
    assert_eq!(digest.algorithm(), Algorithm::Sha1);
    assert_eq!(
        digest.to_hex_string(),
        "d663229325c61c5e5fd52f503961aab83e902313"
    );
}

#[test]
fn split_sha1() {
    let input = VecStream::new(words());
    let (mut split_digest, mut split_hash) = futures_crypto::hash::Hash::new(Algorithm::Sha1, input)
        .ok()
        .unwrap()
        .split();
    let output = drain(&mut split_hash);
    assert_eq!(output, words());
    match split_digest.poll_digest() {
        DigestPoll::Resolved(digest) => {
            assert_eq!(digest.algorithm(), Algorithm::Sha1);
            assert_eq!(
                digest.to_hex_string(),
                "d663229325c61c5e5fd52f503961aab83e902313"
            );
            // The delivered digest equals the non-split digest of the same
            // input.
            let mut plain = futures_crypto::hash::Hash::new(
                Algorithm::Sha1,
                VecStream::new(words()),
            )
            .ok()
            .unwrap();
            drain(&mut plain);
            assert_eq!(digest, plain.digest().unwrap());
        }
        other => panic!("expected a digest, got {}", poll_name(&other)),
    }
}

#[test]
fn split_drop() {
    let input = VecStream::new(words());
    let (mut split_digest, split_hash) = futures_crypto::hash::Hash::new(Algorithm::Sha1, input)
        .ok()
        .unwrap()
        .split();
    drop(split_hash);
    assert!(matches!(split_digest.poll_digest(), DigestPoll::Abandoned));
}

fn poll_name(p: &DigestPoll) -> &'static str {
    match p {
        DigestPoll::Pending => "pending",
        DigestPoll::Resolved(_) => "resolved",
        DigestPoll::Abandoned => "abandoned",
        DigestPoll::Failed(_) => "failed",
    }
}

#[test]
fn split_pending_until_drained() {
    let input = VecStream::new(words());
    let (mut split_digest, mut split_hash) = futures_crypto::hash::Hash::new(Algorithm::Sha1, input)
        .ok()
        .unwrap()
        .split();
    assert!(matches!(split_digest.poll_digest(), DigestPoll::Pending));
    drain(&mut split_hash);
    assert!(matches!(
        split_digest.poll_digest(),
        DigestPoll::Resolved(_)
    ));
    // The computing half stays terminal after delivering.
    assert!(matches!(split_hash.poll(), PollOutcome::Done));
}

#[test]
fn digest_of_empty_input() {
    let input = VecStream::new(Vec::new());
    let mut hash = futures_crypto::hash::Hash::new(Algorithm::Sha1, input)
        .ok()
        .unwrap();
    let digest = hash.digest().unwrap();
    assert_eq!(
        digest.to_hex_string(),
        "da39a3ee5e6b4b0d3255bfef95601890afd80709"
    );
}

#[test]
fn digest_resets_between_segments() {
    // Retrieving a digest mid-stream resets the accumulation, so the second
    // digest covers only the bytes seen afterwards.
    let input = VecStream::new(vec![b"foo".to_vec(), b"bar".to_vec()]);
    let mut hash = futures_crypto::hash::Hash::new(Algorithm::Sha256, input)
        .ok()
        .unwrap();
    assert!(matches!(hash.poll(), PollOutcome::Item(_)));
    let first = hash.digest().unwrap();
    assert!(matches!(hash.poll(), PollOutcome::Item(_)));
    assert!(matches!(hash.poll(), PollOutcome::Done));
    let second = hash.digest().unwrap();

    let mut foo_only = futures_crypto::hash::Hash::new(
        Algorithm::Sha256,
        VecStream::new(vec![b"foo".to_vec()]),
    )
    .ok()
    .unwrap();
    let mut bar_only = futures_crypto::hash::Hash::new(
        Algorithm::Sha256,
        VecStream::new(vec![b"bar".to_vec()]),
    )
    .ok()
    .unwrap();
    drain(&mut foo_only);
    drain(&mut bar_only);
    assert_eq!(
        first.to_hex_string(),
        foo_only.digest().unwrap().to_hex_string()
    );
    assert_eq!(
        second.to_hex_string(),
        bar_only.digest().unwrap().to_hex_string()
    );
    assert_ne!(first.to_hex_string(), second.to_hex_string());
}

#[test]
fn digest_lengths_per_algorithm() {
    let cases = vec![
        (Algorithm::Md5, 16),
        (Algorithm::Sha1, 20),
        (Algorithm::Sha224, 28),
        (Algorithm::Sha256, 32),
        (Algorithm::Sha384, 48),
        (Algorithm::Sha512, 64),
    ];
    for (algo, len) in cases {
        let mut hash = futures_crypto::hash::Hash::new(algo, VecStream::new(Vec::new()))
            .ok()
            .unwrap();
        let digest = hash.digest().unwrap();
        assert_eq!(digest.as_bytes().len(), len, "algorithm {:?}", algo);
        assert_eq!(digest.to_hex_string().len(), 2 * len);
        assert_eq!(digest.algorithm(), algo);
    }
}

#[test]
fn md5_known_value() {
    let mut hash = futures_crypto::hash::Hash::new(Algorithm::Md5, VecStream::new(Vec::new()))
        .ok()
        .unwrap();
    assert_eq!(
        hash.digest().unwrap().to_hex_string(),
        "d41d8cd98f00b204e9800998ecf8427e"
    );
}
