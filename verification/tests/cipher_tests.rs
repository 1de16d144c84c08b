use futures_crypto::cipher::{Algorithm, Config, Decrypt, Encrypt, MAX_IV_LEN, MAX_KEY_LEN};
use futures_crypto::stream::{ByteStream, PollOutcome, PulseStream, VecStream};
use futures_crypto::Error;

fn all_algos() -> Vec<Algorithm> {
    vec![
        Algorithm::Aes128Ecb,
        Algorithm::Aes128Cbc,
        Algorithm::Aes128Ctr,
        Algorithm::Aes128Cfb1,
        Algorithm::Aes128Cfb128,
        Algorithm::Aes128Cfb8,
        Algorithm::Aes256Ecb,
        Algorithm::Aes256Cbc,
        Algorithm::Aes256Ctr,
        Algorithm::Aes256Cfb1,
        Algorithm::Aes256Cfb128,
        Algorithm::Aes256Cfb8,
    ]
}

fn test_config(algo: Algorithm) -> Config {
    let mut config = Config::new(algo);
    {
        let key = config.key_mut();
        for i in 0..key.len() {
            key[i] = i as u8;
        }
    }
    if let Some(iv) = config.iv_mut() {
        for i in 0..iv.len() {
            iv[i] = 0xa0 + i as u8;
        }
    }
    config
}

fn drain<S: ByteStream>(s: &mut S) -> Vec<Vec<u8>> {
    let mut out = Vec::new();
    loop {
        match s.poll() {
            PollOutcome::Item(c) => out.push(c),
            PollOutcome::Done => return out,
            PollOutcome::Pending => continue,
            PollOutcome::Failed(e) => panic!("stream failed: {:?}", e),
        }
    }
}

fn concat(chunks: &[Vec<u8>]) -> Vec<u8> {
    let mut out = Vec::new();
    for c in chunks {
        out.extend_from_slice(c);
    }
    out
}

fn hex(bytes: &[u8]) -> String {
    let digits = "0123456789abcdef".as_bytes();
    let mut s = String::new();
    for b in bytes {
        s.push(digits[(b >> 4) as usize] as char);
        s.push(digits[(b & 0xf) as usize] as char);
    }
    s
}

#[test]
fn max_key_len() {
    let max = all_algos().iter().map(|algo| algo.key_len()).max().unwrap();
    assert_eq!(max, MAX_KEY_LEN);
}

#[test]
fn max_iv_len() {
    let max = all_algos()
        .iter()
        .filter_map(|algo| algo.iv_len())
        .max()
        .unwrap();
    assert_eq!(max, MAX_IV_LEN);
}

#[test]
fn roundtrip_all_algorithms() {
    let chunks = vec![
        b"one fine".to_vec(),
        Vec::new(),
        b" day the streams".to_vec(),
        b" all lined up".to_vec(),
    ];
    for algo in all_algos() {
        let config = test_config(algo);
        let inner = VecStream::new(chunks.clone());
        let encrypt = match Encrypt::new(&config, inner) {
            Ok(enc) => enc,
            Err((e, _)) => panic!("encrypt build failed: {:?}", e),
        };
        let mut decrypt = match Decrypt::new(&config, encrypt) {
            Ok(dec) => dec,
            Err((e, _)) => panic!("decrypt build failed: {:?}", e),
        };
        let roundtrip = concat(&drain(&mut decrypt));
        assert_eq!(roundtrip, concat(&chunks), "algorithm {:?}", algo);
    }
}

#[test]
fn chunking_invariance() {
    let wholes = vec![b"the same sixteen bytes arrive over two differently cut runs".to_vec()];
    let parts = vec![
        b"the same six".to_vec(),
        b"teen bytes arrive over two".to_vec(),
        Vec::new(),
        b" differently cut runs".to_vec(),
    ];
    assert_eq!(concat(&wholes), concat(&parts));
    let config = test_config(Algorithm::Aes256Cbc);
    let mut one = Encrypt::new(&config, VecStream::new(wholes)).ok().unwrap();
    let mut two = Encrypt::new(&config, VecStream::new(parts)).ok().unwrap();
    assert_eq!(concat(&drain(&mut one)), concat(&drain(&mut two)));
}

#[test]
fn known_vector_aes128ecb() {
    // AES-128-ECB of a zero block under the zero key, the classic test
    // vector; padding fills a second block.
    let config = Config::new(Algorithm::Aes128Ecb);
    let mut enc = Encrypt::new(&config, VecStream::new(vec![vec![0u8; 16]]))
        .ok()
        .unwrap();
    let out = concat(&drain(&mut enc));
    assert_eq!(out.len(), 32);
    assert_eq!(hex(&out[..16]), "66e94bd4ef8a2c3b884cfa59ca342b2e");
}

#[test]
fn backpressure_is_transparent() {
    let chunks = vec![b"not".to_vec(), b" ready yet".to_vec()];
    let config = test_config(Algorithm::Aes128Cbc);
    let mut steady = Encrypt::new(&config, VecStream::new(chunks.clone()))
        .ok()
        .unwrap();
    let mut pulsed = Encrypt::new(&config, PulseStream::new(chunks)).ok().unwrap();
    // Every "not ready" of the inner producer surfaces as the adapter's own,
    // without consuming or producing anything.
    let mut pending = 0;
    let mut out = Vec::new();
    loop {
        match pulsed.poll() {
            PollOutcome::Pending => pending += 1,
            PollOutcome::Item(c) => out.push(c),
            PollOutcome::Done => break,
            PollOutcome::Failed(e) => panic!("stream failed: {:?}", e),
        }
    }
    assert_eq!(pending, 3);
    assert_eq!(concat(&out), concat(&drain(&mut steady)));
}

#[test]
fn done_is_idempotent() {
    let config = test_config(Algorithm::Aes128Ctr);
    let mut enc = Encrypt::new(&config, VecStream::new(vec![b"tail".to_vec()]))
        .ok()
        .unwrap();
    drain(&mut enc);
    for _ in 0..3 {
        assert!(matches!(enc.poll(), PollOutcome::Done));
    }
}

#[test]
fn key_length_error() {
    let mut config = Config::new(Algorithm::Aes128Cbc);
    config.key_mut().push(0);
    match Encrypt::new(&config, VecStream::new(Vec::new())) {
        Ok(_) => panic!("a 17-byte key must be rejected"),
        Err((e, inner)) => {
            assert!(matches!(
                e,
                Error::KeyLength {
                    expected: 16,
                    actual: 17
                }
            ));
            // The inner producer comes back intact.
            let mut inner = inner;
            assert!(matches!(inner.poll(), PollOutcome::Done));
        }
    }
}

#[test]
fn iv_length_error() {
    let mut config = Config::new(Algorithm::Aes256Cbc);
    config.iv_mut().unwrap().pop();
    match Decrypt::new(&config, VecStream::new(Vec::new())) {
        Ok(_) => panic!("a 15-byte IV must be rejected"),
        Err((e, _)) => assert!(matches!(
            e,
            Error::IvLength {
                expected: 16,
                actual: 15
            }
        )),
    }
}

#[test]
fn iv_mut_none_without_iv() {
    let mut ecb = Config::new(Algorithm::Aes256Ecb);
    assert!(ecb.iv_mut().is_none());
    let mut cbc = Config::new(Algorithm::Aes256Cbc);
    assert_eq!(cbc.iv_mut().unwrap().len(), 16);
}

#[test]
fn engine_error_on_bad_padding() {
    let config = Config::new(Algorithm::Aes128Ecb);
    let mut enc = Encrypt::new(&config, VecStream::new(vec![vec![0u8; 16]]))
        .ok()
        .unwrap();
    let cipherbytes = concat(&drain(&mut enc));
    // Only the first block: its decryption ends in a zero byte, which is not
    // valid padding, so the decrypting adapter's final flush must fault.
    let mut dec = Decrypt::new(&config, VecStream::new(vec![cipherbytes[..16].to_vec()]))
        .ok()
        .unwrap();
    let mut saw_engine_error = false;
    loop {
        match dec.poll() {
            PollOutcome::Item(_) => continue,
            PollOutcome::Pending => continue,
            PollOutcome::Done => break,
            PollOutcome::Failed(e) => {
                assert!(matches!(e, Error::Engine(_)));
                saw_engine_error = true;
                break;
            }
        }
    }
    assert!(saw_engine_error);
    // Permanently faulted: later pulls keep reporting the fault.
    assert!(matches!(dec.poll(), PollOutcome::Failed(Error::Engine(_))));
}
