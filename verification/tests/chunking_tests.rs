use hashery::{Algorithm, ConfigError, DigestSession, Hashery, DEFAULT_BUFFER_SIZE};

const ALL_ALGORITHMS: [Algorithm; 8] = [
    Algorithm::MD5,
    Algorithm::SHA1,
    Algorithm::SHA256,
    Algorithm::SHA512,
    Algorithm::SHA3_256,
    Algorithm::Blake2b,
    Algorithm::Blake2s,
    Algorithm::Blake3,
];

fn digester(algorithm: Algorithm) -> Hashery {
    Hashery::build(algorithm, None).unwrap()
}

fn chunked(input: &[u8], size: usize) -> Vec<Vec<u8>> {
    input.chunks(size).map(|c| c.to_vec()).collect()
}

#[test]
fn chunk_size_invariance() {
    let input: Vec<u8> = (0u8..=255).cycle().take(5000).collect();
    for &a in ALL_ALGORITHMS.iter() {
        let h = digester(a);
        let whole = h.digest_bytes(&input).unwrap();
        for size in [1usize, 7, 1024, 10000] {
            let parts = chunked(&input, size);
            assert_eq!(h.digest_chunks(&parts).unwrap(), whole);
        }
    }
}

#[test]
fn session_matches_digest_bytes() {
    for &a in ALL_ALGORITHMS.iter() {
        let h = digester(a);
        let session = DigestSession::new(a);
        let session = session.update(b"hello ");
        let session = session.update(b"world");
        assert_eq!(session.finish(), h.digest_bytes(b"hello world").unwrap());
    }
}

#[test]
fn empty_input_all_paths_agree() {
    for &a in ALL_ALGORITHMS.iter() {
        let h = digester(a);
        let from_bytes = h.digest_bytes(b"").unwrap();
        let from_no_chunks = h.digest_chunks(&Vec::new()).unwrap();
        let from_session = DigestSession::new(a).finish();
        assert_eq!(from_bytes, from_no_chunks);
        assert_eq!(from_bytes, from_session);
    }
}

#[test]
fn zero_buffer_size_is_rejected() {
    let r = Hashery::build(Algorithm::SHA256, Some(0));
    assert_eq!(r.unwrap_err(), ConfigError::ZeroBufferSize);
}

#[test]
fn buffer_size_defaults_to_one_mebibyte() {
    let h = digester(Algorithm::SHA256);
    assert_eq!(h.buffer_size(), DEFAULT_BUFFER_SIZE);
    assert_eq!(h.buffer_size(), 1024 * 1024);
    let custom = Hashery::build(Algorithm::SHA256, Some(64)).unwrap();
    assert_eq!(custom.buffer_size(), 64);
    assert_eq!(custom.algorithm(), Algorithm::SHA256);
}
