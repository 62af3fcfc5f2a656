use hashery::{Algorithm, Hashery};

const ALL_ALGORITHMS: [Algorithm; 8] = [
    Algorithm::MD5,
    Algorithm::SHA1,
    Algorithm::SHA256,
    Algorithm::SHA512,
    Algorithm::SHA3_256,
    Algorithm::Blake2b,
    Algorithm::Blake2s,
    Algorithm::Blake3,
];

fn digester(algorithm: Algorithm) -> Hashery {
    Hashery::build(algorithm, None).unwrap()
}

#[test]
fn test_md5_string() {
    let hashery = digester(Algorithm::MD5);
    let hash = hashery.digest_str("hello").unwrap();
    println!("{:?}", hash);
    assert_eq!("5d41402abc4b2a76b9719d911017c592", hash);
}

#[test]
fn known_vector_md5() {
    let h = digester(Algorithm::MD5);
    assert_eq!(h.digest_bytes(b"").unwrap(), "d41d8cd98f00b204e9800998ecf8427e");
    assert_eq!(h.digest_str("hello").unwrap(), "5d41402abc4b2a76b9719d911017c592");
}

#[test]
fn known_vector_sha1() {
    let h = digester(Algorithm::SHA1);
    assert_eq!(h.digest_bytes(b"").unwrap(), "da39a3ee5e6b4b0d3255bfef95601890afd80709");
    assert_eq!(h.digest_str("abc").unwrap(), "a9993e364706816aba3e25717850c26c9cd0d89d");
}

#[test]
fn known_vector_sha256() {
    let h = digester(Algorithm::SHA256);
    assert_eq!(
        h.digest_bytes(b"").unwrap(),
        "e3b0c44298fc1c149afbf4c8996fb92427ae41e4649b934ca495991b7852b855"
    );
    assert_eq!(
        h.digest_str("abc").unwrap(),
        "ba7816bf8f01cfea414140de5dae2223b00361a396177a9cb410ff61f20015ad"
    );
}

#[test]
fn known_vector_sha512() {
    let h = digester(Algorithm::SHA512);
    assert_eq!(
        h.digest_bytes(b"").unwrap(),
        "cf83e1357eefb8bdf1542850d66d8007d620e4050b5715dc83f4a921d36ce9ce\
         47d0d13c5d85f2b0ff8318d2877eec2f63b931bd47417a81a538327af927da3e"
    );
    assert_eq!(
        h.digest_str("abc").unwrap(),
        "ddaf35a193617abacc417349ae20413112e6fa4e89a97ea20a9eeee64b55d39a\
         2192992a274fc1a836ba3c23a3feebbd454d4423643ce80e2a9ac94fa54ca49f"
    );
}

#[test]
fn known_vector_sha3_256() {
    let h = digester(Algorithm::SHA3_256);
    assert_eq!(
        h.digest_bytes(b"").unwrap(),
        "a7ffc6f8bf1ed76651c14756a061d662f580ff4de43b49fa82d80a4b80f8434a"
    );
    assert_eq!(
        h.digest_str("abc").unwrap(),
        "3a985da74fe225b2045c172d6bd390bd855f086e3e9d525b46bfe24511431532"
    );
}

#[test]
fn known_vector_blake2b() {
    let h = digester(Algorithm::Blake2b);
    assert_eq!(
        h.digest_bytes(b"").unwrap(),
        "786a02f742015903c6c6fd852552d272912f4740e15847618a86e217f71f5419\
         d25e1031afee585313896444934eb04b903a685b1448b755d56f701afe9be2ce"
    );
}

#[test]
fn known_vector_blake2s() {
    let h = digester(Algorithm::Blake2s);
    assert_eq!(
        h.digest_bytes(b"").unwrap(),
        "69217a3079908094e11121d042354a7c1f55b6482ca1a51e1b250dfd1ed0eef9"
    );
}

#[test]
fn known_vector_blake3() {
    let h = digester(Algorithm::Blake3);
    assert_eq!(
        h.digest_bytes(b"").unwrap(),
        "af1349b9f5f9a1a6a0404dea36dcc9499bcb25c9adc112b7cc9a93cae41f3262"
    );
}

#[test]
fn known_vectors_fox() {
    let input = b"The quick brown fox jumps over the lazy dog";
    assert_eq!(
        digester(Algorithm::MD5).digest_bytes(input).unwrap(),
        "9e107d9d372bb6826bd81d3542a419d6"
    );
    assert_eq!(
        digester(Algorithm::SHA1).digest_bytes(input).unwrap(),
        "2fd4e1c67a2d28fced849ee1bb76e7391b93eb12"
    );
    assert_eq!(
        digester(Algorithm::SHA256).digest_bytes(input).unwrap(),
        "d7a8fbb307d7809469ca9abcb0082e4f8d5651e46d3cdb762d02d0bf37c9e592"
    );
}

#[test]
fn determinism_all_algorithms() {
    let input = b"the quick brown fox jumps over the lazy dog";
    for &a in ALL_ALGORITHMS.iter() {
        let h = digester(a);
        let first = h.digest_bytes(input).unwrap();
        let second = h.digest_bytes(input).unwrap();
        assert_eq!(first, second);
    }
}

#[test]
fn output_length_and_hex_chars() {
    let expected_len = [32usize, 40, 64, 128, 64, 128, 64, 64];
    let input = b"lengths";
    for (i, &a) in ALL_ALGORITHMS.iter().enumerate() {
        let h = digester(a);
        let d = h.digest_bytes(input).unwrap();
        assert_eq!(d.len(), expected_len[i]);
        assert!(d.chars().all(|c| c.is_ascii_hexdigit() && !c.is_ascii_uppercase()));
    }
}

#[test]
fn digest_str_matches_digest_bytes() {
    for &a in ALL_ALGORITHMS.iter() {
        let h = digester(a);
        assert_eq!(h.digest_str("hello").unwrap(), h.digest_bytes(b"hello").unwrap());
    }
}
