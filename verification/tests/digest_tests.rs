use mdhasher::digest::{algorithm_of_name, Digest, DigestAlgorithm};

#[test]
fn sha256_empty_input_vector() {
    let mut d = Digest::new("sha256").unwrap();
    let h = d.hash(&[]);
    assert_eq!(h, "e3b0c44298fc1c149afbf4c8996fb92427ae41e4649b934ca495991b7852b855");
}

#[test]
fn sha1_vectors() {
    let mut d = Digest::new("sha1").unwrap();
    assert_eq!(d.hash(&[]), "da39a3ee5e6b4b0d3255bfef95601890afd80709");
    assert_eq!(d.hash(b"abc"), "a9993e364706816aba3e25717850c26c9cd0d89d");
}

#[test]
fn sha224_vector() {
    let mut d = Digest::new("224").unwrap();
    assert_eq!(
        d.hash(b"abc"),
        "23097d223405d8228642a477bda255b32aadbce4bda0b3f7e36c9da7"
    );
}

#[test]
fn sha256_vector() {
    let mut d = Digest::new("256").unwrap();
    assert_eq!(
        d.hash(b"abc"),
        "ba7816bf8f01cfea414140de5dae2223b00361a396177a9cb410ff61f20015ad"
    );
}

#[test]
fn sha384_vector() {
    let mut d = Digest::new("SHA384").unwrap();
    assert_eq!(
        d.hash(b"abc"),
        "cb00753f45a35e8bb5a03d699ac65007272c32ab0eded1631a8b605a43ff5bed8086072ba1e7cc2358baeca134c825a7"
    );
}

#[test]
fn sha512_vector() {
    let mut d = Digest::new("512").unwrap();
    assert_eq!(
        d.hash(b"abc"),
        "ddaf35a193617abacc417349ae20413112e6fa4e89a97ea20a9eeee64b55d39a2192992a274fc1a836ba3c23a3feebbd454d4423643ce80e2a9ac94fa54ca49f"
    );
}

#[test]
fn every_alias_resolves() {
    let cases: [(&str, DigestAlgorithm); 18] = [
        ("1", DigestAlgorithm::Sha1),
        ("sha1", DigestAlgorithm::Sha1),
        ("SHA1", DigestAlgorithm::Sha1),
        ("224", DigestAlgorithm::Sha224),
        ("sha224", DigestAlgorithm::Sha224),
        ("SHA224", DigestAlgorithm::Sha224),
        ("256", DigestAlgorithm::Sha256),
        ("sha256", DigestAlgorithm::Sha256),
        ("SHA256", DigestAlgorithm::Sha256),
        ("Sha256", DigestAlgorithm::Sha256),
        ("sHa256", DigestAlgorithm::Sha256),
        ("384", DigestAlgorithm::Sha384),
        ("sha384", DigestAlgorithm::Sha384),
        ("SHA384", DigestAlgorithm::Sha384),
        ("512", DigestAlgorithm::Sha512),
        ("sha512", DigestAlgorithm::Sha512),
        ("SHA512", DigestAlgorithm::Sha512),
        ("Sha512", DigestAlgorithm::Sha512),
    ];
    for (name, alg) in cases {
        assert_eq!(algorithm_of_name(name), Some(alg));
        let engine = Digest::new(name).unwrap();
        assert_eq!(engine.algorithm, alg);
    }
}

#[test]
fn unknown_names_are_rejected() {
    for name in ["md5", "SHA-256", "sha", "", "2566", "sha256 "] {
        assert!(algorithm_of_name(name).is_none());
        assert!(Digest::new(name).is_none());
    }
}

#[test]
fn aliases_give_the_same_engine() {
    let mut a = Digest::new("256").unwrap();
    let mut b = Digest::new("SHA256").unwrap();
    let mut c = Digest::new("Sha256").unwrap();
    let first = a.hash(b"some bytes");
    assert_eq!(first, b.hash(b"some bytes"));
    assert_eq!(first, c.hash(b"some bytes"));
}

#[test]
fn reused_engine_repeats_digests() {
    let mut d = Digest::new("sha256").unwrap();
    let first = d.hash(b"same content");
    let second = d.hash(b"same content");
    assert_eq!(first, second);
}

#[test]
fn state_is_clean_between_files() {
    let mut d = Digest::new("sha1").unwrap();
    let _ = d.hash(b"something else entirely");
    let mut fresh = Digest::new("sha1").unwrap();
    assert_eq!(d.hash(b"abc"), fresh.hash(b"abc"));
    assert_eq!(d.hash(&[]), "da39a3ee5e6b4b0d3255bfef95601890afd80709");
}
