use phorg::hash::{
    digest_crc32, digest_md5, digest_sha1, digest_sha256, Crc32State, Md5State, Sha1State,
    Sha256State,
};

#[test]
fn hash_names() {
    assert_eq!("sha1", phorg::hash::Hash::Sha1.name());
    assert_eq!("sha256", phorg::hash::Hash::Sha256.name());
    assert_eq!("md5", phorg::hash::Hash::Md5.name());
    assert_eq!("crc32", phorg::hash::Hash::Crc32.name());
}

#[test]
fn hash_default_is_crc32() {
    assert_eq!(phorg::hash::Hash::Crc32, phorg::hash::Hash::default());
}

#[test]
fn crc32_known_values() {
    // The standard CRC-32 check value, and the zero-padded empty digest.
    assert_eq!("cbf43926", digest_crc32(&b"123456789".to_vec()).as_str());
    assert_eq!("00000000", digest_crc32(&b"".to_vec()).as_str());
}

#[test]
fn sha1_known_values() {
    assert_eq!(
        "da39a3ee5e6b4b0d3255bfef95601890afd80709",
        digest_sha1(&b"".to_vec()).as_str()
    );
    assert_eq!(
        "a9993e364706816aba3e25717850c26c9cd0d89d",
        digest_sha1(&b"abc".to_vec()).as_str()
    );
}

#[test]
fn sha256_known_values() {
    assert_eq!(
        "e3b0c44298fc1c149afbf4c8996fb92427ae41e4649b934ca495991b7852b855",
        digest_sha256(&b"".to_vec()).as_str()
    );
    assert_eq!(
        "ba7816bf8f01cfea414140de5dae2223b00361a396177a9cb410ff61f20015ad",
        digest_sha256(&b"abc".to_vec()).as_str()
    );
}

#[test]
fn md5_known_values() {
    assert_eq!("d41d8cd98f00b204e9800998ecf8427e", digest_md5(&b"".to_vec()).as_str());
    assert_eq!("900150983cd24fb0d6963f7d28e17f72", digest_md5(&b"abc".to_vec()).as_str());
}

#[test]
fn digest_dispatch() {
    let bytes = b"123456789".to_vec();
    assert_eq!(digest_crc32(&bytes), phorg::hash::Hash::Crc32.digest(&bytes));
    assert_eq!(digest_sha1(&bytes), phorg::hash::Hash::Sha1.digest(&bytes));
    assert_eq!(digest_sha256(&bytes), phorg::hash::Hash::Sha256.digest(&bytes));
    assert_eq!(digest_md5(&bytes), phorg::hash::Hash::Md5.digest(&bytes));
}

#[test]
fn streaming_matches_whole() {
    // Feeding the bytes in pieces digests their concatenation.
    let mut s = Sha1State::new();
    s.update(b"a");
    s.update(b"bc");
    let piecewise = s.finish();
    let mut s = Sha1State::new();
    s.update(b"abc");
    assert_eq!(s.finish(), piecewise);

    let mut s = Sha256State::new();
    s.update(b"ab");
    s.update(b"c");
    let piecewise = s.finish();
    let mut s = Sha256State::new();
    s.update(b"abc");
    assert_eq!(s.finish(), piecewise);

    let mut s = Md5State::new();
    s.update(b"");
    s.update(b"abc");
    let piecewise = s.finish();
    let mut s = Md5State::new();
    s.update(b"abc");
    assert_eq!(s.finish(), piecewise);

    let mut s = Crc32State::new();
    s.update(b"1234");
    s.update(b"56789");
    assert_eq!(0xcbf43926u32, s.finish());
}

#[test]
fn digest_is_deterministic() {
    // The same bytes always give the same digest string.
    let a = b"the very same content".to_vec();
    let b = b"the very same content".to_vec();
    assert_eq!(phorg::hash::Hash::Crc32.digest(&a), phorg::hash::Hash::Crc32.digest(&b));
    assert_eq!(phorg::hash::Hash::Sha256.digest(&a), phorg::hash::Hash::Sha256.digest(&b));
}
