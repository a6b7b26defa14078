use spiel::error::SpielError;
use spiel::model::spec;
use spiel::model_hash::{model_file_verdict, ModelDigest};

const ABC_SHA256: &str = "ba7816bf8f01cfea414140de5dae2223b00361a396177a9cb410ff61f20015ad";
const MAGIC: [u8; 4] = [0x6c, 0x6d, 0x67, 0x67];

fn digest_of(chunks: &[&[u8]]) -> ModelDigest {
    let mut d = ModelDigest::new();
    for c in chunks {
        d.feed(c);
    }
    d
}

#[test]
fn digest_of_chunks_is_digest_of_whole() {
    assert_eq!(digest_of(&[b"a", b"bc"]).hex_digest(), ABC_SHA256);
    assert_eq!(digest_of(&[b"abc"]).hex_digest(), ABC_SHA256);
    assert_eq!(
        ModelDigest::new().hex_digest(),
        "e3b0c44298fc1c149afbf4c8996fb92427ae41e4649b934ca495991b7852b855"
    );
}

#[test]
fn matching_checksum_gives_length_regardless_of_case() {
    let d = digest_of(&[b"ab", b"c"]);
    assert_eq!(d.check(&ABC_SHA256.to_uppercase(), 3, "m.bin").unwrap(), 3);
}

#[test]
fn mismatching_checksum_names_both_digests() {
    let d = digest_of(&[b"abd"]);
    match d.check(ABC_SHA256, 3, "m.bin") {
        Err(SpielError::Model(m)) => {
            assert!(m.starts_with(&format!("m.bin checksum mismatch: expected {} but got ", ABC_SHA256)));
            assert!(!m.ends_with(ABC_SHA256));
        }
        other => panic!("unexpected {:?}", other),
    }
}

#[test]
fn file_verdict_follows_header_then_checksum() {
    let s = spec("tiny.en").unwrap();
    let big: u64 = 75 * 1024 * 1024;
    // Truncated file.
    match model_file_verdict(&MAGIC[..2], big, &s, "m", Ok(None), ModelDigest::new()) {
        Err(SpielError::Model(m)) => assert_eq!(m, "model file is truncated"),
        other => panic!("unexpected {:?}", other),
    }
    // Wrong magic.
    match model_file_verdict(b"abcd", big, &s, "m", Ok(None), ModelDigest::new()) {
        Err(SpielError::Model(m)) => assert_eq!(m, "m is not a valid GGML whisper model"),
        other => panic!("unexpected {:?}", other),
    }
    // Too small.
    match model_file_verdict(&MAGIC, 10, &s, "m", Ok(None), ModelDigest::new()) {
        Err(SpielError::Model(m)) => assert_eq!(m, "m is smaller than expected (10 < 39321600)"),
        other => panic!("unexpected {:?}", other),
    }
    // No checksum to hold it to.
    assert_eq!(model_file_verdict(&MAGIC, big, &s, "m", Ok(None), ModelDigest::new()).unwrap(), big);
    // The checksum could not be found.
    assert!(matches!(
        model_file_verdict(&MAGIC, big, &s, "m", Err(SpielError::Model("x".into())), ModelDigest::new()),
        Err(SpielError::Model(m)) if m == "x"
    ));
    // Held to the digest of what was read.
    let ok = model_file_verdict(&MAGIC, big, &s, "m", Ok(Some(ABC_SHA256.into())), digest_of(&[b"abc"]));
    assert_eq!(ok.unwrap(), big);
    let bad = model_file_verdict(&MAGIC, big, &s, "m", Ok(Some(ABC_SHA256.into())), digest_of(&[b"abcd"]));
    assert!(matches!(bad, Err(SpielError::Model(_))));
}
