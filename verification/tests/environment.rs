use mapirs::environment::{make_subfolder_name_from_content, sha_head};
use sha2::{Digest, Sha256};

#[test]
fn sha_head_works() {
    let sha256 = Sha256::new();
    let out = sha_head(&sha256.finalize().as_slice().to_vec());
    assert_eq!("e3b0", out);
}

#[test]
fn sha_head_pads_small_nibbles() {
    // 0x0a 0x0b -> "0a0b", zero-padded, lower-case
    let out = sha_head(&vec![0x0a, 0x0b, 0xff]);
    assert_eq!("0a0b", out);
}

#[test]
fn subfolder_name_comes_from_the_content() {
    // SHA-256("") = e3b0c442..., SHA-256("hello") = 2cf24dba...
    assert_eq!(make_subfolder_name_from_content(&vec![]), "e3b0");
    assert_eq!(make_subfolder_name_from_content(&b"hello".to_vec()), "2cf2");
    // deterministic across calls
    assert_eq!(
        make_subfolder_name_from_content(&b"hello".to_vec()),
        make_subfolder_name_from_content(&b"hello".to_vec())
    );
}
