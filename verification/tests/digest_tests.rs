use secret_store::digest::Sha256;
use secret_store::digest::sha256;

fn hex(bytes: &[u8]) -> String {
    let mut s = String::new();
    for b in bytes {
        s.push_str(&format!("{:02x}", b));
    }
    s
}

#[test]
fn sha256_of_empty_input() {
    let d = sha256(b"");
    assert_eq!(d.as_bytes().len(), 32);
    assert_eq!(
        hex(d.as_bytes()),
        "e3b0c44298fc1c149afbf4c8996fb92427ae41e4649b934ca495991b7852b855"
    );
}

#[test]
fn sha256_of_abc() {
    let d = sha256(b"abc");
    assert_eq!(
        hex(d.as_bytes()),
        "ba7816bf8f01cfea414140de5dae2223b00361a396177a9cb410ff61f20015ad"
    );
}

#[test]
fn incremental_digest_matches_single_step() {
    let mut ctx = Sha256::new();
    ctx.update(b"a");
    ctx.update(b"bc");
    let d = ctx.finish();
    assert_eq!(d.as_bytes(), sha256(b"abc").as_bytes());
    assert_eq!(
        hex(d.as_bytes()),
        "ba7816bf8f01cfea414140de5dae2223b00361a396177a9cb410ff61f20015ad"
    );
}
