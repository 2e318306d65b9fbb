use ipmi_rs::rmcp::crypto::hmac::RunningHmac;
use ipmi_rs::rmcp::crypto::sha1::{sha1_digest, Sha1};

fn hex(digest: &[u8]) -> String {
    let mut out = String::new();
    for byte in digest {
        out.push_str(&format!("{:02x}", byte));
    }
    out
}

fn hmac(key: &[u8], data: &[u8]) -> String {
    hex(&RunningHmac::new(key).feed(data).finalize())
}

#[test]
fn sha1_of_nothing() {
    assert_eq!(hex(&sha1_digest(b"")), "da39a3ee5e6b4b0d3255bfef95601890afd80709");
}

#[test]
fn sha1_of_abc() {
    assert_eq!(hex(&sha1_digest(b"abc")), "a9993e364706816aba3e25717850c26c9cd0d89d");
}

#[test]
fn sha1_of_two_blocks() {
    assert_eq!(
        hex(&sha1_digest(b"abcdbcdecdefdefgefghfghighijhijkijkljklmklmnlmnomnopnopq")),
        "84983e441c3bd26ebaae4aa1f95129e5e54670f1"
    );
}

#[test]
fn sha1_of_long_inputs() {
    assert_eq!(hex(&sha1_digest(&[b'a'; 1000])), "291e9a6c66994949b57ba5e650361e98fc36b1ba");
    let mut all = Vec::new();
    for _ in 0..3 {
        for byte in 0..=255u8 {
            all.push(byte);
        }
    }
    assert_eq!(hex(&sha1_digest(&all)), "ac2a264c8ec1f4232a40854e8239bc3a697ab1d2");
}

#[test]
fn sha1_around_the_padding_boundaries() {
    assert_eq!(hex(&sha1_digest(&[b'x'; 55])), "cef734ba81a024479e09eb5a75b6ddae62e6abf1");
    assert_eq!(hex(&sha1_digest(&[b'x'; 56])), "901305367c259952f4e7af8323f480d59f81335b");
    assert_eq!(hex(&sha1_digest(&[b'x'; 63])), "0ddc4e0cccd9a12850deb5abb0853a4425559fec");
    assert_eq!(hex(&sha1_digest(&[b'x'; 64])), "bb2fa3ee7afb9f54c6dfb5d021f14b1ffe40c163");
    assert_eq!(hex(&sha1_digest(&[b'x'; 119])), "4300320394f7ee239bcdce7d3b8bcee173a0cd5c");
    assert_eq!(hex(&sha1_digest(&[b'x'; 120])), "ceb2821639c4b6dcb10bce0e522ca2e608ce056d");
}

#[test]
fn sha1_in_pieces_equals_sha1_at_once() {
    let data: Vec<u8> = (0..300u32).map(|i| (i * 7 % 251) as u8).collect();
    let whole = sha1_digest(&data);
    for cut in [0usize, 1, 63, 64, 65, 128, 299, 300] {
        let pieces = Sha1::new().update(&data[..cut]).update(&data[cut..]).finalize();
        assert_eq!(pieces, whole);
    }
    let mut hasher = Sha1::new();
    for byte in &data {
        hasher = hasher.update(&[*byte]);
    }
    assert_eq!(hasher.finalize(), whole);
}

#[test]
fn hmac_known_answers() {
    assert_eq!(hmac(&[0x0b; 20], b"Hi There"), "b617318655057264e28bc0b6fb378c8ef146be00");
    assert_eq!(
        hmac(b"Jefe", b"what do ya want for nothing?"),
        "effcdf6ae5eb2fa2d27416d5f184df9c259a7c79"
    );
    assert_eq!(hmac(&[0xaa; 20], &[0xdd; 50]), "125d7342b9ac11cd91a39af48aa17b4f63f175d3");
    let key: Vec<u8> = (1..=25u8).collect();
    assert_eq!(hmac(&key, &[0xcd; 50]), "4c9007f4026250c6bc8414f9bf50c86c2d7235da");
    assert_eq!(hmac(b"", b""), "fbdb1d1b18aa6c08324b7d64b71fb76370690e1d");
}

#[test]
fn hmac_with_keys_around_the_block_size() {
    assert_eq!(
        hmac(&[0xaa; 64], b"exactly one block of key"),
        "839d3f2e2be5f44414a97eb3c2e057e0fbce044d"
    );
    assert_eq!(
        hmac(&[0xaa; 65], b"one more than a block of key"),
        "fab8fcf95d365e391456c22dc432ec207b0e0db0"
    );
    assert_eq!(
        hmac(&[0xaa; 80], b"Test Using Larger Than Block-Size Key - Hash Key First"),
        "aa4ae5e15272d00e95705637ce8a3b55ed402112"
    );
    assert_eq!(
        hmac(
            &[0xaa; 80],
            b"Test Using Larger Than Block-Size Key and Larger Than One Block-Size Data"
        ),
        "e8e99d0f45237d786d6bbaa7965c7808bbff1a91"
    );
}

#[test]
fn hmac_feed_is_chainable_and_order_matters() {
    let at_once = RunningHmac::new(b"Jefe").feed(b"what do ya want for nothing?").finalize();
    let in_pieces = RunningHmac::new(b"Jefe")
        .feed(b"what do ya ")
        .feed(b"")
        .feed(b"want for nothing?")
        .finalize();
    assert_eq!(at_once, in_pieces);
    let swapped =
        RunningHmac::new(b"Jefe").feed(b"want for nothing?").feed(b"what do ya ").finalize();
    assert_ne!(at_once, swapped);
}

#[test]
fn hmac_instances_are_independent() {
    let first = RunningHmac::new(&[0x0b; 20]);
    let second = RunningHmac::new(&[0x0b; 20]);
    let _ = first.feed(b"noise").finalize();
    assert_eq!(
        hex(&second.feed(b"Hi There").finalize()),
        "b617318655057264e28bc0b6fb378c8ef146be00"
    );
}
