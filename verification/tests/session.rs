use test_login_page::session::digest_hex;
use test_login_page::{decode_session_hash, hash_password_hex, ConnectionInfo};

const SAMPLE: &str = "000102030405060708090a0b0c0d0e0f101112131415161718191a1b1c1d1e1f";

fn sample_bytes() -> [u8; 32] {
    let mut b = [0u8; 32];
    for (i, x) in b.iter_mut().enumerate() {
        *x = i as u8;
    }
    b
}

#[test]
fn decode_valid_lowercase_hash() {
    assert_eq!(decode_session_hash(SAMPLE), Some(sample_bytes()));
}

#[test]
fn decode_valid_mixed_case_hash() {
    let upper = "FFfeA0" .to_string() + &"00".repeat(29);
    let h = decode_session_hash(&upper).unwrap();
    assert_eq!(h[0], 0xff);
    assert_eq!(h[1], 0xfe);
    assert_eq!(h[2], 0xa0);
    assert!(h[3..].iter().all(|&b| b == 0));
}

#[test]
fn decode_rejects_odd_length() {
    assert_eq!(decode_session_hash(&SAMPLE[..63]), None);
}

#[test]
fn decode_rejects_invalid_character() {
    let bad = "zz".to_string() + &SAMPLE[2..];
    assert_eq!(decode_session_hash(&bad), None);
}

#[test]
fn decode_rejects_wrong_length() {
    assert_eq!(decode_session_hash(&SAMPLE[..62]), None);
    let longer = SAMPLE.to_string() + "00";
    assert_eq!(decode_session_hash(&longer), None);
    assert_eq!(decode_session_hash(""), None);
}

#[test]
fn decode_rejects_non_ascii() {
    let s = "é".to_string() + &SAMPLE[2..];
    assert_eq!(decode_session_hash(&s), None);
}

#[test]
fn password_hash_is_hex_of_crate_digest() {
    for pwd in ["", "abc", "pwd_game", "ñandú"] {
        let expected = hex::encode(sha3_rust::sha3_256(pwd.as_bytes()));
        assert_eq!(hash_password_hex(pwd), expected);
        assert_ne!(hash_password_hex(pwd), hex::encode(pwd.as_bytes()));
    }
}

#[test]
fn password_hash_of_empty_password_exact() {
    assert_eq!(
        hash_password_hex(""),
        "8660c4549c11365b28e1e7d8e230b2a38c729923c14e50ee58897a1bcc2807ef"
    );
}

#[test]
fn password_hash_is_a_session_hash_text() {
    let h = hash_password_hex("pwd_game");
    assert_eq!(h.len(), 64);
    assert!(h.chars().all(|c| c.is_ascii_hexdigit() && !c.is_ascii_uppercase()));
    let bytes = decode_session_hash(&h).unwrap();
    let back: String = bytes.iter().map(|b| format!("{:02x}", b)).collect();
    assert_eq!(back, h);
}

#[test]
fn copy_session_hash_copies() {
    let info = ConnectionInfo { connection_id: 7, user_id: 3, session_hash: sample_bytes() };
    assert_eq!(info.copy_session_hash(), sample_bytes());
}

#[test]
fn digest_hex_two_digits_per_byte() {
    let mut d = [0u8; 32];
    d[0] = 0xab;
    d[1] = 0x0f;
    d[31] = 0x10;
    let h = digest_hex(&d);
    assert_eq!(&h[..4], "ab0f");
    assert_eq!(&h[62..], "10");
    assert_eq!(h.len(), 64);
    assert_eq!(decode_session_hash(&h), Some(d));
}
