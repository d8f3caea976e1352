use hotshot::encoding::{data_url, dec_string, hex4, mime_for, percent_decode};

#[test]
fn hex4_writes_four_lowercase_digits() {
    assert_eq!(hex4(0x0000), "0000");
    assert_eq!(hex4(0x00ff), "00ff");
    assert_eq!(hex4(0xabcd), "abcd");
    assert_eq!(hex4(0xffff), "ffff");
    assert_eq!(hex4(0x1a2b), "1a2b");
}

#[test]
fn dec_string_writes_plain_decimals() {
    assert_eq!(dec_string(0), "0");
    assert_eq!(dec_string(7), "7");
    assert_eq!(dec_string(42), "42");
    assert_eq!(dec_string(90), "90");
    assert_eq!(dec_string(255), "255");
}

#[test]
fn percent_decode_unescapes_hex_pairs() {
    assert_eq!(percent_decode("/plain/path.png"), "/plain/path.png");
    assert_eq!(percent_decode("a%20b"), "a b");
    assert_eq!(percent_decode("%2Fhome%2Fx"), "/home/x");
    // An unparseable pair stays as it was written.
    assert_eq!(percent_decode("%zz"), "%zz");
    // A pair cut short by the end of the input is padded with zeroes.
    assert_eq!(percent_decode("%4"), "@");
}

#[test]
fn mime_follows_the_recorded_format() {
    assert_eq!(mime_for("png"), "image/png");
    assert_eq!(mime_for("jpeg"), "image/jpeg");
    assert_eq!(mime_for("jpg"), "image/jpeg");
    assert_eq!(mime_for("webp"), "image/webp");
    assert_eq!(mime_for("bmp"), "image/png");
}

#[test]
fn data_url_carries_the_base64_payload() {
    // The encoding must be the real base64 text, not the raw bytes.
    assert_eq!(data_url("png", &vec![1u8, 2, 3]), "data:image/png;base64,AQID");
    assert_eq!(
        data_url("jpeg", &vec![255u8, 0, 128, 7]),
        "data:image/jpeg;base64,/wCABw=="
    );
    assert_eq!(data_url("webp", &Vec::new()), "data:image/webp;base64,");
}
