use neor::frame::{decode_header, encode_frame};

#[test]
fn frame_holds_token_length_and_body() {
    let f = encode_frame(0x0102, b"[2]");
    assert_eq!(f, vec![2, 1, 0, 0, 0, 0, 0, 0, 3, 0, 0, 0, b'[', b'2', b']']);
}

#[test]
fn header_round_trip() {
    let f = encode_frame(u64::MAX - 5, b"[1,[59,[]]]");
    assert_eq!(decode_header(&f), Some((u64::MAX - 5, 11)));
}

#[test]
fn short_header_is_refused() {
    assert_eq!(decode_header(&[1, 2, 3]), None);
}
