use uplay_auth::framing::{
    decode_frame, encode_frame, outer_payload_len, u32_from_be, u32_to_be, unwrap_inner,
    wrap_inner, FrameError, MAX_FRAME_LEN,
};

#[test]
fn be_prefix_round_trip() {
    assert_eq!(u32_to_be(0x0102_0304), vec![1, 2, 3, 4]);
    assert_eq!(u32_from_be(&[0, 0, 1, 0]), 256);
    assert_eq!(u32_from_be(&u32_to_be(u32::MAX)), u32::MAX);
}

#[test]
fn frame_round_trip_small() {
    let payload = vec![7u8, 8, 9];
    let f = encode_frame(&payload).unwrap();
    assert_eq!(f, vec![0, 0, 0, 3, 7, 8, 9]);
    assert_eq!(decode_frame(&f).unwrap(), payload);
}

#[test]
fn frame_round_trip_one_byte_and_largest() {
    let one = vec![0xffu8];
    assert_eq!(decode_frame(&encode_frame(&one).unwrap()).unwrap(), one);
    let big = vec![0x5au8; MAX_FRAME_LEN];
    let f = encode_frame(&big).unwrap();
    assert_eq!(&f[..4], &[0, 0x10, 0, 0]);
    assert_eq!(decode_frame(&f).unwrap(), big);
}

#[test]
fn frame_length_mismatch_rejected() {
    let mut f = encode_frame(&[1, 2, 3]).unwrap();
    f.push(4);
    assert_eq!(decode_frame(&f), Err(FrameError::LengthMismatch));
    assert_eq!(decode_frame(&[0, 0, 0, 3, 1, 2]), Err(FrameError::LengthMismatch));
}

#[test]
fn frame_zero_length_rejected() {
    assert_eq!(encode_frame(&[]), Err(FrameError::ZeroLength));
    assert_eq!(outer_payload_len(&[0, 0, 0, 0]), Err(FrameError::ZeroLength));
    assert_eq!(decode_frame(&[0, 0, 0, 0]), Err(FrameError::ZeroLength));
}

#[test]
fn frame_oversized_rejected_from_header() {
    assert_eq!(outer_payload_len(&[0, 0x10, 0, 0]), Ok(MAX_FRAME_LEN));
    assert_eq!(outer_payload_len(&[0, 0x10, 0, 1]), Err(FrameError::TooLarge));
    assert_eq!(outer_payload_len(&[0xff, 0xff, 0xff, 0xff]), Err(FrameError::TooLarge));
    assert_eq!(decode_frame(&[0x7f, 0, 0, 0, 1]), Err(FrameError::TooLarge));
    let big = vec![0u8; MAX_FRAME_LEN + 1];
    assert_eq!(encode_frame(&big), Err(FrameError::TooLarge));
}

#[test]
fn frame_short_header_rejected() {
    assert_eq!(outer_payload_len(&[0, 0, 1]), Err(FrameError::Truncated));
    assert_eq!(decode_frame(&[]), Err(FrameError::Truncated));
}

#[test]
fn inner_frame_round_trip() {
    let f = wrap_inner(&[0xaa, 0xbb]).unwrap();
    assert_eq!(f, vec![0, 0, 0, 2, 0xaa, 0xbb]);
    assert_eq!(unwrap_inner(&f).unwrap(), vec![0xaa, 0xbb]);
    assert_eq!(unwrap_inner(&wrap_inner(&[]).unwrap()).unwrap(), Vec::<u8>::new());
}

#[test]
fn inner_frame_ignores_trailing_bytes() {
    assert_eq!(unwrap_inner(&[0, 0, 0, 1, 9, 10, 11]).unwrap(), vec![9]);
}

#[test]
fn inner_frame_truncation_rejected() {
    assert_eq!(unwrap_inner(&[0, 0, 0]), Err(FrameError::Truncated));
    assert_eq!(unwrap_inner(&[0, 0, 0, 5, 1, 2]), Err(FrameError::Truncated));
}
