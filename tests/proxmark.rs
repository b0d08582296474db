use passauf::proxmark::{
    check_response_status, convert_mix_args_to_ng, decode_response_frame, encode_command_frame, merge_len_and_ng,
    ping_payload, response_frame_length, serialize_14b_command, split_len_and_ng, Command, CRCMismatchError,
    FrameError, PreambleMismatchError, Status,
};

#[test]
fn length_and_ng_bit() {
    assert_eq!(merge_len_and_ng(32, true), 0x8020);
    assert_eq!(merge_len_and_ng(32, false), 0x0020);
    assert_eq!(split_len_and_ng(0x8020), (32, true));
    assert_eq!(split_len_and_ng(0x0200), (0x200, false));
}

#[test]
fn command_frame_layout() {
    let frame = encode_command_frame(Command::Ping.code(), &vec![1, 2], true).unwrap();
    assert_eq!(frame, vec![0x50, 0x4D, 0x33, 0x61, 0x02, 0x80, 0x09, 0x01, 1, 2, 0x61, 0x33]);
    let err = encode_command_frame(0x0109, &vec![0; 513], true).unwrap_err();
    assert_eq!((err.found_len, err.max_len), (513, 512));
}

#[test]
fn mix_arguments_and_14b_payload() {
    let v = convert_mix_args_to_ng(&vec![0xAA], 0x0102, 3, 0);
    assert_eq!(v.len(), 25);
    assert_eq!(&v[0..2], &[0x02, 0x01]);
    assert_eq!(v[8], 3);
    assert_eq!(v[24], 0xAA);
    assert_eq!(serialize_14b_command(0x0104, 420000, &vec![9]), vec![0x04, 0x01, 0xA0, 0x68, 0x06, 0x00, 0x01, 0x00, 9]);
}

#[test]
fn ng_response_frame() {
    let frame = vec![0x50, 0x4D, 0x33, 0x62, 0x02, 0x80, 0x00, 0x00, 0x09, 0x01, 7, 8, 0x62, 0x33];
    assert_eq!(response_frame_length(&frame[..6]), Ok(14));
    let r = decode_response_frame(&frame, 0x0109).unwrap();
    assert!(r.ng);
    assert_eq!((r.status, r.cmd, r.length), (0, 0x0109, 2));
    assert_eq!(r.data, vec![7, 8]);
}

#[test]
fn mix_response_frame_for_14a() {
    let mut frame = vec![0x50, 0x4D, 0x33, 0x62, 24 + 4, 0x00, 0x00, 0x00, 0xFF, 0x00];
    frame.extend(3u64.to_le_bytes());
    frame.extend(0u64.to_le_bytes());
    frame.extend(0u64.to_le_bytes());
    frame.extend([1, 2, 3, 4, 0x62, 0x33]);
    let r = decode_response_frame(&frame, 0x0385).unwrap();
    assert!(!r.ng);
    assert_eq!(r.arg0, 3);
    assert_eq!(r.data, vec![1, 2, 3]);
    let r = decode_response_frame(&frame, 0x0109).unwrap();
    assert_eq!(r.data, vec![1, 2, 3, 4]);
}

#[test]
fn broken_response_frames() {
    let good = vec![0x50, 0x4D, 0x33, 0x62, 0x00, 0x80, 0x00, 0x00, 0x09, 0x01, 0x62, 0x33];
    let mut bad_preamble = good.clone();
    bad_preamble[3] = 0x61;
    assert_eq!(decode_response_frame(&bad_preamble, 0x0109), Err(FrameError::Preamble(PreambleMismatchError)));
    let mut bad_crc = good.clone();
    bad_crc[11] = 0;
    assert_eq!(decode_response_frame(&bad_crc, 0x0109), Err(FrameError::Crc(CRCMismatchError)));
    assert_eq!(decode_response_frame(&good[..11], 0x0109), Err(FrameError::Truncated));
    assert_eq!(response_frame_length(&good[..3]), Err(FrameError::Truncated));
}

#[test]
fn response_status_errors() {
    assert!(check_response_status(0).is_ok());
    let e = check_response_status(-4).unwrap_err();
    assert_eq!(e.error_code, -4);
    assert_eq!(e.error_name, Some("ETimeout".to_string()));
    assert_eq!(check_response_status(-50).unwrap_err().error_name, None);
    assert_eq!(Status::from_repr(-128), Some(Status::Reserved));
    assert_eq!(Status::Reserved.code(), -128);
}

#[test]
fn ping_data() {
    let p = ping_payload();
    assert_eq!(p.len(), 32);
    assert_eq!(p[31], 31);
}
