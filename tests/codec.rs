use spire::codec::{
    decode_frame, decode_header, encode_frame, encode_header, Frame, FrameError, Header,
    ProtocolCategory, HEADER_SIZE,
};

#[test]
fn header_bytes_are_tag_then_big_endian_length() {
    let bytes = encode_header(Header { category: ProtocolCategory::Net, length: 0x0102_0304 });
    assert_eq!(bytes, vec![2, 1, 2, 3, 4]);
    assert_eq!(bytes.len(), HEADER_SIZE);
}

#[test]
fn header_decodes_each_category() {
    assert_eq!(decode_header(&[1, 0, 0, 0, 9]), Header { category: ProtocolCategory::Auth, length: 9 });
    assert_eq!(decode_header(&[2, 0, 0, 1, 0]), Header { category: ProtocolCategory::Net, length: 256 });
    assert_eq!(
        decode_header(&[3, 255, 255, 255, 255]),
        Header { category: ProtocolCategory::Game, length: u32::MAX }
    );
}

#[test]
fn unknown_tag_decodes_to_unknown_category() {
    for tag in [0u8, 4, 200, 255] {
        let h = decode_header(&[tag, 0, 0, 0, 3]);
        assert_eq!(h.category, ProtocolCategory::Unknown);
        assert_eq!(h.length, 3);
    }
    assert_eq!(decode_frame(&[9, 0, 0, 0, 1, 42], 1024), Err(FrameError::UnknownCategory));
}

#[test]
fn frame_round_trip() {
    let frames = vec![
        Frame { category: ProtocolCategory::Auth, payload: vec![] },
        Frame { category: ProtocolCategory::Net, payload: vec![1, 2, 3] },
        Frame { category: ProtocolCategory::Game, payload: (0..=255u8).collect() },
    ];
    for f in frames {
        let bytes = encode_frame(&f);
        assert_eq!(bytes.len(), HEADER_SIZE + f.payload.len());
        assert_eq!(decode_frame(&bytes, 1024), Ok(f.clone()));
    }
}

#[test]
fn encode_frame_exact_bytes() {
    let f = Frame { category: ProtocolCategory::Game, payload: vec![7, 8] };
    assert_eq!(encode_frame(&f), vec![3, 0, 0, 0, 2, 7, 8]);
}

#[test]
fn frame_errors() {
    assert_eq!(decode_frame(&[1, 0, 0], 1024), Err(FrameError::Incomplete));
    assert_eq!(decode_frame(&[1, 0, 0, 0, 3, 1, 2], 1024), Err(FrameError::Incomplete));
    assert_eq!(decode_frame(&[1, 0, 0, 0, 1, 1, 2], 1024), Err(FrameError::TrailingBytes));
    assert_eq!(decode_frame(&[1, 0, 0, 4, 1], 1024), Err(FrameError::TooLong));
    assert_eq!(decode_frame(&[0, 0, 0, 0, 0], 1024), Err(FrameError::UnknownCategory));
}

#[test]
fn frame_at_the_length_bound() {
    let f = Frame { category: ProtocolCategory::Auth, payload: vec![5; 16] };
    let bytes = encode_frame(&f);
    assert_eq!(decode_frame(&bytes, 16), Ok(f));
    assert_eq!(decode_frame(&bytes, 15), Err(FrameError::TooLong));
}
