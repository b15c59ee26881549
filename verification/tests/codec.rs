//! Tests of the delimiter framing codec.

use tokio_file_unix::codec::DelimCodec;

#[test]
fn round_trip() {
    let codec = DelimCodec::new(b'\n');
    let mut stream: Vec<u8> = Vec::new();
    codec.encode(&b"aaaa".to_vec(), &mut stream);
    codec.encode(&b"bb".to_vec(), &mut stream);
    codec.encode(&b"c".to_vec(), &mut stream);
    assert_eq!(stream, b"aaaa\nbb\nc\n".to_vec());

    let mut frames: Vec<Vec<u8>> = Vec::new();
    while let Some(frame) = codec.decode(&mut stream) {
        frames.push(frame);
    }
    assert_eq!(
        frames,
        vec![b"aaaa\n".to_vec(), b"bb\n".to_vec(), b"c\n".to_vec()]
    );
    assert!(stream.is_empty());
    assert_eq!(codec.decode_eof(&mut stream), None);
}

#[test]
fn eos_without_trailing_delimiter() {
    let codec = DelimCodec::new(b'\n');
    let mut buf = b"xyz".to_vec();
    assert_eq!(codec.decode(&mut buf), None);
    assert_eq!(buf, b"xyz".to_vec());
    assert_eq!(codec.decode_eof(&mut buf), Some(b"xyz".to_vec()));
    assert!(buf.is_empty());
    assert_eq!(codec.decode_eof(&mut buf), None);
}

#[test]
fn eos_empty_remainder() {
    let codec = DelimCodec::new(b'\n');
    let mut buf: Vec<u8> = Vec::new();
    assert_eq!(codec.decode(&mut buf), None);
    assert_eq!(codec.decode_eof(&mut buf), None);
    assert!(buf.is_empty());
}

#[test]
fn bytes_accumulate_until_delimiter() {
    let codec = DelimCodec::new(b'\n');
    let mut buf = b"ab".to_vec();
    assert_eq!(codec.decode(&mut buf), None);
    buf.extend_from_slice(b"c\ntail");
    assert_eq!(codec.decode(&mut buf), Some(b"abc\n".to_vec()));
    assert_eq!(buf, b"tail".to_vec());
}

#[test]
fn at_most_one_frame_per_scan() {
    let codec = DelimCodec::new(b'\n');
    let mut buf = b"a\nb\n".to_vec();
    assert_eq!(codec.decode(&mut buf), Some(b"a\n".to_vec()));
    assert_eq!(buf, b"b\n".to_vec());
    assert_eq!(codec.decode(&mut buf), Some(b"b\n".to_vec()));
    assert!(buf.is_empty());
}

#[test]
fn frame_of_bare_delimiter() {
    let codec = DelimCodec::new(b'\n');
    let mut buf = b"\nx".to_vec();
    assert_eq!(codec.decode(&mut buf), Some(b"\n".to_vec()));
    assert_eq!(buf, b"x".to_vec());
}

#[test]
fn encode_appends_to_existing_buffer() {
    let codec = DelimCodec::new(b';');
    let mut dst = b"Z".to_vec();
    codec.encode(&b"q".to_vec(), &mut dst);
    assert_eq!(dst, b"Zq;".to_vec());
    codec.encode(&Vec::new(), &mut dst);
    assert_eq!(dst, b"Zq;;".to_vec());
}

#[test]
fn other_delimiter_byte() {
    let codec = DelimCodec::new(0u8);
    let mut buf = vec![7u8, 0u8, 9u8];
    assert_eq!(codec.decode(&mut buf), Some(vec![7u8, 0u8]));
    assert_eq!(buf, vec![9u8]);
    assert_eq!(codec.decode_eof(&mut buf), Some(vec![9u8]));
    assert_eq!(codec.decode_eof(&mut buf), None);
}
