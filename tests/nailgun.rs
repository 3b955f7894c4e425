use gosh_runner::nailgun::{decode, encode, CodecError, InputChunk, OutputChunk, HEADER_SIZE};

fn frame_of(c: &InputChunk) -> Vec<u8> {
    let mut buf = Vec::new();
    encode(c, &mut buf).unwrap();
    buf
}

#[test]
fn encodes_header_then_payload() {
    assert_eq!(frame_of(&InputChunk::Heartbeat), vec![0, 0, 0, 0, b'H']);
    assert_eq!(frame_of(&InputChunk::StdinEOF), vec![0, 0, 0, 0, b'.']);
    assert_eq!(frame_of(&InputChunk::Argument("ab".to_string())), vec![0, 0, 0, 2, b'A', b'a', b'b']);
    assert_eq!(frame_of(&InputChunk::Command("ls".to_string())), vec![0, 0, 0, 2, b'C', b'l', b's']);
    assert_eq!(frame_of(&InputChunk::WorkingDir("/tmp".to_string())), b"\0\0\0\x04D/tmp".to_vec());
    assert_eq!(
        frame_of(&InputChunk::Environment { key: "K".to_string(), val: "V".to_string() }),
        vec![0, 0, 0, 3, b'E', b'K', b'=', b'V']
    );
    let big = InputChunk::Stdin(vec![7u8; 300]);
    let f = frame_of(&big);
    assert_eq!(&f[..HEADER_SIZE], &[0, 0, 1, 44, b'0']);
    assert_eq!(f.len(), 305);
}

#[test]
fn encode_appends() {
    let mut buf = vec![9u8];
    encode(&InputChunk::Heartbeat, &mut buf).unwrap();
    assert_eq!(buf, vec![9, 0, 0, 0, 0, b'H']);
}

#[test]
fn decode_waits_for_whole_frame() {
    let mut buf = vec![0, 0, 0];
    assert_eq!(decode(&mut buf), Ok(None));
    assert_eq!(buf, vec![0, 0, 0]);
    let mut buf = vec![0, 0, 0, 3, b'1', b'a'];
    assert_eq!(decode(&mut buf), Ok(None));
    assert_eq!(buf.len(), 6);
}

#[test]
fn decode_takes_one_frame() {
    let mut buf = vec![0, 0, 0, 2, b'1', b'h', b'i', 0, 0, 0, 1, b'2', b'e', 0, 0, 0, 1, b'X', b'0'];
    assert_eq!(decode(&mut buf), Ok(Some(OutputChunk::Stdout(b"hi".to_vec()))));
    assert_eq!(decode(&mut buf), Ok(Some(OutputChunk::Stderr(b"e".to_vec()))));
    assert_eq!(decode(&mut buf), Ok(Some(OutputChunk::Exit(0))));
    assert!(buf.is_empty());
    let mut buf = vec![0, 0, 0, 0, b'S', 1];
    assert_eq!(decode(&mut buf), Ok(Some(OutputChunk::StartReadingStdin)));
    assert_eq!(buf, vec![1]);
}

#[test]
fn decode_reports_unknown_chunk() {
    let mut buf = vec![0, 0, 0, 1, b'Z', b'z', 5];
    assert_eq!(decode(&mut buf), Err(CodecError::UnknownChunk(b'Z')));
    assert_eq!(buf, vec![5]);
}
