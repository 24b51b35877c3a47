use consul_api_sidecar::handshake::frame::{Frame, FrameReader, InvalidLength, MSG_LEN_MAX};

fn wire(frame: &Frame) -> Vec<u8> {
    let mut bytes = frame.length_prefix().to_vec();
    bytes.extend_from_slice(frame.data());
    bytes
}

fn read(reader: &mut FrameReader, stream: &mut Vec<u8>) -> Option<Result<Frame, InvalidLength>> {
    while !stream.is_empty() {
        let n = reader.wanted().min(stream.len());
        let piece: Vec<u8> = stream.drain(0..n).collect();
        if let Some(result) = reader.advance(&piece) {
            return Some(result);
        }
    }
    None
}

#[test]
fn frame_is_four_bytes_of_length_and_the_data() {
    assert_eq!(wire(&Frame::new(vec![7, 8, 9])), vec![0, 0, 0, 3, 7, 8, 9]);
    assert_eq!(Frame::new(vec![0; 0x010203]).length_prefix(), [0, 1, 2, 3]);
    assert_eq!(wire(&Frame::new(Vec::new())), vec![0, 0, 0, 0]);
}

#[test]
fn frames_come_back_as_they_were_written() {
    let mut stream = wire(&Frame::new(b"hello".to_vec()));
    stream.extend_from_slice(&wire(&Frame::new(vec![1; 70000])));
    let mut reader = FrameReader::new();
    assert_eq!(read(&mut reader, &mut stream).unwrap().unwrap().data(), b"hello");
    assert_eq!(read(&mut reader, &mut stream).unwrap().unwrap().data(), vec![1; 70000].as_slice());
    assert!(read(&mut reader, &mut stream).is_none());
}

#[test]
fn empty_frame_comes_back() {
    let mut reader = FrameReader::new();
    let mut stream = vec![0, 0, 0, 0];
    assert_eq!(read(&mut reader, &mut stream).unwrap().unwrap().data(), b"");
}

#[test]
fn largest_frame_is_accepted() {
    assert_eq!(MSG_LEN_MAX, 4194304);
    let mut reader = FrameReader::new();
    assert!(reader.advance(&[0x00, 0x40, 0x00, 0x00]).is_none());
    assert_eq!(reader.wanted(), MSG_LEN_MAX);
    let data = vec![5; MSG_LEN_MAX];
    assert_eq!(reader.advance(&data).unwrap().unwrap().data().len(), MSG_LEN_MAX);
}

#[test]
fn longer_frame_is_refused() {
    let mut reader = FrameReader::new();
    match reader.advance(&[0x00, 0x40, 0x00, 0x01]) {
        Some(Err(error)) => {
            assert_eq!(error.len, 4194305);
            assert_eq!(
                error.message(),
                "message length invalid, was: 4194305, must be < 4194304"
            );
        }
        _ => panic!("expected an error"),
    }
    assert_eq!(reader.wanted(), 4);
}

#[test]
fn cut_frame_is_waited_for() {
    let mut reader = FrameReader::new();
    assert_eq!(reader.wanted(), 4);
    assert!(reader.advance(&[0, 0]).is_none());
    assert_eq!(reader.wanted(), 2);
    assert!(reader.advance(&[0, 2]).is_none());
    assert_eq!(reader.wanted(), 2);
    assert!(reader.advance(&[9]).is_none());
    assert_eq!(reader.wanted(), 1);
    assert_eq!(reader.advance(&[8]).unwrap().unwrap().data(), &[9, 8]);
}
