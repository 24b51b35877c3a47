use bytes::BytesMut;
use consul_api_sidecar::dns::wire::{length_prefix, DNSMessageReader};
use consul_api_sidecar::dns::{DNSMessage, NotEnoughData};

fn message(data: &[u8]) -> DNSMessage {
    match DNSMessage::try_new(BytesMut::from(data)) {
        Ok(msg) => msg,
        Err(_) => panic!("no message"),
    }
}

fn send(stream: &mut Vec<u8>, msg: &DNSMessage) {
    stream.extend_from_slice(&length_prefix(msg));
    stream.extend_from_slice(msg.data());
}

fn receive(reader: &mut DNSMessageReader, stream: &mut Vec<u8>) -> Option<Result<DNSMessage, NotEnoughData>> {
    while !stream.is_empty() {
        let n = reader.wanted().min(stream.len());
        let piece: Vec<u8> = stream.drain(0..n).collect();
        if let Some(result) = reader.advance(&piece) {
            return Some(result);
        }
    }
    None
}

#[test]
fn make_msg() {
    let msg = DNSMessage::try_new(BytesMut::from([0x31, 0xa3].as_slice())).ok().unwrap();
    assert_eq!(msg.id(), 0x31a3)
}

#[test]
fn rx_tx() {
    let mut stream = Vec::new();
    send(&mut stream, &message(&[0xff, 0x43]));
    assert_eq!(stream, vec![0x00, 0x02, 0xff, 0x43]);
    let mut reader = DNSMessageReader::new();
    let received = receive(&mut reader, &mut stream).unwrap().ok().unwrap();
    assert_eq!(received.id(), 0xff43);
    assert_eq!(received.data(), &[0xff, 0x43]);
    assert!(stream.is_empty());
}

#[test]
fn message_needs_an_id() {
    for data in [vec![], vec![0x31]] {
        match DNSMessage::try_new(BytesMut::from(data.as_slice())) {
            Ok(_) => panic!("too short for a message"),
            Err(error) => assert_eq!(error.message(), "not enough data"),
        }
    }
}

#[test]
fn message_keeps_its_bytes() {
    let msg = message(&[1, 2, 3, 4, 5]);
    assert_eq!(msg.data(), &[1, 2, 3, 4, 5]);
    assert_eq!(msg.id(), 258);
}

#[test]
fn length_is_two_bytes_most_significant_first() {
    assert_eq!(length_prefix(&message(&vec![0; 0x0203])), [0x02, 0x03]);
    assert_eq!(length_prefix(&message(&vec![0; 65535])), [0xff, 0xff]);
}

#[test]
fn length_that_does_not_fit_is_cut_off() {
    assert_eq!(length_prefix(&message(&vec![0; 65536])), [0, 0]);
    assert_eq!(length_prefix(&message(&vec![0; 65539])), [0, 3]);
}

#[test]
fn messages_come_out_in_their_order() {
    let mut stream = Vec::new();
    send(&mut stream, &message(&[0xff, 0xee]));
    send(&mut stream, &message(&[0xff, 0xff, 7, 8, 9]));
    send(&mut stream, &message(&vec![0x33; 65535]));
    let mut reader = DNSMessageReader::new();
    let first = receive(&mut reader, &mut stream).unwrap().ok().unwrap();
    let second = receive(&mut reader, &mut stream).unwrap().ok().unwrap();
    let third = receive(&mut reader, &mut stream).unwrap().ok().unwrap();
    assert_eq!(first.data(), &[0xff, 0xee]);
    assert_eq!(second.data(), &[0xff, 0xff, 7, 8, 9]);
    assert_eq!(third.data(), vec![0x33; 65535].as_slice());
    assert!(receive(&mut reader, &mut stream).is_none());
}

#[test]
fn reading_can_be_broken_off_between_any_two_bytes() {
    let mut reader = DNSMessageReader::new();
    assert_eq!(reader.wanted(), 2);
    assert!(reader.advance(&[0]).is_none());
    assert_eq!(reader.wanted(), 1);
    assert!(reader.advance(&[3]).is_none());
    assert_eq!(reader.wanted(), 3);
    assert!(reader.advance(&[]).is_none());
    assert!(reader.advance(&[0x12]).is_none());
    assert_eq!(reader.wanted(), 2);
    assert!(reader.advance(&[0x34]).is_none());
    let msg = reader.advance(&[0x56]).unwrap().ok().unwrap();
    assert_eq!(msg.data(), &[0x12, 0x34, 0x56]);
    assert_eq!(reader.wanted(), 2);
}

#[test]
fn short_body_is_an_error() {
    for mut stream in [vec![0, 0], vec![0, 1, 0x31]] {
        let mut reader = DNSMessageReader::new();
        match receive(&mut reader, &mut stream) {
            Some(Err(NotEnoughData)) => {}
            _ => panic!("expected an error"),
        }
        assert_eq!(reader.wanted(), 2);
    }
}
