use consul_api_sidecar::net::IoErrorKind;
use consul_api_sidecar::testing::{
    closed_error, first_to_write, PortSearch, TestConnection, PORT_ATTEMPTS,
};
use std::collections::VecDeque;

/// One end of a connection, with a queue in place of the channel from the other end.
struct End {
    connection: TestConnection,
    channel: VecDeque<Vec<u8>>,
}

impl End {
    fn new() -> End {
        End { connection: TestConnection::new(), channel: VecDeque::new() }
    }

    fn write(&mut self, data: &[u8]) -> usize {
        self.channel.push_back(data.to_vec());
        data.len()
    }

    fn read(&mut self, buf: &mut [u8]) -> usize {
        if self.connection.needs_chunk() {
            let chunk = self.channel.pop_front().unwrap();
            self.connection.read_chunk(&chunk, buf)
        } else {
            self.connection.read_waiting(buf)
        }
    }
}

#[test]
fn basic_rw() {
    let mut b = End::new();
    assert_eq!(b.write(b"Hello"), 5);
    let mut bytes = [0; 5];
    assert_eq!(b.read(&mut bytes), 5);
    assert_eq!(&bytes, b"Hello");
}

#[test]
fn buffered_rw0() {
    let mut b = End::new();
    assert_eq!(b.write(b"012345"), 6);
    let mut rx0 = [0; 3];
    let mut rx1 = [0; 3];
    assert_eq!(b.read(&mut rx0), 3);
    assert_eq!(b.read(&mut rx1), 3);
    assert_eq!(&rx0, b"012");
    assert_eq!(&rx1, b"345");
}

#[test]
fn buffered_rw1() {
    let mut b = End::new();
    assert_eq!(b.write(b"012345678"), 9);
    let mut rx0 = [0; 3];
    let mut rx1 = [0; 3];
    let mut rx2 = [0; 3];
    assert_eq!(b.read(&mut rx0), 3);
    assert_eq!(b.read(&mut rx1), 3);
    assert_eq!(b.read(&mut rx2), 3);
    assert_eq!(&rx0, b"012");
    assert_eq!(&rx1, b"345");
    assert_eq!(&rx2, b"678");
}

#[test]
fn short_chunk_leaves_the_rest_of_the_buffer_alone() {
    let mut b = End::new();
    b.write(b"ab");
    let mut buf = *b"-----";
    assert_eq!(b.read(&mut buf), 2);
    assert_eq!(&buf, b"ab---");
}

#[test]
fn waiting_bytes_that_fit_go_on_waiting() {
    let mut b = End::new();
    b.write(b"abc");
    let mut one = [0; 1];
    assert_eq!(b.read(&mut one), 1);
    assert_eq!(&one, b"a");
    for _ in 0..2 {
        let mut buf = [0; 4];
        assert_eq!(b.read(&mut buf), 2);
        assert_eq!(&buf, b"bc\0\0");
    }
}

#[test]
fn closed_connection_is_a_broken_pipe() {
    let error = closed_error();
    assert_eq!(error.kind, IoErrorKind::BrokenPipe);
    assert_eq!(error.message, "underlying channel closed");
}

#[test]
fn first_slice_that_holds_anything_is_written() {
    assert_eq!(first_to_write(&vec![0, 0, 5, 7]), Some(2));
    assert_eq!(first_to_write(&vec![3]), Some(0));
    assert_eq!(first_to_write(&vec![0, 0]), None);
    assert_eq!(first_to_write(&vec![]), None);
}

#[test]
fn ports_are_tried_in_their_range_until_the_search_is_given_up() {
    let mut search = PortSearch::new();
    let mut seen = Vec::new();
    while let Some(port) = search.candidate() {
        assert!((20000..40000).contains(&port));
        seen.push(port);
    }
    assert_eq!(seen.len(), 10000);
    assert_eq!(PORT_ATTEMPTS, 10000);
    assert!(seen.iter().any(|port| *port != seen[0]));
    assert!(search.candidate().is_none());
}

#[test]
fn reads_of_any_sizes_hand_out_consecutive_pieces() {
    let mut b = End::new();
    b.write(b"0123456789");
    let mut read = Vec::new();
    for room in [2, 0, 3, 1, 4] {
        let mut buf = vec![0; room];
        assert_eq!(b.read(&mut buf), room);
        read.push(buf);
    }
    assert_eq!(
        read,
        vec![b"01".to_vec(), b"".to_vec(), b"234".to_vec(), b"5".to_vec(), b"6789".to_vec()]
    );
}
