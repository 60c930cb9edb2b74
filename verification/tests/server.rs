use deferred_server::conn::Conn;
use deferred_server::conn::Next;
use deferred_server::conn::Phase;
use deferred_server::conn::WriteOutcome;
use deferred_server::route::route_immediate;

/// Feed the connection's unsent suffix to a fake transport in the given
/// chunk sizes (each capped at what remains), collecting what was "sent".
fn drive_writes(c: &mut Conn, chunks: &[usize]) -> (Vec<u8>, Next) {
    let mut sent: Vec<u8> = Vec::new();
    let mut last = Next::Write;
    for &n in chunks {
        let avail = c.unsent_bytes().to_vec();
        let take = n.min(avail.len());
        sent.extend_from_slice(&avail[..take]);
        last = c.on_writable(WriteOutcome::Wrote(take));
    }
    (sent, last)
}

#[test]
fn hello_route() {
    let mut c = Conn::new(0);
    let (nx, job) = c.on_request(b"/hello");
    assert_eq!(nx, Next::Write);
    assert!(job.is_none());
    assert_eq!(c.phase, Phase::Responding);
    let (head, nx2) = c.on_response(None);
    assert_eq!(nx2, Next::Write);
    assert_eq!(head.status, 200);
    assert_eq!(head.content_length, 13);
    assert_eq!(c.body, b"Hello, World!".to_vec());
}

#[test]
fn bye_route() {
    let mut c = Conn::new(0);
    let (nx, job) = c.on_request(b"/bye");
    assert_eq!(nx, Next::Write);
    assert!(job.is_none());
    let (head, _) = c.on_response(None);
    assert_eq!(head.status, 200);
    assert_eq!(head.content_length, 8);
    assert_eq!(c.body, b"Good-bye".to_vec());
}

#[test]
fn unmatched_route_is_not_found() {
    let mut c = Conn::new(0);
    let (nx, job) = c.on_request(b"/anything-unmatched");
    assert_eq!(nx, Next::Write);
    assert!(job.is_none());
    let (head, _) = c.on_response(None);
    assert_eq!(head.status, 404);
    assert_eq!(head.content_length, 9);
    assert_eq!(c.body, b"Not Found".to_vec());
}

#[test]
fn empty_path_is_not_found() {
    let (status, body) = route_immediate(b"");
    assert_eq!(status, 404);
    assert_eq!(body, b"Not Found".to_vec());
}

#[test]
fn content_length_matches_body_for_all_routes() {
    for path in [&b"/hello"[..], b"/bye", b"/nope", b"/question"] {
        let mut c = Conn::new(0);
        let (_, job) = c.on_request(path);
        let reply = job.map(|_| b"42".to_vec());
        if c.phase == Phase::Suspended {
            c.on_resume();
        }
        let (head, _) = c.on_response(reply);
        assert_eq!(head.content_length, c.body.len() as u64);
    }
}

#[test]
fn request_readable_asks_to_write() {
    let c = Conn::new(3);
    assert_eq!(c.on_request_readable(), Next::Write);
}

#[test]
fn full_write_finishes() {
    let mut c = Conn::new(0);
    c.on_request(b"/hello");
    c.on_response(None);
    let len = c.body.len();
    let (sent, last) = drive_writes(&mut c, &[len]);
    assert_eq!(last, Next::End);
    assert_eq!(c.phase, Phase::Done);
    assert_eq!(sent, b"Hello, World!".to_vec());
}

#[test]
fn byte_by_byte_writes_deliver_exactly() {
    let mut c = Conn::new(0);
    c.on_request(b"/hello");
    c.on_response(None);
    let chunks = vec![1usize; c.body.len()];
    let (sent, last) = drive_writes(&mut c, &chunks);
    assert_eq!(last, Next::End);
    assert_eq!(c.phase, Phase::Done);
    assert_eq!(sent, b"Hello, World!".to_vec());
}

#[test]
fn ragged_chunks_deliver_exactly() {
    let mut c = Conn::new(0);
    c.on_request(b"/hello");
    c.on_response(None);
    // 3 + 0 + 7 + 2 + 1 = 13 bytes, with a zero-length chunk in the middle
    let (sent, last) = drive_writes(&mut c, &[3, 0, 7, 2, 1]);
    assert_eq!(last, Next::End);
    assert_eq!(sent, b"Hello, World!".to_vec());
}

#[test]
fn would_block_makes_no_progress() {
    let mut c = Conn::new(0);
    c.on_request(b"/bye");
    c.on_response(None);
    let before = c.offset;
    let nx = c.on_writable(WriteOutcome::WouldBlock);
    assert_eq!(nx, Next::Write);
    assert_eq!(c.offset, before);
    assert_eq!(c.phase, Phase::Writing);
}

#[test]
fn partial_write_advances_offset_without_copy() {
    let mut c = Conn::new(0);
    c.on_request(b"/bye");
    c.on_response(None);
    let nx = c.on_writable(WriteOutcome::Wrote(3));
    assert_eq!(nx, Next::Write);
    assert_eq!(c.offset, 3);
    assert_eq!(c.unsent_bytes(), &b"d-bye"[..]);
    assert_eq!(c.body, b"Good-bye".to_vec());
}

#[test]
fn write_error_aborts_connection() {
    let mut c = Conn::new(0);
    c.on_request(b"/hello");
    c.on_response(None);
    let nx = c.on_writable(WriteOutcome::Failed);
    assert_eq!(nx, Next::Remove);
    assert_eq!(c.phase, Phase::Aborted);
}
