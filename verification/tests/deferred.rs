use deferred_server::conn::Conn;
use deferred_server::conn::Next;
use deferred_server::conn::Phase;
use deferred_server::conn::WriteOutcome;
use deferred_server::http::request_path;
use deferred_server::registry::Registry;
use deferred_server::worker::WorkerQueue;
use deferred_server::worker::worker_step;

#[test]
fn question_is_deferred_and_answered() {
    let mut registry = Registry::new();
    let mut queue = WorkerQueue::new();

    let token = registry.accept();
    let c = registry.slots[token].as_mut().unwrap();
    assert_eq!(c.resume, Some(token));

    let (nx, job) = c.on_request(b"/question");
    assert_eq!(nx, Next::Wait);
    let job = job.expect("the deferred route must enqueue a job");
    assert_eq!(job.resume, token);
    // ownership of the resume token moved into the job
    assert_eq!(c.resume, None);
    // the connection is parked: nothing has been written, nothing can be
    assert_eq!(c.phase, Phase::Suspended);
    assert_eq!(c.offset, 0);
    queue.push(job);

    // the worker picks the job up and produces the answer
    let j = queue.pop();
    let (reply, resume_token) = worker_step(j);
    assert_eq!(reply, b"42".to_vec());

    // the response head is only produced after the resume signal
    registry.resume(resume_token);
    let c = registry.slots[token].as_mut().unwrap();
    assert_eq!(c.phase, Phase::Responding);
    let (head, nx2) = c.on_response(Some(reply));
    assert_eq!(nx2, Next::Write);
    assert_eq!(head.status, 200);
    assert_eq!(head.content_length, 2);
    assert_eq!(c.body, b"42".to_vec());

    let sent = c.unsent_bytes().to_vec();
    let nx3 = c.on_writable(WriteOutcome::Wrote(sent.len()));
    assert_eq!(nx3, Next::End);
    assert_eq!(sent, b"42".to_vec());
    assert_eq!(c.phase, Phase::Done);
}

#[test]
fn worker_queue_is_fifo() {
    let mut registry = Registry::new();
    let mut queue = WorkerQueue::new();
    let mut tokens = Vec::new();
    for _ in 0..3 {
        let token = registry.accept();
        let c = registry.slots[token].as_mut().unwrap();
        let (_, job) = c.on_request(b"/question");
        queue.push(job.unwrap());
        tokens.push(token);
    }
    // one job at a time: completion order equals submission order
    let mut completed = Vec::new();
    while !queue.is_empty() {
        let job = queue.pop();
        let (reply, resume_token) = worker_step(job);
        assert_eq!(reply, b"42".to_vec());
        registry.resume(resume_token);
        completed.push(resume_token);
    }
    assert_eq!(completed, tokens);
    // every connection was woken and is answerable
    for &t in &tokens {
        let c = registry.slots[t].as_mut().unwrap();
        assert_eq!(c.phase, Phase::Responding);
        let (head, _) = c.on_response(Some(b"42".to_vec()));
        assert_eq!(head.status, 200);
        assert_eq!(head.content_length, 2);
    }
}

#[test]
fn abort_with_outstanding_job_is_isolated() {
    let mut registry = Registry::new();
    let mut queue = WorkerQueue::new();

    let doomed = registry.accept();
    let (_, job) = registry.slots[doomed].as_mut().unwrap().on_request(b"/question");
    queue.push(job.unwrap());

    let healthy = registry.accept();

    // the client disconnects while its job is still queued
    registry.teardown(doomed);
    assert!(registry.slots[doomed].is_none());

    // the worker still completes the orphaned job; its resume signal hits a
    // stale token and is a no-op
    let j = queue.pop();
    let (reply, resume_token) = worker_step(j);
    assert_eq!(reply, b"42".to_vec());
    registry.resume(resume_token);
    assert!(registry.slots[doomed].is_none());

    // the other connection is untouched and still serves requests
    let c = registry.slots[healthy].as_mut().unwrap();
    assert_eq!(c.phase, Phase::Routing);
    let (nx, _) = c.on_request(b"/hello");
    assert_eq!(nx, Next::Write);
    let (head, _) = c.on_response(None);
    assert_eq!(head.status, 200);
    assert_eq!(head.content_length, 13);
}

#[test]
fn resume_on_unknown_token_is_a_no_op() {
    let mut registry = Registry::new();
    let token = registry.accept();
    registry.resume(999);
    assert_eq!(registry.slots.len(), 1);
    assert_eq!(registry.slots[token].as_ref().unwrap().phase, Phase::Routing);
}

#[test]
fn resume_on_unparked_connection_is_a_no_op() {
    let mut registry = Registry::new();
    let token = registry.accept();
    registry.resume(token);
    assert_eq!(registry.slots[token].as_ref().unwrap().phase, Phase::Routing);
}

#[test]
fn pop_returns_oldest_job() {
    let mut queue = WorkerQueue::new();
    let mut c0 = Conn::new(10);
    let mut c1 = Conn::new(11);
    let (_, j0) = c0.on_request(b"/question");
    let (_, j1) = c1.on_request(b"/question");
    queue.push(j0.unwrap());
    queue.push(j1.unwrap());
    assert_eq!(queue.len(), 2);
    assert_eq!(queue.pop().resume, 10);
    assert_eq!(queue.pop().resume, 11);
    assert!(queue.is_empty());
}

#[test]
fn request_line_path_is_extracted() {
    assert_eq!(request_path(b"GET /hello HTTP/1.1"), Some(b"/hello".to_vec()));
    assert_eq!(request_path(b"GET /question HTTP/1.1"), Some(b"/question".to_vec()));
    assert_eq!(request_path(b"GET  HTTP/1.1"), Some(b"".to_vec()));
}

#[test]
fn request_line_without_two_spaces_has_no_path() {
    assert_eq!(request_path(b""), None);
    assert_eq!(request_path(b"GET"), None);
    assert_eq!(request_path(b"GET /hello"), None);
}
