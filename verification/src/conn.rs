//! The per-connection request/response state machine.
//!
//! One `Conn` exists per accepted connection. The event loop delivers
//! readiness events; each event handler decides the next state and tells the
//! caller what to do next (`Next`). The handlers never block: the one route
//! whose body takes real work hands a `Job` back to the caller for the
//! background worker and parks the connection until the resume signal.

use vstd::prelude::*;

use crate::route::STATUS_NOT_FOUND;
use crate::route::STATUS_OK;
use crate::route::is_deferred;
use crate::route::is_deferred_path;
use crate::route::route_body;
use crate::route::route_immediate;
use crate::route::route_status;

verus! {

/// Where a connection stands in its life cycle. The single field makes the
/// linearity invariant structural: a connection is never at once processing
/// a request, awaiting the worker, and streaming a response.
#[derive(Clone, Copy, PartialEq, Eq, Structural, Debug)]
pub enum Phase {
    /// Waiting for the request's path; the initial state.
    Routing,
    /// Parked until the worker's resume signal; no I/O readiness applies.
    Suspended,
    /// Ready to emit the status line and headers.
    Responding,
    /// Streaming the body out, possibly over many partial writes.
    Writing,
    /// The whole body was delivered; terminal.
    Done,
    /// A write failed and the connection is to be torn down; terminal.
    Aborted,
}

/// What the state machine asks of the event loop after handling an event.
#[derive(Clone, Copy, PartialEq, Eq, Structural, Debug)]
pub enum Next {
    /// Park this connection; it is woken by a resume signal, not by I/O.
    Wait,
    /// Notify again when the connection can write.
    Write,
    /// The response is complete.
    End,
    /// Tear the connection down.
    Remove,
}

/// A unit of deferred work handed to the worker: the parked connection's
/// resume token. The caller pairs it with a fresh one-shot reply channel.
#[derive(Clone, Copy, PartialEq, Eq, Structural, Debug)]
pub struct Job {
    /// Token under which the owning connection is registered.
    pub resume: usize,
}

/// The status line and `Content-Length` header of a response.
#[derive(Clone, Copy, PartialEq, Eq, Structural, Debug)]
pub struct ResponseHead {
    pub status: u16,
    pub content_length: u64,
}

/// What the transport reported for one write attempt.
#[derive(Clone, Copy, PartialEq, Eq, Structural, Debug)]
pub enum WriteOutcome {
    /// This many bytes of the offered suffix were accepted.
    Wrote(usize),
    /// Nothing was accepted; try again on the next writable event.
    WouldBlock,
    /// The transport failed; the connection cannot continue.
    Failed,
}

/// Per-connection state. The body is an immutable buffer with an advancing
/// offset: partial writes move `offset`, never copy or reallocate.
pub struct Conn {
    pub phase: Phase,
    /// Status to send: 200 or 404.
    pub status: u16,
    /// The response body; `offset..` is the part not yet written.
    pub body: Vec<u8>,
    /// How many leading bytes of `body` the transport has accepted.
    pub offset: usize,
    /// The resume token, held until ownership moves into a `Job`.
    pub resume: Option<usize>,
    /// Whether a worker reply is outstanding for this connection.
    pub awaiting: bool,
}

/// The mathematical value of a `Conn`.
#[verifier::ext_equal]
pub struct ConnView {
    pub phase: Phase,
    pub status: u16,
    pub body: Seq<u8>,
    pub offset: nat,
    pub resume: Option<usize>,
    pub awaiting: bool,
}

impl View for Conn {
    type V = ConnView;

    open spec fn view(&self) -> ConnView {
        ConnView {
            phase: self.phase,
            status: self.status,
            body: self.body@,
            offset: self.offset as nat,
            resume: self.resume,
            awaiting: self.awaiting,
        }
    }
}

impl ConnView {
    /// Bytes of the body not yet accepted by the transport.
    pub open spec fn remaining(self) -> nat {
        (self.body.len() - self.offset) as nat
    }

    /// The prefix of the body the transport has accepted so far.
    pub open spec fn delivered(self) -> Seq<u8> {
        self.body.take(self.offset as int)
    }

    /// The suffix of the body still to be written.
    pub open spec fn unsent(self) -> Seq<u8> {
        self.body.skip(self.offset as int)
    }

    /// Well-formedness, preserved by every event handler.
    pub open spec fn wf(self) -> bool {
        &&& self.offset <= self.body.len()
        &&& (self.status == STATUS_OK || self.status == STATUS_NOT_FOUND)
        &&& match self.phase {
            Phase::Routing => {
                &&& self.resume is Some
                &&& !self.awaiting
                &&& self.offset == 0
                &&& self.status == STATUS_OK
            },
            Phase::Suspended => {
                &&& self.awaiting
                &&& self.resume is None
                &&& self.offset == 0
                &&& self.status == STATUS_OK
            },
            Phase::Responding => {
                &&& self.offset == 0
                &&& (self.awaiting ==> self.resume is None && self.status == STATUS_OK)
            },
            Phase::Writing => !self.awaiting,
            Phase::Done => !self.awaiting && self.offset == self.body.len(),
            Phase::Aborted => true,
        }
    }

    /// Only a connection in `Writing` may touch the transport.
    pub open spec fn can_write(self) -> bool {
        self.phase == Phase::Writing
    }
}

/// The value of a freshly accepted connection holding resume token `t`.
pub open spec fn fresh_conn(t: usize) -> ConnView {
    ConnView {
        phase: Phase::Routing,
        status: STATUS_OK,
        body: Seq::empty(),
        offset: 0,
        resume: Some(t),
        awaiting: false,
    }
}

/// What handling a request with this path does to a connection in `Routing`.
pub open spec fn req_step(c: ConnView, path: Seq<u8>) -> (ConnView, Next, Option<Job>) {
    if is_deferred(path) {
        (
            ConnView { phase: Phase::Suspended, resume: None, awaiting: true, ..c },
            Next::Wait,
            Some(Job { resume: c.resume->0 }),
        )
    } else {
        (
            ConnView {
                phase: Phase::Responding,
                status: route_status(path),
                body: route_body(path),
                offset: 0,
                ..c
            },
            Next::Write,
            None,
        )
    }
}

/// What the resume signal does to a parked connection.
pub open spec fn resume_step(c: ConnView) -> ConnView {
    ConnView { phase: Phase::Responding, ..c }
}

/// What the response-headers phase does: adopt the worker's reply as the body
/// if one was awaited, and fix the head from the final body.
pub open spec fn resp_step(c: ConnView, reply: Option<Seq<u8>>) -> (ConnView, ResponseHead, Next) {
    let body = if c.awaiting {
        reply->0
    } else {
        c.body
    };
    (
        ConnView { phase: Phase::Writing, body: body, offset: 0, awaiting: false, ..c },
        ResponseHead { status: c.status, content_length: body.len() as u64 },
        Next::Write,
    )
}

/// What one writable event does, given the transport's report.
pub open spec fn write_step(c: ConnView, w: WriteOutcome) -> (ConnView, Next) {
    match w {
        WriteOutcome::Wrote(n) => {
            if n == c.remaining() {
                (ConnView { phase: Phase::Done, offset: c.body.len(), ..c }, Next::End)
            } else {
                (ConnView { offset: (c.offset + n) as nat, ..c }, Next::Write)
            }
        },
        WriteOutcome::WouldBlock => (c, Next::Write),
        WriteOutcome::Failed => (ConnView { phase: Phase::Aborted, ..c }, Next::Remove),
    }
}

/// Content-Length law: for every responding connection — whichever path it
/// routed, deferred or not — the emitted head's `Content-Length` equals the
/// exact byte length of the body the response carries.
pub proof fn lemma_content_length(c: ConnView, reply: Option<Seq<u8>>)
    requires
        c.wf(),
        c.phase == Phase::Responding,
        c.awaiting <==> reply is Some,
        (if c.awaiting {
            reply->0.len()
        } else {
            c.body.len()
        }) <= u64::MAX,
    ensures
        resp_step(c, reply).1.content_length == resp_step(c, reply).0.body.len(),
        resp_step(c, reply).0.unsent() =~= resp_step(c, reply).0.body,
{
}

/// Deferred-route law: on `/question` a routing connection parks without a
/// byte written, its resume token moves into the job it submits, and it can
/// write nothing while parked. Once the resume signal arrives and the
/// worker's output for that very job is adopted, it streams exactly the
/// worker's answer "42", with status 200 and `Content-Length` 2.
pub proof fn lemma_deferred_flow(c: ConnView)
    requires
        c.wf(),
        c.phase == Phase::Routing,
    ensures
        ({
            let (c1, nx1, job) = req_step(c, crate::route::question_path());
            let (reply, signalled) = crate::worker::worker_out(job->0);
            let c2 = resume_step(c1);
            let (c3, head, nx3) = resp_step(c2, Some(reply));
            &&& nx1 == Next::Wait
            &&& c1.phase == Phase::Suspended
            &&& !c1.can_write()
            &&& c1.delivered() =~= Seq::<u8>::empty()
            &&& job == Some(Job { resume: c.resume->0 })
            &&& signalled == c.resume->0
            &&& c2.phase == Phase::Responding
            &&& !c2.can_write()
            &&& c3.phase == Phase::Writing
            &&& c3.body =~= crate::route::answer_body()
            &&& head.status == STATUS_OK
            &&& head.content_length == 2
            &&& nx3 == Next::Write
        }),
{
}

/// Sum of a sequence of chunk sizes.
pub open spec fn chunk_sum(ns: Seq<usize>) -> int
    decreases ns.len(),
{
    if ns.len() == 0 {
        0
    } else {
        ns[0] + chunk_sum(ns.drop_first())
    }
}

/// Each chunk in turn fits in what remains of the body at that point.
pub open spec fn chunks_fit(c: ConnView, ns: Seq<usize>) -> bool
    decreases ns.len(),
{
    ns.len() == 0 || (ns[0] <= c.remaining() && chunks_fit(
        write_step(c, WriteOutcome::Wrote(ns[0])).0,
        ns.drop_first(),
    ))
}

/// The connection after the transport accepted this sequence of chunks.
pub open spec fn write_many(c: ConnView, ns: Seq<usize>) -> ConnView
    decreases ns.len(),
{
    if ns.len() == 0 {
        c
    } else {
        write_many(write_step(c, WriteOutcome::Wrote(ns[0])).0, ns.drop_first())
    }
}

/// Partial-write law: however the transport splits the body into chunks —
/// arbitrarily small, in any pattern that adds up to what remained — the
/// connection ends with the full body delivered byte-for-byte, nothing
/// duplicated and nothing lost, and reaches `Done`.
pub proof fn lemma_partial_writes_deliver(c: ConnView, ns: Seq<usize>)
    requires
        c.wf(),
        c.phase == Phase::Writing || c.phase == Phase::Done,
        chunks_fit(c, ns),
        chunk_sum(ns) == c.remaining(),
    ensures
        write_many(c, ns).wf(),
        write_many(c, ns).body =~= c.body,
        write_many(c, ns).delivered() =~= c.body,
        ns.len() > 0 || c.phase == Phase::Done ==> write_many(c, ns).phase == Phase::Done,
    decreases ns.len(),
{
    if ns.len() == 0 {
        assert(c.offset == c.body.len());
    } else {
        let c1 = write_step(c, WriteOutcome::Wrote(ns[0])).0;
        assert(chunk_sum(ns.drop_first()) == c1.remaining());
        lemma_partial_writes_deliver(c1, ns.drop_first());
    }
}

impl Conn {
    /// A fresh connection, registered under `resume`, about to route.
    pub fn new(resume: usize) -> (c: Conn)
        ensures
            c@.wf(),
            c@ =~= fresh_conn(resume),
    {
        Conn {
            phase: Phase::Routing,
            status: STATUS_OK,
            body: Vec::new(),
            offset: 0,
            resume: Some(resume),
            awaiting: false,
        }
    }

    /// Handle the request: route by exact path match. The deferred path gives
    /// up the resume token into a `Job` for the worker and parks; every other
    /// path fixes status and body at once.
    pub fn on_request(&mut self, path: &[u8]) -> (r: (Next, Option<Job>))
        requires
            old(self)@.wf(),
            old(self)@.phase == Phase::Routing,
        ensures
            final(self)@.wf(),
            final(self)@ =~= req_step(old(self)@, path@).0,
            r.0 == req_step(old(self)@, path@).1,
            r.1 == req_step(old(self)@, path@).2,
    {
        if is_deferred_path(path) {
            let tok = self.resume.unwrap();
            self.resume = None;
            self.awaiting = true;
            self.phase = Phase::Suspended;
            (Next::Wait, Some(Job { resume: tok }))
        } else {
            let (status, body) = route_immediate(path);
            self.status = status;
            self.body = body;
            self.offset = 0;
            self.phase = Phase::Responding;
            (Next::Write, None)
        }
    }

    /// The request body is readable. This server ignores request bodies: the
    /// connection simply asks to move on to writing the response.
    pub fn on_request_readable(&self) -> (nx: Next)
        ensures
            nx == Next::Write,
    {
        Next::Write
    }

    /// The worker has signalled this connection's token: wake up and respond.
    pub fn on_resume(&mut self)
        requires
            old(self)@.wf(),
            old(self)@.phase == Phase::Suspended,
        ensures
            final(self)@.wf(),
            final(self)@ =~= resume_step(old(self)@),
    {
        self.phase = Phase::Responding;
    }

    /// Emit the response head. A connection that awaited the worker must be
    /// handed the reply (it is available by the time this phase runs, since
    /// resume is only signalled after the worker wrote it); its body becomes
    /// the reply. The `Content-Length` is the exact byte length of the body.
    pub fn on_response(&mut self, reply: Option<Vec<u8>>) -> (r: (ResponseHead, Next))
        requires
            old(self)@.wf(),
            old(self)@.phase == Phase::Responding,
            old(self)@.awaiting <==> reply is Some,
        ensures
            final(self)@.wf(),
            final(self)@ =~= resp_step(old(self)@, reply.deep_view()).0,
            r.0 == resp_step(old(self)@, reply.deep_view()).1,
            r.1 == resp_step(old(self)@, reply.deep_view()).2,
            r.0.content_length == final(self)@.body.len(),
    {
        match reply {
            Some(b) => {
                self.body = b;
                self.awaiting = false;
            },
            None => {},
        }
        self.phase = Phase::Writing;
        let head = ResponseHead { status: self.status, content_length: self.body.len() as u64 };
        (head, Next::Write)
    }

    /// React to one write attempt on the unsent suffix of the body. A full
    /// write finishes the response; a partial write only advances the offset;
    /// would-block makes no progress; a transport error aborts the
    /// connection. Exactly the reported bytes move from unsent to delivered:
    /// nothing is duplicated, nothing is skipped.
    pub fn on_writable(&mut self, w: WriteOutcome) -> (nx: Next)
        requires
            old(self)@.wf(),
            old(self)@.phase == Phase::Writing,
            w matches WriteOutcome::Wrote(n) ==> n <= old(self)@.remaining(),
        ensures
            final(self)@.wf(),
            final(self)@ =~= write_step(old(self)@, w).0,
            nx == write_step(old(self)@, w).1,
            w matches WriteOutcome::Wrote(n) ==> final(self)@.delivered() =~= old(self)@.delivered()
                + old(self)@.unsent().take(n as int),
            nx == Next::End ==> final(self)@.delivered() =~= final(self)@.body,
    {
        match w {
            WriteOutcome::Wrote(n) => {
                let rem = self.body.len() - self.offset;
                if n == rem {
                    self.offset = self.body.len();
                    self.phase = Phase::Done;
                    Next::End
                } else {
                    self.offset = self.offset + n;
                    Next::Write
                }
            },
            WriteOutcome::WouldBlock => Next::Write,
            WriteOutcome::Failed => {
                self.phase = Phase::Aborted;
                Next::Remove
            },
        }
    }

    /// The suffix of the body not yet accepted by the transport: what the
    /// next write attempt should offer.
    pub fn unsent_bytes(&self) -> (s: &[u8])
        requires
            self@.wf(),
        ensures
            s@ == self@.unsent(),
    {
        vstd::slice::slice_subrange(self.body.as_slice(), self.offset, self.body.len())
    }
}

} // verus!
