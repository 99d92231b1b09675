//! A single execution context of the script engine: it routes each call
//! request to the registered dispatcher, returns synchronous results at once,
//! correlates asynchronous results with promise identifiers, and delivers
//! completed asynchronous responses back to the engine through the transfer
//! ring buffer, or through the overflow path when a response does not fit.

use crate::errors::CoreError;
use crate::ring::RECOMMENDED_SIZE;
use crate::ring::TransferRingBuffer;
use crate::ring::record_cost;
use crate::ring::lemma_seq_cost_push;
use crate::ring::records_view;
use crate::ring::seq_cost;
use vstd::prelude::*;

verus! {

/// An owned byte payload crossing the native/script boundary.
pub type Buf = Vec<u8>;

/// The outcome of one dispatched call. A synchronous outcome carries its
/// response; an asynchronous outcome is assigned a promise identifier, and
/// its producer reports the eventual response through [`Isolate::complete`].
pub enum Op {
    Sync(Buf),
    Async,
}

/// A script used to initialize an isolate.
pub struct Script {
    pub source: String,
    pub filename: String,
}

/// Data used to initialize an isolate at startup: a script, a binary
/// snapshot of previously captured engine state, or nothing.
pub enum StartupData {
    Script(Script),
    Snapshot(Vec<u8>),
    Empty,
}

impl StartupData {
    /// A snapshot is opaque to the core; only its presence and non-empty
    /// length are relied on.
    pub open spec fn valid(self) -> bool {
        match self {
            StartupData::Snapshot(d) => d@.len() > 0,
            _ => true,
        }
    }
}

/// Configuration of an isolate.
pub struct Config {
    pub will_snapshot: bool,
}

impl Default for Config {
    /// A configuration that does not capture a snapshot.
    fn default() -> (c: Config)
        ensures
            c.will_snapshot == false,
    {
        Config { will_snapshot: false }
    }
}

/// The registered handler for native calls. The embedder supplies one; each
/// call request is routed to it, and it answers with a synchronous response
/// or announces an asynchronous one.
pub trait CallDispatcher {
    /// Handles one call request, given its control message and an optional
    /// attached binary payload.
    fn dispatch(&mut self, control: &[u8], zero_copy: Option<Buf>) -> Op;
}

/// What the isolate answers the engine for one dispatched call.
pub enum DispatchResponse {
    /// Both request sources were empty: a no-op, not an error.
    NoOp,
    /// The call completed synchronously with this response.
    Sync(Buf),
    /// The call is asynchronous; this promise identifier correlates its
    /// later completion.
    Promised(i32),
}

/// Whether a drive cycle left the isolate with outstanding work.
#[derive(Clone, Copy, Debug, PartialEq, Eq, Structural)]
pub enum DriveStatus {
    /// No asynchronous call remains pending or undelivered.
    Quiescent,
    /// Some asynchronous call is still pending or awaits delivery.
    Pending,
}

/// The deliveries decided by one drive cycle. The embedder hands `batched`
/// to the engine as the drained ring-buffer contents, then delivers
/// `overflow`, when present, as the buffer of one direct response call.
pub struct DriveReport {
    /// Records flushed through the ring buffer, in first-in-first-out order.
    pub batched: Vec<(i32, Buf)>,
    /// An encoded `promise id || payload` response that did not fit the
    /// ring buffer this cycle.
    pub overflow: Option<Buf>,
    /// Whether pending or undelivered asynchronous work remains.
    pub status: DriveStatus,
}

/// Length of the control message that `control` carries; an absent or empty
/// direct argument signals that the request, if any, is queued in the ring.
pub open spec fn control_len(control: Option<Buf>) -> int {
    match control {
        Option::Some(c) => c@.len() as int,
        Option::None => 0,
    }
}

/// A single execution context of the script engine together with its
/// dispatch machinery: the transfer ring buffer it shares with the engine,
/// the promise identifiers of in-flight asynchronous calls, the completed
/// responses not yet delivered, and the promise-id counter.
pub struct Isolate {
    shared: TransferRingBuffer,
    pending_ops: Vec<i32>,
    ready_ops: Vec<(i32, Buf)>,
    next_promise_id: i32,
    needs_init: bool,
    will_snapshot: bool,
}

impl Isolate {
    /// The records currently queued in the shared ring buffer.
    pub closed spec fn ring(self) -> Seq<(i32, Seq<u8>)> {
        self.shared.records()
    }

    /// The byte capacity of the shared ring buffer.
    pub closed spec fn ring_capacity(self) -> int {
        self.shared.capacity()
    }

    /// The shared ring buffer is internally consistent.
    pub closed spec fn ring_wf(self) -> bool {
        self.shared.wf()
    }

    /// Promise identifiers of dispatched asynchronous calls whose responses
    /// have not yet been reported.
    pub closed spec fn pending(self) -> Seq<i32> {
        self.pending_ops@
    }

    /// Completed asynchronous responses awaiting delivery, in completion
    /// order.
    pub closed spec fn ready(self) -> Seq<(i32, Vec<u8>)> {
        self.ready_ops@
    }

    /// The next promise identifier to be assigned.
    pub closed spec fn promise_counter(self) -> int {
        self.next_promise_id as int
    }

    /// Whether the one-time engine-side bootstrap has yet to run.
    pub closed spec fn init_pending(self) -> bool {
        self.needs_init
    }

    /// Whether this isolate was configured to capture a snapshot.
    pub closed spec fn snapshot_configured(self) -> bool {
        self.will_snapshot
    }

    /// Consistency of the dispatch state: promise identifiers are positive,
    /// below the counter, and unique across in-flight and undelivered calls.
    pub open spec fn wf(self) -> bool {
        &&& self.ring_wf()
        &&& 1 <= self.promise_counter() <= i32::MAX
        &&& forall|i: int, j: int|
            0 <= i < j < self.pending().len() ==> #[trigger] self.pending()[i]
                != #[trigger] self.pending()[j]
        &&& forall|i: int|
            0 <= i < self.pending().len() ==> 1 <= #[trigger] self.pending()[i]
                < self.promise_counter()
        &&& forall|i: int|
            0 <= i < self.ready().len() ==> 1 <= (#[trigger] self.ready()[i]).0
                < self.promise_counter()
        &&& forall|i: int, j: int|
            0 <= i < j < self.ready().len() ==> (#[trigger] self.ready()[i]).0 != (
            #[trigger] self.ready()[j]).0
        &&& forall|i: int, j: int|
            0 <= i < self.pending().len() && 0 <= j < self.ready().len()
                ==> #[trigger] self.pending()[i] != (#[trigger] self.ready()[j]).0
    }

    /// A fresh isolate. The startup script or snapshot itself is executed or
    /// loaded by the engine; the core requires only that a snapshot, when
    /// given, is non-empty.
    pub fn new(startup_data: StartupData, config: Config) -> (iso: Isolate)
        requires
            startup_data.valid(),
        ensures
            iso.wf(),
            iso.ring() == Seq::<(i32, Seq<u8>)>::empty(),
            iso.ring_capacity() == RECOMMENDED_SIZE as int,
            iso.pending() == Seq::<i32>::empty(),
            iso.ready() == Seq::<(i32, Vec<u8>)>::empty(),
            iso.promise_counter() == 1,
            iso.init_pending(),
            iso.snapshot_configured() == config.will_snapshot,
    {
        Isolate {
            shared: TransferRingBuffer::new(RECOMMENDED_SIZE),
            pending_ops: Vec::new(),
            ready_ops: Vec::new(),
            next_promise_id: 1,
            needs_init: true,
            will_snapshot: config.will_snapshot,
        }
    }

    /// Marks the one-time engine-side bootstrap as done and reports whether
    /// the embedder must run it now; true exactly once per isolate.
    pub fn shared_init(&mut self) -> (run_bootstrap: bool)
        ensures
            run_bootstrap == old(self).init_pending(),
            !final(self).init_pending(),
            final(self).ring() == old(self).ring(),
            final(self).ring_capacity() == old(self).ring_capacity(),
            final(self).ring_wf() == old(self).ring_wf(),
            final(self).pending() == old(self).pending(),
            final(self).ready() == old(self).ready(),
            final(self).promise_counter() == old(self).promise_counter(),
            final(self).snapshot_configured() == old(self).snapshot_configured(),
            old(self).wf() ==> final(self).wf(),
    {
        let run = self.needs_init;
        self.needs_init = false;
        proof {
            assert(self.pending() == old(self).pending());
            assert(self.ready() == old(self).ready());
        }
        run
    }

    /// Allocates the next promise identifier; identifiers increase
    /// monotonically and are unique for the life of the isolate.
    pub fn get_next_promise_id(&mut self) -> (pid: i32)
        requires
            old(self).promise_counter() < i32::MAX,
        ensures
            pid == old(self).promise_counter(),
            final(self).promise_counter() == old(self).promise_counter() + 1,
            final(self).ring() == old(self).ring(),
            final(self).ring_capacity() == old(self).ring_capacity(),
            final(self).ring_wf() == old(self).ring_wf(),
            final(self).pending() == old(self).pending(),
            final(self).ready() == old(self).ready(),
            final(self).init_pending() == old(self).init_pending(),
            final(self).snapshot_configured() == old(self).snapshot_configured(),
            old(self).wf() ==> final(self).wf(),
    {
        let pid = self.next_promise_id;
        self.next_promise_id = self.next_promise_id + 1;
        proof {
            assert(self.pending() == old(self).pending());
            assert(self.ready() == old(self).ready());
            if old(self).wf() {
                assert forall|a: int|
                    0 <= a < self.pending().len() implies 1 <= #[trigger] self.pending()[a]
                    < self.promise_counter() by {
                    assert(1 <= old(self).pending()[a] < old(self).promise_counter());
                }
                assert forall|a: int|
                    0 <= a < self.ready().len() implies 1 <= (#[trigger] self.ready()[a]).0
                    < self.promise_counter() by {
                    assert(1 <= (old(self).ready()[a]).0 < old(self).promise_counter());
                }
            }
        }
        pid
    }

    /// Queues a call request in the ring buffer on behalf of the engine
    /// side, to be consumed by a later [`Isolate::dispatch`] with an empty
    /// direct argument; fails when the request does not fit.
    pub fn queue_request(&mut self, id: i32, payload: &[u8]) -> (ok: bool)
        requires
            old(self).wf(),
        ensures
            final(self).wf(),
            final(self).ring_capacity() == old(self).ring_capacity(),
            ok == (seq_cost(old(self).ring()) + record_cost(payload@.len() as int) <= old(self).ring_capacity()),
            ok ==> final(self).ring() == old(self).ring().push((id, payload@)),
            !ok ==> final(self).ring() == old(self).ring(),
            final(self).pending() == old(self).pending(),
            final(self).ready() == old(self).ready(),
            final(self).promise_counter() == old(self).promise_counter(),
            final(self).init_pending() == old(self).init_pending(),
            final(self).snapshot_configured() == old(self).snapshot_configured(),
    {
        let ok = self.shared.push(id, payload);
        proof {
            assert(self.pending() == old(self).pending());
            assert(self.ready() == old(self).ready());
        }
        ok
    }

    /// Selects the one source that supplies this invocation's request: the
    /// direct `control` argument when it is non-empty, otherwise the one
    /// record queued in the ring buffer, whose payload is handed on as the
    /// request; nothing when both sources are empty. The ring is drained
    /// either way, and the scheduler state is untouched.
    pub fn take_request(&mut self, control: Option<Buf>) -> (r: Option<Buf>)
        requires
            old(self).wf(),
            old(self).ring().len() <= 1,
            control_len(control) > 0 ==> old(self).ring().len() == 0,
        ensures
            final(self).wf(),
            final(self).ring().len() == 0,
            final(self).ring_capacity() == old(self).ring_capacity(),
            final(self).pending() == old(self).pending(),
            final(self).ready() == old(self).ready(),
            final(self).promise_counter() == old(self).promise_counter(),
            final(self).init_pending() == old(self).init_pending(),
            final(self).snapshot_configured() == old(self).snapshot_configured(),
            control_len(control) > 0 ==> r == control,
            control_len(control) == 0 && old(self).ring().len() == 1 ==> r is Some && (
            r->Some_0)@ == old(self).ring()[0].1,
            control_len(control) == 0 && old(self).ring().len() == 0 ==> r is None,
    {
        let shifted = self.shared.shift();
        proof {
            assert(self.pending() == old(self).pending());
            assert(self.ready() == old(self).ready());
        }
        let has_direct = match &control {
            Option::Some(c) => c.len() > 0,
            Option::None => false,
        };
        if has_direct {
            control
        } else {
            match shifted {
                Option::Some(rec) => Some(rec.1),
                Option::None => None,
            }
        }
    }

    /// Settles one handler outcome into the response the engine receives: a
    /// synchronous outcome is answered as a Sync response carrying that very
    /// buffer, with the scheduler untouched, and an asynchronous outcome is
    /// answered as a Promised response carrying a fresh promise identifier,
    /// registered as in flight.
    pub fn settle(&mut self, op: Op) -> (r: DispatchResponse)
        requires
            old(self).wf(),
            old(self).promise_counter() < i32::MAX,
        ensures
            final(self).wf(),
            final(self).ring() == old(self).ring(),
            final(self).ring_capacity() == old(self).ring_capacity(),
            final(self).ready() == old(self).ready(),
            final(self).init_pending() == old(self).init_pending(),
            final(self).snapshot_configured() == old(self).snapshot_configured(),
            match op {
                Op::Sync(buf) => r == DispatchResponse::Sync(buf) && final(self).pending() == old(
                    self,
                ).pending() && final(self).promise_counter() == old(self).promise_counter(),
                Op::Async => {
                    &&& r is Promised
                    &&& r->Promised_0 == old(self).promise_counter()
                    &&& !old(self).pending().contains(r->Promised_0)
                    &&& final(self).pending() == old(self).pending().push(r->Promised_0)
                    &&& final(self).promise_counter() == old(self).promise_counter() + 1
                },
            },
    {
        match op {
            Op::Sync(buf) => DispatchResponse::Sync(buf),
            Op::Async => {
                let pid = self.next_promise_id;
                self.next_promise_id = self.next_promise_id + 1;
                self.pending_ops.push(pid);
                proof {
                    let p = old(self).pending();
                    let q = self.pending();
                    assert(q == p.push(pid));
                    assert(self.ready() == old(self).ready());
                    if p.contains(pid) {
                        let i = choose|i: int| 0 <= i < p.len() && p[i] == pid;
                        assert(p[i] < pid);
                    }
                    assert forall|a: int|
                        0 <= a < q.len() implies 1 <= #[trigger] q[a] < self.promise_counter() by {
                        if a < p.len() {
                            assert(q[a] == p[a]);
                        } else {
                            assert(q[a] == pid);
                        }
                    }
                    assert forall|a: int, b: int|
                        0 <= a < b < q.len() implies #[trigger] q[a] != #[trigger] q[b] by {
                        assert(q[a] == p[a]);
                        if b < p.len() {
                            assert(q[b] == p[b]);
                        } else {
                            assert(q[b] == pid);
                        }
                    }
                    assert forall|a: int, b: int|
                        0 <= a < q.len() && 0 <= b < self.ready().len() implies #[trigger] q[a] != (
                    #[trigger] self.ready()[b]).0 by {
                        assert(self.ready()[b] == old(self).ready()[b]);
                        if a < p.len() {
                            assert(q[a] == p[a]);
                            assert(p[a] != old(self).ready()[b].0);
                        } else {
                            assert(q[a] == pid);
                            assert(old(self).ready()[b].0 < pid);
                        }
                    }
                }
                DispatchResponse::Promised(pid)
            },
        }
    }

    /// Receives one call request and routes it to the dispatcher: the
    /// request is selected by [`Isolate::take_request`] — the non-empty
    /// direct `control` argument, or the one record queued in the ring
    /// buffer — and handed to the dispatcher with the optional attached
    /// binary payload; when both sources are empty this is a no-op, not an
    /// error, and the dispatcher is not consulted. The dispatcher's outcome
    /// is settled by [`Isolate::settle`], whose contract fixes the response
    /// for each outcome: a synchronous outcome is answered by this very
    /// invocation as a Sync response carrying the handler's buffer, before
    /// any later call begins, and an asynchronous outcome is answered as a
    /// fresh promise identifier, registered as in flight.
    pub fn dispatch<D: CallDispatcher>(
        &mut self,
        dispatcher: &mut D,
        control: Option<Buf>,
        zero_copy: Option<Buf>,
    ) -> (r: DispatchResponse)
        requires
            old(self).wf(),
            old(self).promise_counter() < i32::MAX,
            old(self).ring().len() <= 1,
            control_len(control) > 0 ==> old(self).ring().len() == 0,
        ensures
            final(self).wf(),
            final(self).ring().len() == 0,
            final(self).ring_capacity() == old(self).ring_capacity(),
            final(self).ready() == old(self).ready(),
            final(self).init_pending() == old(self).init_pending(),
            final(self).snapshot_configured() == old(self).snapshot_configured(),
            (r is NoOp) <==> (control_len(control) == 0 && old(self).ring().len() == 0),
            r is NoOp ==> final(self).pending() == old(self).pending() && final(self).promise_counter() == old(self).promise_counter(),
            r is Sync ==> final(self).pending() == old(self).pending() && final(self).promise_counter() == old(self).promise_counter(),
            r is Promised ==> {
                &&& r->Promised_0 == old(self).promise_counter()
                &&& !old(self).pending().contains(r->Promised_0)
                &&& final(self).pending() == old(self).pending().push(r->Promised_0)
                &&& final(self).promise_counter() == old(self).promise_counter() + 1
            },
    {
        let request = self.take_request(control);
        let request = match request {
            Option::Some(bytes) => bytes,
            Option::None => {
                return DispatchResponse::NoOp;
            },
        };
        let op = dispatcher.dispatch(request.as_slice(), zero_copy);
        self.settle(op)
    }

    /// The scheduler state stays consistent when an in-flight promise is
    /// completed: the promise leaves the in-flight set, joins the
    /// undelivered responses last, and every identifier stays unique.
    proof fn lemma_complete_transition(pre: Self, post: Self, pi: int, promise_id: i32, payload: Vec<u8>)
        requires
            pre.wf(),
            0 <= pi < pre.pending().len(),
            pre.pending()[pi] == promise_id,
            post.pending() == pre.pending().remove(pi),
            post.ready() == pre.ready().push((promise_id, payload)),
            post.promise_counter() == pre.promise_counter(),
            post.ring_wf(),
        ensures
            post.wf(),
            pre.pending().contains(promise_id),
            !post.pending().contains(promise_id),
            post.pending().len() == pre.pending().len() - 1,
            forall|v: i32|
                v != promise_id ==> #[trigger] post.pending().contains(v) == pre.pending().contains(v),
    {
        let p = pre.pending();
        let q = post.pending();
        let rp = pre.ready();
        let rq = post.ready();
        p.remove_ensures(pi);
        assert(p.contains(promise_id));
        assert forall|a: int| 0 <= a < q.len() implies 1 <= #[trigger] q[a] < post.promise_counter() by {
            if a < pi {
                assert(q[a] == p[a]);
            } else {
                assert(q[a] == p[a + 1]);
            }
        }
        assert forall|a: int, b: int| 0 <= a < b < q.len() implies #[trigger] q[a] != #[trigger] q[b] by {
            let a0: int = if a < pi { a } else { a + 1 };
            let b0: int = if b < pi { b } else { b + 1 };
            assert(q[a] == p[a0]);
            assert(q[b] == p[b0]);
            assert(p[a0] != p[b0]);
        }
        if q.contains(promise_id) {
            let j = choose|j: int| 0 <= j < q.len() && q[j] == promise_id;
            let j0: int = if j < pi { j } else { j + 1 };
            assert(q[j] == p[j0]);
            if j0 < pi {
                assert(p[j0] != p[pi]);
            } else {
                assert(p[pi] != p[j0]);
            }
        }
        assert forall|v: i32| v != promise_id implies #[trigger] q.contains(v) == p.contains(v) by {
            if p.contains(v) {
                let j = choose|j: int| 0 <= j < p.len() && p[j] == v;
                if j < pi {
                    assert(q[j] == v);
                } else {
                    assert(q[j - 1] == v);
                }
                assert(q.contains(v));
            } else if q.contains(v) {
                let j = choose|j: int| 0 <= j < q.len() && q[j] == v;
                let j0: int = if j < pi { j } else { j + 1 };
                assert(p[j0] == v);
                assert(p.contains(v));
            }
        }
        assert forall|a: int| 0 <= a < rq.len() implies 1 <= (#[trigger] rq[a]).0 < post.promise_counter() by {
            if a < rp.len() {
                assert(rq[a] == rp[a]);
            } else {
                assert(rq[a] == (promise_id, payload));
            }
        }
        assert forall|a: int, b: int| 0 <= a < b < rq.len() implies (#[trigger] rq[a]).0 != (#[trigger] rq[b]).0 by {
            assert(rq[a] == rp[a]);
            if b < rp.len() {
                assert(rq[b] == rp[b]);
            } else {
                assert(rq[b] == (promise_id, payload));
                assert(p[pi] != rp[a].0);
            }
        }
        assert forall|a: int, b: int|
            0 <= a < q.len() && 0 <= b < rq.len() implies #[trigger] q[a] != (#[trigger] rq[b]).0 by {
            let a0: int = if a < pi { a } else { a + 1 };
            assert(q[a] == p[a0]);
            if b < rp.len() {
                assert(rq[b] == rp[b]);
                assert(p[a0] != rp[b].0);
            } else {
                assert(rq[b] == (promise_id, payload));
                if a0 < pi {
                    assert(p[a0] != p[pi]);
                } else {
                    assert(p[pi] != p[a0]);
                }
            }
        }
    }

    /// Law: promise identifiers are never confused between calls. In every
    /// consistent isolate the in-flight identifiers are pairwise distinct,
    /// the undelivered responses carry pairwise distinct identifiers, and no
    /// undelivered response shares its identifier with an in-flight call —
    /// so a response delivered for one call can never be mistaken for
    /// another's, and each call is completed at most once.
    pub proof fn lemma_promise_ids_unique(self)
        requires
            self.wf(),
        ensures
            forall|i: int, j: int|
                0 <= i < j < self.pending().len() ==> #[trigger] self.pending()[i]
                    != #[trigger] self.pending()[j],
            forall|i: int, j: int|
                0 <= i < j < self.ready().len() ==> (#[trigger] self.ready()[i]).0 != (
                #[trigger] self.ready()[j]).0,
            forall|i: int, j: int|
                0 <= i < self.pending().len() && 0 <= j < self.ready().len()
                    ==> #[trigger] self.pending()[i] != (#[trigger] self.ready()[j]).0,
    {
    }

    /// Reports the completion of the asynchronous call correlated by
    /// `promise_id`; its response joins the undelivered responses in
    /// completion order. Exactly one completion is accepted per dispatched
    /// promise identifier: reporting one that is not in flight — never
    /// dispatched, or already completed — is a protocol violation, a fatal
    /// internal-consistency fault for the owning context.
    pub fn complete(&mut self, promise_id: i32, payload: Buf) -> (r: Result<(), CoreError>)
        requires
            old(self).wf(),
        ensures
            final(self).wf(),
            final(self).ring() == old(self).ring(),
            final(self).ring_capacity() == old(self).ring_capacity(),
            final(self).promise_counter() == old(self).promise_counter(),
            final(self).init_pending() == old(self).init_pending(),
            final(self).snapshot_configured() == old(self).snapshot_configured(),
            (r is Ok) <==> old(self).pending().contains(promise_id),
            r is Err ==> {
                &&& r->Err_0 == CoreError::ProtocolViolation
                &&& final(self).pending() == old(self).pending()
                &&& final(self).ready() == old(self).ready()
            },
            r is Ok ==> {
                &&& !final(self).pending().contains(promise_id)
                &&& final(self).pending().len() == old(self).pending().len() - 1
                &&& (forall|v: i32|
                    v != promise_id ==> #[trigger] final(self).pending().contains(v) == old(self).pending().contains(v))
                &&& final(self).ready() == old(self).ready().push((promise_id, payload))
            },
    {
        let n = self.pending_ops.len();
        let mut i: usize = 0;
        while i < n
            invariant
                old(self).wf(),
                *self == *old(self),
                n == self.pending().len(),
                0 <= i <= n,
                forall|j: int| 0 <= j < i ==> #[trigger] self.pending()[j] != promise_id,
            decreases n - i,
        {
            if self.pending_ops[i] == promise_id {
                self.pending_ops.remove(i);
                self.ready_ops.push((promise_id, payload));
                proof {
                    Self::lemma_complete_transition(*old(self), *self, i as int, promise_id, payload);
                }
                return Ok(());
            }
            i = i + 1;
        }
        proof {
            if old(self).pending().contains(promise_id) {
                let j = choose|j: int|
                    0 <= j < old(self).pending().len() && old(self).pending()[j] == promise_id;
                assert(old(self).pending()[j] != promise_id);
            }
        }
        Err(CoreError::ProtocolViolation)
    }

    /// One drive cycle: moves completed asynchronous responses into the ring
    /// buffer in completion order, stopping at the first that does not fit,
    /// which is diverted to the overflow path; then drains the ring so that
    /// the engine side observes every batched record before control
    /// returns. Each completed response is delivered exactly once, tagged
    /// with its own promise identifier; the responses that neither fit nor
    /// overflowed this cycle stay, in order, for the next one.
    #[verifier::rlimit(30)]
    pub fn drive_cycle(&mut self) -> (report: DriveReport)
        requires
            old(self).wf(),
        ensures
            final(self).wf(),
            final(self).ring().len() == 0,
            final(self).ring_capacity() == old(self).ring_capacity(),
            final(self).pending() == old(self).pending(),
            final(self).promise_counter() == old(self).promise_counter(),
            final(self).init_pending() == old(self).init_pending(),
            final(self).snapshot_configured() == old(self).snapshot_configured(),
            ({
                let k = fit_count(
                    seq_cost(old(self).ring()),
                    old(self).ring_capacity(),
                    records_view(old(self).ready()),
                );
                &&& records_view(report.batched@) == old(self).ring() + records_view(
                    old(self).ready(),
                ).take(k)
                &&& k == old(self).ready().len() ==> report.overflow is None && final(self).ready()
                    == old(self).ready().skip(k)
                &&& k < old(self).ready().len() ==> report.overflow is Some && (
                report.overflow->Some_0)@ == be32(old(self).ready()[k].0 as u32) + old(self).ready()[k].1@ && final(self).ready() == old(self).ready().skip(k + 1)
            }),
            (report.status is Quiescent) <==> (final(self).pending().len() == 0 && final(self).ready().len() == 0),
    {
        let ghost pre_ring = old(self).ring();
        let ghost cap = old(self).ring_capacity();
        let ghost rv_pre = records_view(old(self).ready());
        let ghost k_total = fit_count(seq_cost(pre_ring), cap, rv_pre);
        proof {
            lemma_fit_count_range(seq_cost(pre_ring), cap, rv_pre);
            assert(rv_pre.len() == old(self).ready().len());
        }
        let mut overflow_rec: Option<(i32, Buf)> = None;
        let ghost mut k: int = 0;
        proof {
            assert(rv_pre.skip(0) =~= rv_pre);
            assert(old(self).ring() + rv_pre.take(0) =~= old(self).ring());
        }
        loop
            invariant_except_break
                old(self).wf(),
                overflow_rec is None,
                0 <= k <= rv_pre.len(),
                rv_pre == records_view(old(self).ready()),
                pre_ring == old(self).ring(),
                cap == old(self).ring_capacity(),
                k_total == fit_count(seq_cost(pre_ring), cap, rv_pre),
                0 <= k_total <= rv_pre.len(),
                self.ring_wf(),
                self.ring_capacity() == cap,
                self.ring() == old(self).ring() + rv_pre.take(k),
                self.ready() == old(self).ready().skip(k),
                self.pending() == old(self).pending(),
                self.promise_counter() == old(self).promise_counter(),
                self.init_pending() == old(self).init_pending(),
                self.snapshot_configured() == old(self).snapshot_configured(),
                fit_count(seq_cost(pre_ring), cap, rv_pre) == k + fit_count(
                    seq_cost(self.ring()),
                    cap,
                    rv_pre.skip(k),
                ),
            ensures
                old(self).wf(),
                self.ring_wf(),
                self.ring_capacity() == cap,
                self.ring() == old(self).ring() + rv_pre.take(k_total),
                self.pending() == old(self).pending(),
                self.promise_counter() == old(self).promise_counter(),
                self.init_pending() == old(self).init_pending(),
                self.snapshot_configured() == old(self).snapshot_configured(),
                match overflow_rec {
                    Option::None => k_total == rv_pre.len() && self.ready() == old(self).ready().skip(k_total),
                    Option::Some(rec) => k_total < rv_pre.len() && (rec.0, rec.1@)
                        == rv_pre[k_total] && self.ready() == old(self).ready().skip(k_total + 1),
                },
            decreases self.ready().len(),
        {
            if self.ready_ops.len() == 0 {
                proof {
                    assert(rv_pre.skip(k).len() == 0);
                    assert(k == rv_pre.len());
                    assert(fit_count(seq_cost(self.ring()), cap, rv_pre.skip(k)) == 0);
                    assert(k == k_total);
                    assert(rv_pre.take(k) =~= rv_pre.take(k_total));
                }
                break;
            }
            let rec = self.ready_ops.remove(0);
            proof {
                assert(self.pending() == old(self).pending());
                assert(old(self).ready().skip(k)[0] == old(self).ready()[k]);
                assert(rec == old(self).ready()[k]);
                assert(rv_pre[k] == (rec.0, rec.1@));
                assert(self.ready() =~= old(self).ready().skip(k + 1));
            }
            let ghost ring_before = self.ring();
            let ok = self.shared.push(rec.0, rec.1.as_slice());
            proof {
                assert(self.pending() == old(self).pending());
                assert(self.ready() == old(self).ready().skip(k + 1));
                assert(rv_pre.skip(k)[0] == rv_pre[k]);
                assert(seq_cost(ring_before) + record_cost(rec.1@.len() as int) <= cap <==> ok);
            }
            if !ok {
                proof {
                    assert(self.ring() == ring_before);
                    assert(fit_count(seq_cost(ring_before), cap, rv_pre.skip(k)) == 0);
                    assert(k == k_total);
                    assert(rv_pre.take(k) =~= rv_pre.take(k_total));
                }
                overflow_rec = Some(rec);
                break;
            }
            proof {
                assert(self.ring() == ring_before.push(rv_pre[k]));
                assert(self.ring() =~= old(self).ring() + rv_pre.take(k + 1));
                assert(rv_pre.skip(k).drop_first() =~= rv_pre.skip(k + 1));
                assert(fit_count(seq_cost(ring_before), cap, rv_pre.skip(k)) == 1 + fit_count(
                    seq_cost(ring_before) + record_cost(rv_pre.skip(k)[0].1.len() as int),
                    cap,
                    rv_pre.skip(k).drop_first(),
                ));
                lemma_seq_cost_push(ring_before, rv_pre[k]);
                k = k + 1;
            }
        }
        let ghost filled = self.ring();
        let mut batched: Vec<(i32, Buf)> = Vec::new();
        loop
            invariant
                self.ring_wf(),
                self.ring_capacity() == cap,
                records_view(batched@) + self.ring() == filled,
                self.pending() == old(self).pending(),
                self.ready() == (match overflow_rec {
                    Option::None => old(self).ready().skip(k_total),
                    Option::Some(_) => old(self).ready().skip(k_total + 1),
                }),
                self.promise_counter() == old(self).promise_counter(),
                self.init_pending() == old(self).init_pending(),
                self.snapshot_configured() == old(self).snapshot_configured(),
            ensures
                self.ring().len() == 0,
                records_view(batched@) == filled,
                self.ring_wf(),
                self.ring_capacity() == cap,
                self.pending() == old(self).pending(),
                self.ready() == (match overflow_rec {
                    Option::None => old(self).ready().skip(k_total),
                    Option::Some(_) => old(self).ready().skip(k_total + 1),
                }),
                self.promise_counter() == old(self).promise_counter(),
                self.init_pending() == old(self).init_pending(),
                self.snapshot_configured() == old(self).snapshot_configured(),
            decreases self.ring().len(),
        {
            let ghost ring_before = self.ring();
            let shifted = self.shared.shift();
            proof {
                assert(self.pending() == old(self).pending());
            }
            match shifted {
                Option::Some(rec) => {
                    proof {
                        assert((rec.0, rec.1@) == ring_before[0]);
                    }
                    batched.push(rec);
                    proof {
                        assert(records_view(batched@) + self.ring() =~= filled);
                    }
                },
                Option::None => {
                    proof {
                        assert(records_view(batched@) + self.ring() =~= filled);
                    }
                    break;
                },
            }
        }
        let overflow: Option<Buf> = match overflow_rec {
            Option::Some(rec) => {
                proof {
                    assert((rec.0, rec.1@) == rv_pre[k_total]);
                    assert(1 <= (old(self).ready()[k_total]).0);
                }
                Some(encode_overflow(rec.0, rec.1.as_slice()))
            },
            Option::None => None,
        };
        let status = if self.pending_ops.len() == 0 && self.ready_ops.len() == 0 {
            DriveStatus::Quiescent
        } else {
            DriveStatus::Pending
        };
        proof {
            assert forall|a: int|
                0 <= a < self.ready().len() implies 1 <= (#[trigger] self.ready()[a]).0 < self
                .promise_counter() by {
                let m: int = if overflow_rec is None {
                    k_total
                } else {
                    k_total + 1
                };
                assert(self.ready()[a] == old(self).ready()[m + a]);
            }
            assert forall|a: int, b: int|
                0 <= a < b < self.ready().len() implies (#[trigger] self.ready()[a]).0 != (
            #[trigger] self.ready()[b]).0 by {
                let m: int = if overflow_rec is None {
                    k_total
                } else {
                    k_total + 1
                };
                assert(self.ready()[a] == old(self).ready()[m + a]);
                assert(self.ready()[b] == old(self).ready()[m + b]);
            }
            assert forall|a: int, b: int|
                0 <= a < self.pending().len() && 0 <= b < self.ready().len()
                implies #[trigger] self.pending()[a] != (#[trigger] self.ready()[b]).0 by {
                let m: int = if overflow_rec is None {
                    k_total
                } else {
                    k_total + 1
                };
                assert(self.ready()[b] == old(self).ready()[m + b]);
                assert(self.pending()[a] == old(self).pending()[a]);
            }
        }
        DriveReport { batched, overflow, status }
    }
}


/// How many of the completed responses `ready`, taken in order, fit a ring
/// buffer of capacity `cap` already holding `used` bytes: the drain stops at
/// the first record that does not fit.
pub open spec fn fit_count(used: int, cap: int, ready: Seq<(i32, Seq<u8>)>) -> int
    decreases ready.len(),
{
    if ready.len() == 0 {
        0
    } else if used + record_cost(ready[0].1.len() as int) <= cap {
        1 + fit_count(used + record_cost(ready[0].1.len() as int), cap, ready.drop_first())
    } else {
        0
    }
}

pub proof fn lemma_fit_count_range(used: int, cap: int, ready: Seq<(i32, Seq<u8>)>)
    ensures
        0 <= fit_count(used, cap, ready) <= ready.len(),
    decreases ready.len(),
{
    if ready.len() > 0 && used + record_cost(ready[0].1.len() as int) <= cap {
        lemma_fit_count_range(used + record_cost(ready[0].1.len() as int), cap, ready.drop_first());
    }
}

/// The four big-endian bytes of a 32-bit value, as used by the overflow
/// delivery path to prefix a response with its promise identifier.
pub open spec fn be32(n: u32) -> Seq<u8> {
    seq![
        (n >> 24) as u8,
        ((n >> 16) & 0xff) as u8,
        ((n >> 8) & 0xff) as u8,
        (n & 0xff) as u8,
    ]
}

/// The 32-bit value read back from four big-endian bytes.
pub open spec fn be32_val(b0: u8, b1: u8, b2: u8, b3: u8) -> u32 {
    ((b0 as u32) << 24) | ((b1 as u32) << 16) | ((b2 as u32) << 8) | (b3 as u32)
}

/// Reading back the four big-endian bytes of a value yields the value.
pub proof fn lemma_be32_round_trip(n: u32)
    ensures
        be32_val(be32(n)[0], be32(n)[1], be32(n)[2], be32(n)[3]) == n,
{
    assert(((((n >> 24) as u8) as u32) << 24) | (((((n >> 16) & 0xff) as u8) as u32) << 16) | ((
    (((n >> 8) & 0xff) as u8) as u32) << 8) | (((n & 0xff) as u8) as u32) == n) by (bit_vector);
}

/// Encodes an overflow delivery: the promise identifier as four big-endian
/// bytes, followed by the response payload unchanged.
pub fn encode_overflow(promise_id: i32, payload: &[u8]) -> (r: Buf)
    requires
        promise_id >= 0,
    ensures
        r@ == be32(promise_id as u32) + payload@,
        r@.len() == 4 + payload@.len(),
{
    let n = promise_id as u32;
    proof {
        assert((n >> 24) < 256 && ((n >> 16) & 0xff) < 256 && ((n >> 8) & 0xff) < 256 && (n & 0xff)
            < 256) by (bit_vector);
    }
    let mut out: Vec<u8> = Vec::new();
    out.push((n >> 24) as u8);
    out.push(((n >> 16) & 0xff) as u8);
    out.push(((n >> 8) & 0xff) as u8);
    out.push((n & 0xff) as u8);
    let m = payload.len();
    let mut i: usize = 0;
    while i < m
        invariant
            m == payload@.len(),
            0 <= i <= m,
            out@ == be32(n) + payload@.take(i as int),
        decreases m - i,
    {
        let b = payload[i];
        out.push(b);
        proof {
            assert(out@ =~= be32(n) + payload@.take(i as int + 1));
        }
        i = i + 1;
    }
    proof {
        assert(payload@.take(m as int) =~= payload@);
    }
    out
}

/// Decodes an overflow delivery back into its promise identifier and
/// payload; nothing for a buffer too short to carry the identifier, or one
/// whose identifier bytes exceed the positive range of a promise id.
pub fn decode_overflow(buf: &[u8]) -> (r: Option<(i32, Buf)>)
    ensures
        (buf@.len() >= 4 && be32_val(buf@[0], buf@[1], buf@[2], buf@[3]) <= i32::MAX as u32) <==> r
            is Some,
        r is Some ==> {
            &&& (r->Some_0).0 == be32_val(buf@[0], buf@[1], buf@[2], buf@[3]) as i32
            &&& (r->Some_0).1@ == buf@.skip(4)
        },
{
    if buf.len() < 4 {
        return None;
    }
    let b0 = buf[0];
    proof {
        let b1 = buf@[1];
        let b2 = buf@[2];
        let b3 = buf@[3];
        assert((((b0 as u32) << 24) | ((b1 as u32) << 16) | ((b2 as u32) << 8) | (b3 as u32)
            <= 0x7fffffffu32) == (b0 < 0x80)) by (bit_vector);
    }
    if b0 >= 0x80 {
        return None;
    }
    let n: u32 = ((buf[0] as u32) << 24) | ((buf[1] as u32) << 16) | ((buf[2] as u32) << 8) | (
    buf[3] as u32);
    let pid: i32 = n as i32;
    let m = buf.len();
    let mut payload: Vec<u8> = Vec::new();
    let mut i: usize = 4;
    while i < m
        invariant
            m == buf@.len(),
            m >= 4,
            4 <= i <= m,
            payload@ == buf@.subrange(4, i as int),
        decreases m - i,
    {
        let b = buf[i];
        payload.push(b);
        proof {
            assert(payload@ =~= buf@.subrange(4, i as int + 1));
        }
        i = i + 1;
    }
    proof {
        assert(buf@.subrange(4, m as int) =~= buf@.skip(4));
    }
    Some((pid, payload))
}

} // verus!

