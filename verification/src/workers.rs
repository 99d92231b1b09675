//! The worker model: an additional isolate run concurrently, joined to its
//! parent by a pair of bounded message channels and registered in the
//! parent's handle table so the parent can address, message and close it.

use crate::errors::JsError;
use crate::errors::RustOrJsError;
use crate::handles::HandleTable;
use crate::isolate::Buf;
use crate::isolate::CallDispatcher;
use crate::isolate::Config;
use crate::isolate::Isolate;
use crate::isolate::StartupData;
use crate::resources::CliResource;
use crate::resources::add_worker;
use vstd::prelude::*;

verus! {

/// Why a message could not be posted to or taken from a worker channel.
#[derive(Clone, Copy, Debug, PartialEq, Eq, Structural)]
pub enum ChannelError {
    /// The bounded channel already holds its full quota; the poster must
    /// back off and retry.
    Full,
    /// The channel no longer accepts sends; messages already queued can
    /// still be received.
    Closed,
    /// The handle does not name a live worker.
    BadResource,
}

/// A bounded one-directional message channel carrying opaque buffers. Its
/// capacity backpressures the poster; closing it refuses further sends but
/// never discards what is already queued.
pub struct MessageChannel {
    queue: Vec<Buf>,
    capacity: usize,
    closed: bool,
}

impl MessageChannel {
    /// The queued messages, oldest first.
    pub closed spec fn messages(self) -> Seq<Vec<u8>> {
        self.queue@
    }

    /// The bound on queued messages.
    pub closed spec fn bound(self) -> int {
        self.capacity as int
    }

    /// Whether the channel still accepts sends.
    pub closed spec fn is_closed(self) -> bool {
        self.closed
    }

    /// The queue never outgrows its bound.
    pub open spec fn wf(self) -> bool {
        self.messages().len() <= self.bound()
    }

    /// An empty open channel with the given bound.
    pub fn new(capacity: usize) -> (c: MessageChannel)
        ensures
            c.wf(),
            c.messages() == Seq::<Vec<u8>>::empty(),
            c.bound() == capacity,
            !c.is_closed(),
    {
        MessageChannel { queue: Vec::new(), capacity, closed: false }
    }

    /// Queues a message: refused without effect when the channel is closed
    /// or already full, accepted and appended otherwise.
    pub fn post(&mut self, msg: Buf) -> (r: Result<(), ChannelError>)
        requires
            old(self).wf(),
        ensures
            final(self).wf(),
            final(self).bound() == old(self).bound(),
            final(self).is_closed() == old(self).is_closed(),
            old(self).is_closed() ==> r == Result::<(), ChannelError>::Err(ChannelError::Closed)
                && final(self).messages() == old(self).messages(),
            !old(self).is_closed() && old(self).messages().len() >= old(self).bound() ==> r
                == Result::<(), ChannelError>::Err(ChannelError::Full) && final(self).messages()
                == old(self).messages(),
            !old(self).is_closed() && old(self).messages().len() < old(self).bound() ==> r
                == Result::<(), ChannelError>::Ok(()) && final(self).messages() == old(self).messages().push(msg),
    {
        if self.closed {
            return Err(ChannelError::Closed);
        }
        if self.queue.len() >= self.capacity {
            return Err(ChannelError::Full);
        }
        self.queue.push(msg);
        Ok(())
    }

    /// Receives the oldest queued message, or nothing when the queue is
    /// empty; receiving works on a closed channel until it drains.
    pub fn take(&mut self) -> (r: Option<Buf>)
        requires
            old(self).wf(),
        ensures
            final(self).wf(),
            final(self).bound() == old(self).bound(),
            final(self).is_closed() == old(self).is_closed(),
            old(self).messages().len() == 0 ==> r is None && final(self).messages() == old(self).messages(),
            old(self).messages().len() > 0 ==> r is Some && r->Some_0 == old(self).messages()[0]
                && final(self).messages() == old(self).messages().drop_first(),
    {
        if self.queue.len() == 0 {
            None
        } else {
            let m = self.queue.remove(0);
            proof {
                assert(self.messages() =~= old(self).messages().drop_first());
            }
            Some(m)
        }
    }

    /// Refuses further sends; queued messages stay receivable.
    pub fn close(&mut self)
        ensures
            final(self).wf() == old(self).wf(),
            final(self).bound() == old(self).bound(),
            final(self).is_closed(),
            final(self).messages() == old(self).messages(),
    {
        self.closed = true;
    }
}

/// The two bounded channels joining a worker to its parent, owned by the
/// worker's entry in the parent's handle table: the table is the shared
/// nexus through which both sides address them.
pub struct WorkerChannels {
    pub to_worker: MessageChannel,
    pub from_worker: MessageChannel,
}

impl WorkerChannels {
    pub open spec fn wf(self) -> bool {
        self.to_worker.wf() && self.from_worker.wf()
    }

    /// A fresh channel pair, each side bounded to one outstanding message,
    /// which forces request/response discipline between parent and worker.
    pub fn new() -> (c: WorkerChannels)
        ensures
            c.wf(),
            c.to_worker.messages() == Seq::<Vec<u8>>::empty(),
            c.from_worker.messages() == Seq::<Vec<u8>>::empty(),
            !c.to_worker.is_closed(),
            !c.from_worker.is_closed(),
            c.to_worker.bound() == 1,
            c.from_worker.bound() == 1,
    {
        WorkerChannels { to_worker: MessageChannel::new(1), from_worker: MessageChannel::new(1) }
    }
}

/// Lifecycle of a worker: it starts, runs once its bootstrap scripts have
/// executed without fault, begins closing on an explicit close, a terminate
/// call or a fault, and is closed once its thread has unwound and its
/// handle has left the parent's table.
#[derive(Clone, Copy, Debug, PartialEq, Eq, Structural)]
pub enum WorkerStatus {
    Starting,
    Running,
    Closing,
    Closed,
}

/// Behavior of a worker isolate: besides dispatching its calls, it accepts
/// the channel pair wired up at worker creation.
pub trait WorkerBehavior: CallDispatcher {
    /// Hands the behavior the channels joining the worker to its parent.
    fn set_internal_channels(&mut self, worker_channels: WorkerChannels);
}

/// Method and data used to initialize a worker: an inline script or the
/// specifier of a module.
pub enum WorkerInit {
    Script(String),
    Module(String),
}

/// An additional isolate intended to run on its own thread, registered as a
/// handle in its parent's table.
pub struct Worker<B: WorkerBehavior> {
    isolate: Isolate,
    behavior: B,
    status: WorkerStatus,
    resource_rid: u32,
}

impl<B: WorkerBehavior> Worker<B> {
    /// This worker's isolate.
    pub closed spec fn isolate_view(self) -> Isolate {
        self.isolate
    }

    /// Where the worker stands in its lifecycle.
    pub closed spec fn status(self) -> WorkerStatus {
        self.status
    }

    /// The handle under which the parent's table addresses this worker.
    pub closed spec fn rid(self) -> u32 {
        self.resource_rid
    }

    /// Creates a worker: a fresh isolate, and a worker resource registered
    /// in the parent's table under a fresh handle, whose channel pair —
    /// open, empty and bounded to one message each way — is what both
    /// sides message through. The behavior receives its own fresh pair for
    /// any bookkeeping of its own; the authoritative channels are the
    /// table entry's.
    pub fn new(behavior: B, table: &mut HandleTable<CliResource>) -> (w: Worker<B>)
        requires
            old(table).wf(),
            old(table).next_handle() < u32::MAX,
        ensures
            final(table).wf(),
            w.status() is Starting,
            w.rid() == old(table).next_handle(),
            final(table).next_handle() == old(table).next_handle() + 1,
            final(table).has_rid(w.rid()),
            final(table).kind_of(w.rid()) == "worker"@,
            is_worker(*final(table), w.rid()),
            worker_channels_wf(*final(table), w.rid()),
            channels_of(*final(table), w.rid()).to_worker.messages() == Seq::<Vec<u8>>::empty(),
            channels_of(*final(table), w.rid()).from_worker.messages() == Seq::<Vec<u8>>::empty(),
            !channels_of(*final(table), w.rid()).to_worker.is_closed(),
            !channels_of(*final(table), w.rid()).from_worker.is_closed(),
            channels_of(*final(table), w.rid()).to_worker.bound() == 1,
            channels_of(*final(table), w.rid()).from_worker.bound() == 1,
            w.isolate_view().wf(),
            w.isolate_view().pending() == Seq::<i32>::empty(),
            w.isolate_view().ready() == Seq::<(i32, Vec<u8>)>::empty(),
            forall|r2: u32|
                r2 != w.rid() ==> #[trigger] final(table).has_rid(r2) == old(table).has_rid(r2),
            forall|r2: u32|
                r2 != w.rid() && old(table).has_rid(r2) ==> #[trigger] final(table).res_of(r2)
                    == old(table).res_of(r2),
            forall|r2: u32|
                r2 != w.rid() && old(table).has_rid(r2) ==> #[trigger] final(table).kind_of(r2)
                    == old(table).kind_of(r2),
    {
        let mut behavior = behavior;
        behavior.set_internal_channels(WorkerChannels::new());
        let isolate = Isolate::new(StartupData::Empty, Config { will_snapshot: false });
        let rid = add_worker(table, WorkerChannels::new());
        Worker { isolate, behavior, status: WorkerStatus::Starting, resource_rid: rid }
    }

    /// Where the worker stands in its lifecycle.
    pub fn status_now(&self) -> (s: WorkerStatus)
        ensures
            s == self.status(),
    {
        self.status
    }

    /// The handle under which the parent's table addresses this worker.
    pub fn resource_rid(&self) -> (rid: u32)
        ensures
            rid == self.rid(),
    {
        self.resource_rid
    }

    /// Exclusive access to the worker's isolate, for dispatching and
    /// driving it; lifecycle state and handle stay as they are.
    pub fn isolate_mut(&mut self) -> (r: &mut Isolate)
        ensures
            *r == old(self).isolate_view(),
            final(self).isolate_view() == *final(r),
            final(self).status() == old(self).status(),
            final(self).rid() == old(self).rid(),
    {
        &mut self.isolate
    }

    /// Records the outcome of the bootstrap scripts: the worker runs once
    /// they executed without fault, and begins closing on a fault.
    pub fn notify_bootstrap(&mut self, result: Result<(), JsError>) -> (r: Result<(), JsError>)
        requires
            old(self).status() is Starting,
        ensures
            final(self).isolate_view() == old(self).isolate_view(),
            final(self).rid() == old(self).rid(),
            (r is Ok) == (result is Ok),
            result is Ok ==> final(self).status() is Running,
            result is Err ==> final(self).status() is Closing && r == Result::<(), JsError>::Err(
                result->Err_0,
            ),
    {
        match result {
            Ok(_) => {
                self.status = WorkerStatus::Running;
                Ok(())
            },
            Err(e) => {
                self.status = WorkerStatus::Closing;
                Err(e)
            },
        }
    }

    /// Begins closing: an explicit close from either side, a terminate call
    /// from the worker's script, or an unrecoverable fault all land here.
    pub fn request_close(&mut self)
        requires
            old(self).status() is Starting || old(self).status() is Running || old(self).status() is Closing,
        ensures
            final(self).isolate_view() == old(self).isolate_view(),
            final(self).rid() == old(self).rid(),
            final(self).status() is Closing,
    {
        self.status = WorkerStatus::Closing;
    }

    /// Completes closing once the worker's thread has unwound: the handle
    /// leaves the parent's table, releasing both channel halves with it.
    pub fn finish_close(&mut self, table: &mut HandleTable<CliResource>)
        requires
            old(self).status() is Closing,
            old(table).wf(),
        ensures
            final(self).isolate_view() == old(self).isolate_view(),
            final(self).rid() == old(self).rid(),
            final(self).status() is Closed,
            final(table).wf(),
            final(table).next_handle() == old(table).next_handle(),
            !final(table).has_rid(old(self).rid()),
            forall|r2: u32|
                r2 != old(self).rid() ==> #[trigger] final(table).has_rid(r2) == old(table).has_rid(r2),
    {
        self.status = WorkerStatus::Closed;
        let _ = table.close(self.resource_rid);
    }
}

/// The bootstrap sources a freshly spawned worker must execute, in order:
/// the runtime entry for the given debug name, then the worker main loop.
pub fn bootstrap_sources(worker_debug_name: &str) -> (r: (String, String))
    ensures
        r.0@ == "denoMain('"@ + worker_debug_name@ + "')"@,
        r.1@ == "workerMain()"@,
{
    let head: String = "denoMain('".to_owned();
    let with_name = head.concat(worker_debug_name);
    let first = with_name.concat("')");
    let second: String = "workerMain()".to_owned();
    (first, second)
}

/// Spawns a worker: registers it in the parent's table, records the outcome
/// of its bootstrap, and hands it back running when bootstrap and
/// initialization both succeeded. The embedder executes the bootstrap
/// sources and the initialization script or module on the worker's isolate
/// and reports their outcomes here; a bootstrap or initialization fault
/// yields the error, with the worker left closing.
pub fn spawn<B: WorkerBehavior>(
    behavior: B,
    table: &mut HandleTable<CliResource>,
    bootstrap_result: Result<(), JsError>,
    init_result: Result<(), JsError>,
) -> (r: Result<Worker<B>, RustOrJsError>)
    requires
        old(table).wf(),
        old(table).next_handle() < u32::MAX,
    ensures
        final(table).wf(),
        final(table).has_rid(old(table).next_handle()),
        final(table).kind_of(old(table).next_handle()) == "worker"@,
        is_worker(*final(table), old(table).next_handle()),
        worker_channels_wf(*final(table), old(table).next_handle()),
        channels_of(*final(table), old(table).next_handle()).to_worker.messages() == Seq::<
            Vec<u8>,
        >::empty(),
        channels_of(*final(table), old(table).next_handle()).from_worker.messages() == Seq::<
            Vec<u8>,
        >::empty(),
        !channels_of(*final(table), old(table).next_handle()).to_worker.is_closed(),
        !channels_of(*final(table), old(table).next_handle()).from_worker.is_closed(),
        channels_of(*final(table), old(table).next_handle()).to_worker.bound() == 1,
        channels_of(*final(table), old(table).next_handle()).from_worker.bound() == 1,
        final(table).next_handle() == old(table).next_handle() + 1,
        forall|r2: u32|
            r2 != old(table).next_handle() ==> #[trigger] final(table).has_rid(r2) == old(
                table,
            ).has_rid(r2),
        (r is Ok) == (bootstrap_result is Ok && init_result is Ok),
        r is Ok ==> (r->Ok_0).status() is Running && (r->Ok_0).rid() == old(table).next_handle(),
        bootstrap_result is Err ==> r == Result::<Worker<B>, RustOrJsError>::Err(
            RustOrJsError::Js(bootstrap_result->Err_0),
        ),
        bootstrap_result is Ok && init_result is Err ==> r == Result::<Worker<B>, RustOrJsError>::Err(
            RustOrJsError::Js(init_result->Err_0),
        ),
        r is Err ==> r->Err_0 is Js,
{
    let mut worker = Worker::new(behavior, table);
    match worker.notify_bootstrap(bootstrap_result) {
        Err(e) => {
            return Err(RustOrJsError::Js(e));
        },
        Ok(_) => {
        },
    }
    match init_result {
        Ok(_) => Ok(worker),
        Err(e) => {
            worker.request_close();
            Err(RustOrJsError::Js(e))
        },
    }
}

/// Registers the ops a worker's own script uses: posting a message to the
/// parent and closing down.
pub fn init(table: &mut crate::registry::CallTable)
    requires
        old(table).registered().len() + 2 < u32::MAX,
    ensures
        final(table).registered().contains("op_worker_post_message"@),
        final(table).registered().contains("op_worker_close"@),
{
    let p = table.register_op("op_worker_post_message");
    let c = table.register_op("op_worker_close");
    proof {
        assert(table.registered()[p as int] == "op_worker_post_message"@);
        assert(table.registered()[c as int] == "op_worker_close"@);
        assert(table.registered().contains("op_worker_post_message"@));
        assert(table.registered().contains("op_worker_close"@));
    }
}

/// Whether `rid` names a live worker resource in the table.
pub open spec fn is_worker(table: HandleTable<CliResource>, rid: u32) -> bool {
    table.has_rid(rid) && table.res_of(rid) is Worker
}

/// The channels of the worker under `rid`; meaningful when `is_worker`.
pub open spec fn channels_of(table: HandleTable<CliResource>, rid: u32) -> WorkerChannels {
    match table.res_of(rid) {
        CliResource::Worker(ch) => ch,
        _ => vstd::pervasive::arbitrary(),
    }
}

/// Whether the worker entry under `rid`, if any, holds consistent channels.
pub open spec fn worker_channels_wf(table: HandleTable<CliResource>, rid: u32) -> bool {
    is_worker(table, rid) ==> channels_of(table, rid).wf()
}

/// What every worker-channel operation leaves untouched: the set of live
/// handles, every other entry, and the handle counter.
pub open spec fn channel_op_frame(
    pre: HandleTable<CliResource>,
    post: HandleTable<CliResource>,
    rid: u32,
) -> bool {
    &&& post.wf()
    &&& post.next_handle() == pre.next_handle()
    &&& forall|r2: u32| #[trigger] post.has_rid(r2) == pre.has_rid(r2)
    &&& forall|r2: u32|
        r2 != rid && pre.has_rid(r2) ==> #[trigger] post.res_of(r2) == pre.res_of(r2)
    &&& (pre.has_rid(rid) ==> post.kind_of(rid) == pre.kind_of(rid))
}

proof fn lemma_channel_update<R>(pre: HandleTable<R>, post: HandleTable<R>, rid: u32)
    requires
        pre.wf(),
        pre.has_rid(rid),
        post.next_handle() == pre.next_handle(),
        post.entries_seq() == pre.entries_seq().update(
            pre.idx_of(rid),
            (rid, pre.entries_seq()[pre.idx_of(rid)].1, post.entries_seq()[pre.idx_of(rid)].2),
        ),
    ensures
        post.wf(),
        post.has_rid(rid),
        post.res_of(rid) == post.entries_seq()[pre.idx_of(rid)].2,
        post.kind_of(rid) == pre.kind_of(rid),
        forall|r2: u32| #[trigger] post.has_rid(r2) == pre.has_rid(r2),
        forall|r2: u32|
            r2 != rid && pre.has_rid(r2) ==> #[trigger] post.res_of(r2) == pre.res_of(r2),
{
    HandleTable::<R>::lemma_after_update(
        pre,
        post,
        rid,
        post.entries_seq()[pre.idx_of(rid)].2,
    );
}

/// Posts a message toward the worker addressed by `rid` in the parent's
/// table; refused for a handle that does not name a worker, and
/// backpressured when the bounded channel toward the worker is full.
pub fn post_message_to_worker(
    table: &mut HandleTable<CliResource>,
    rid: u32,
    msg: Buf,
) -> (r: Result<(), ChannelError>)
    requires
        old(table).wf(),
        worker_channels_wf(*old(table), rid),
    ensures
        channel_op_frame(*old(table), *final(table), rid),
        worker_channels_wf(*final(table), rid),
        !is_worker(*old(table), rid) ==> r == Result::<(), ChannelError>::Err(
            ChannelError::BadResource,
        ) && final(table).entries_seq() == old(table).entries_seq(),
        is_worker(*old(table), rid) ==> {
            let ch = channels_of(*old(table), rid);
            &&& is_worker(*final(table), rid)
            &&& channels_of(*final(table), rid).from_worker == ch.from_worker
            &&& channels_of(*final(table), rid).to_worker.bound() == ch.to_worker.bound()
            &&& channels_of(*final(table), rid).to_worker.is_closed() == ch.to_worker.is_closed()
            &&& (ch.to_worker.is_closed() ==> r == Result::<(), ChannelError>::Err(
                ChannelError::Closed,
            ) && channels_of(*final(table), rid).to_worker.messages()
                == ch.to_worker.messages())
            &&& (!ch.to_worker.is_closed() && ch.to_worker.messages().len()
                >= ch.to_worker.bound() ==> r == Result::<(), ChannelError>::Err(
                ChannelError::Full,
            ) && channels_of(*final(table), rid).to_worker.messages()
                == ch.to_worker.messages())
            &&& (!ch.to_worker.is_closed() && ch.to_worker.messages().len()
                < ch.to_worker.bound() ==> r == Result::<(), ChannelError>::Ok(()) && channels_of(
                *final(table),
                rid,
            ).to_worker.messages() == ch.to_worker.messages().push(msg))
        },
{
    if !table.has(rid) {
        return Err(ChannelError::BadResource);
    }
    let res = table.get_mut(rid);
    let out: Result<(), ChannelError>;
    match res {
        CliResource::Worker(ch) => {
            out = ch.to_worker.post(msg);
        },
        _ => {
            out = Err(ChannelError::BadResource);
        },
    }
    proof {
        let pre = *old(table);
        let i = pre.idx_of(rid);
        lemma_channel_update::<CliResource>(pre, *table, rid);
        if !(pre.res_of(rid) is Worker) {
            assert(table.entries_seq() =~= pre.entries_seq());
        }
    }
    out
}

/// Receives a message sent by the worker addressed by `rid`, or nothing
/// when none is queued; refused for a handle that does not name a worker.
pub fn get_message_from_worker(
    table: &mut HandleTable<CliResource>,
    rid: u32,
) -> (r: Result<Option<Buf>, ChannelError>)
    requires
        old(table).wf(),
        worker_channels_wf(*old(table), rid),
    ensures
        channel_op_frame(*old(table), *final(table), rid),
        worker_channels_wf(*final(table), rid),
        !is_worker(*old(table), rid) ==> r == Result::<Option<Buf>, ChannelError>::Err(
            ChannelError::BadResource,
        ) && final(table).entries_seq() == old(table).entries_seq(),
        is_worker(*old(table), rid) ==> {
            let ch = channels_of(*old(table), rid);
            &&& is_worker(*final(table), rid)
            &&& channels_of(*final(table), rid).to_worker == ch.to_worker
            &&& channels_of(*final(table), rid).from_worker.bound() == ch.from_worker.bound()
            &&& channels_of(*final(table), rid).from_worker.is_closed()
                == ch.from_worker.is_closed()
            &&& (ch.from_worker.messages().len() == 0 ==> r == Result::<
                Option<Buf>,
                ChannelError,
            >::Ok(None) && channels_of(*final(table), rid).from_worker.messages()
                == ch.from_worker.messages())
            &&& (ch.from_worker.messages().len() > 0 ==> r == Result::<
                Option<Buf>,
                ChannelError,
            >::Ok(Some(ch.from_worker.messages()[0])) && channels_of(
                *final(table),
                rid,
            ).from_worker.messages() == ch.from_worker.messages().drop_first())
        },
{
    if !table.has(rid) {
        return Err(ChannelError::BadResource);
    }
    let res = table.get_mut(rid);
    let out: Result<Option<Buf>, ChannelError>;
    match res {
        CliResource::Worker(ch) => {
            out = Ok(ch.from_worker.take());
        },
        _ => {
            out = Err(ChannelError::BadResource);
        },
    }
    proof {
        let pre = *old(table);
        lemma_channel_update::<CliResource>(pre, *table, rid);
        if !(pre.res_of(rid) is Worker) {
            assert(table.entries_seq() =~= pre.entries_seq());
        }
    }
    out
}

/// Receives, on the worker's side, a message its parent posted, or nothing
/// when none is queued; refused for a handle that does not name a worker.
pub fn worker_recv_message(
    table: &mut HandleTable<CliResource>,
    rid: u32,
) -> (r: Result<Option<Buf>, ChannelError>)
    requires
        old(table).wf(),
        worker_channels_wf(*old(table), rid),
    ensures
        channel_op_frame(*old(table), *final(table), rid),
        worker_channels_wf(*final(table), rid),
        !is_worker(*old(table), rid) ==> r == Result::<Option<Buf>, ChannelError>::Err(
            ChannelError::BadResource,
        ) && final(table).entries_seq() == old(table).entries_seq(),
        is_worker(*old(table), rid) ==> {
            let ch = channels_of(*old(table), rid);
            &&& is_worker(*final(table), rid)
            &&& channels_of(*final(table), rid).from_worker == ch.from_worker
            &&& channels_of(*final(table), rid).to_worker.bound() == ch.to_worker.bound()
            &&& channels_of(*final(table), rid).to_worker.is_closed()
                == ch.to_worker.is_closed()
            &&& (ch.to_worker.messages().len() == 0 ==> r == Result::<
                Option<Buf>,
                ChannelError,
            >::Ok(None) && channels_of(*final(table), rid).to_worker.messages()
                == ch.to_worker.messages())
            &&& (ch.to_worker.messages().len() > 0 ==> r == Result::<
                Option<Buf>,
                ChannelError,
            >::Ok(Some(ch.to_worker.messages()[0])) && channels_of(
                *final(table),
                rid,
            ).to_worker.messages() == ch.to_worker.messages().drop_first())
        },
{
    if !table.has(rid) {
        return Err(ChannelError::BadResource);
    }
    let res = table.get_mut(rid);
    let out: Result<Option<Buf>, ChannelError>;
    match res {
        CliResource::Worker(ch) => {
            out = Ok(ch.to_worker.take());
        },
        _ => {
            out = Err(ChannelError::BadResource);
        },
    }
    proof {
        let pre = *old(table);
        lemma_channel_update::<CliResource>(pre, *table, rid);
        if !(pre.res_of(rid) is Worker) {
            assert(table.entries_seq() =~= pre.entries_seq());
        }
    }
    out
}

/// Posts a message from the worker addressed by `rid` toward its parent;
/// refused for a handle that does not name a worker, and backpressured when
/// the bounded channel toward the parent is full.
pub fn op_worker_post_message(
    table: &mut HandleTable<CliResource>,
    rid: u32,
    data: Buf,
) -> (r: Result<(), ChannelError>)
    requires
        old(table).wf(),
        worker_channels_wf(*old(table), rid),
    ensures
        channel_op_frame(*old(table), *final(table), rid),
        worker_channels_wf(*final(table), rid),
        !is_worker(*old(table), rid) ==> r == Result::<(), ChannelError>::Err(
            ChannelError::BadResource,
        ) && final(table).entries_seq() == old(table).entries_seq(),
        is_worker(*old(table), rid) ==> {
            let ch = channels_of(*old(table), rid);
            &&& is_worker(*final(table), rid)
            &&& channels_of(*final(table), rid).to_worker == ch.to_worker
            &&& channels_of(*final(table), rid).from_worker.bound() == ch.from_worker.bound()
            &&& channels_of(*final(table), rid).from_worker.is_closed()
                == ch.from_worker.is_closed()
            &&& (ch.from_worker.is_closed() ==> r == Result::<(), ChannelError>::Err(
                ChannelError::Closed,
            ) && channels_of(*final(table), rid).from_worker.messages()
                == ch.from_worker.messages())
            &&& (!ch.from_worker.is_closed() && ch.from_worker.messages().len()
                >= ch.from_worker.bound() ==> r == Result::<(), ChannelError>::Err(
                ChannelError::Full,
            ) && channels_of(*final(table), rid).from_worker.messages()
                == ch.from_worker.messages())
            &&& (!ch.from_worker.is_closed() && ch.from_worker.messages().len()
                < ch.from_worker.bound() ==> r == Result::<(), ChannelError>::Ok(())
                && channels_of(*final(table), rid).from_worker.messages()
                == ch.from_worker.messages().push(data))
        },
{
    if !table.has(rid) {
        return Err(ChannelError::BadResource);
    }
    let res = table.get_mut(rid);
    let out: Result<(), ChannelError>;
    match res {
        CliResource::Worker(ch) => {
            out = ch.from_worker.post(data);
        },
        _ => {
            out = Err(ChannelError::BadResource);
        },
    }
    proof {
        let pre = *old(table);
        lemma_channel_update::<CliResource>(pre, *table, rid);
        if !(pre.res_of(rid) is Worker) {
            assert(table.entries_seq() =~= pre.entries_seq());
        }
    }
    out
}

/// Closes, from the worker's side, both channel halves for further sends,
/// so that neither side can post again; messages already queued stay
/// receivable. The engine-side terminate that accompanies a close is the
/// embedder's to perform.
pub fn op_worker_close(table: &mut HandleTable<CliResource>, rid: u32) -> (r: Result<
    (),
    ChannelError,
>)
    requires
        old(table).wf(),
        worker_channels_wf(*old(table), rid),
    ensures
        channel_op_frame(*old(table), *final(table), rid),
        worker_channels_wf(*final(table), rid),
        !is_worker(*old(table), rid) ==> r == Result::<(), ChannelError>::Err(
            ChannelError::BadResource,
        ) && final(table).entries_seq() == old(table).entries_seq(),
        is_worker(*old(table), rid) ==> {
            let ch = channels_of(*old(table), rid);
            &&& r == Result::<(), ChannelError>::Ok(())
            &&& is_worker(*final(table), rid)
            &&& channels_of(*final(table), rid).to_worker.is_closed()
            &&& channels_of(*final(table), rid).from_worker.is_closed()
            &&& channels_of(*final(table), rid).to_worker.messages()
                == ch.to_worker.messages()
            &&& channels_of(*final(table), rid).from_worker.messages()
                == ch.from_worker.messages()
            &&& channels_of(*final(table), rid).to_worker.bound() == ch.to_worker.bound()
            &&& channels_of(*final(table), rid).from_worker.bound() == ch.from_worker.bound()
        },
{
    if !table.has(rid) {
        return Err(ChannelError::BadResource);
    }
    let res = table.get_mut(rid);
    let out: Result<(), ChannelError>;
    match res {
        CliResource::Worker(ch) => {
            ch.to_worker.close();
            ch.from_worker.close();
            out = Ok(());
        },
        _ => {
            out = Err(ChannelError::BadResource);
        },
    }
    proof {
        let pre = *old(table);
        lemma_channel_update::<CliResource>(pre, *table, rid);
        if !(pre.res_of(rid) is Worker) {
            assert(table.entries_seq() =~= pre.entries_seq());
        }
    }
    out
}

} // verus!
