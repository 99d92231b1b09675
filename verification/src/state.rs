//! Per-context process state: the permission policy, the owned resource
//! table, the registered op table, op metrics, and the checkpoint calls
//! that ops consult before acting.

use crate::errors::CoreError;
use crate::handles::HandleTable;
use crate::permissions::Permissions;
use crate::permissions::parse_url;
use crate::permissions::url_parts_of;
use crate::permissions::UrlParts;
use crate::registry::CallTable;
use crate::resources::CliResource;
use crate::resources::new_resource_table;
use vstd::prelude::*;

verus! {

/// Which library profile a context compiles against.
#[derive(Clone, Copy, Debug, PartialEq, Eq, Structural)]
pub enum TargetLib {
    Main,
    Worker,
}

/// Saturating tallies of dispatched ops and bytes moved across the
/// boundary.
#[derive(Clone, Copy, Debug, PartialEq, Eq, Structural)]
pub struct Metrics {
    pub ops_dispatched: u64,
    pub ops_completed: u64,
    pub bytes_sent_control: u64,
    pub bytes_sent_data: u64,
    pub bytes_received: u64,
}

/// `a + b`, clipped to the largest tally.
pub open spec fn sat_add(a: int, b: int) -> int {
    if a + b <= u64::MAX {
        a + b
    } else {
        u64::MAX as int
    }
}

impl Metrics {
    /// Fresh zero tallies.
    pub fn new() -> (m: Metrics)
        ensures
            m == (Metrics {
                ops_dispatched: 0,
                ops_completed: 0,
                bytes_sent_control: 0,
                bytes_sent_data: 0,
                bytes_received: 0,
            }),
    {
        Metrics {
            ops_dispatched: 0,
            ops_completed: 0,
            bytes_sent_control: 0,
            bytes_sent_data: 0,
            bytes_received: 0,
        }
    }

    /// Accounts one synchronous op: dispatched and completed in the same
    /// invocation, with its request and response bytes.
    pub fn op_sync(&mut self, bytes_sent_control: u64, bytes_sent_data: u64, bytes_received: u64)
        ensures
            final(self).ops_dispatched == sat_add(old(self).ops_dispatched as int, 1),
            final(self).ops_completed == sat_add(old(self).ops_completed as int, 1),
            final(self).bytes_sent_control == sat_add(
                old(self).bytes_sent_control as int,
                bytes_sent_control as int,
            ),
            final(self).bytes_sent_data == sat_add(
                old(self).bytes_sent_data as int,
                bytes_sent_data as int,
            ),
            final(self).bytes_received == sat_add(
                old(self).bytes_received as int,
                bytes_received as int,
            ),
    {
        self.ops_dispatched = self.ops_dispatched.saturating_add(1);
        self.ops_completed = self.ops_completed.saturating_add(1);
        self.bytes_sent_control = self.bytes_sent_control.saturating_add(bytes_sent_control);
        self.bytes_sent_data = self.bytes_sent_data.saturating_add(bytes_sent_data);
        self.bytes_received = self.bytes_received.saturating_add(bytes_received);
    }

    /// Accounts the dispatch of an asynchronous op, with its request bytes.
    pub fn op_dispatched_async(&mut self, bytes_sent_control: u64, bytes_sent_data: u64)
        ensures
            final(self).ops_dispatched == sat_add(old(self).ops_dispatched as int, 1),
            final(self).ops_completed == old(self).ops_completed,
            final(self).bytes_sent_control == sat_add(
                old(self).bytes_sent_control as int,
                bytes_sent_control as int,
            ),
            final(self).bytes_sent_data == sat_add(
                old(self).bytes_sent_data as int,
                bytes_sent_data as int,
            ),
            final(self).bytes_received == old(self).bytes_received,
    {
        self.ops_dispatched = self.ops_dispatched.saturating_add(1);
        self.bytes_sent_control = self.bytes_sent_control.saturating_add(bytes_sent_control);
        self.bytes_sent_data = self.bytes_sent_data.saturating_add(bytes_sent_data);
    }

    /// Accounts the completion of an asynchronous op, with its response
    /// bytes.
    pub fn op_completed_async(&mut self, bytes_received: u64)
        ensures
            final(self).ops_dispatched == old(self).ops_dispatched,
            final(self).ops_completed == sat_add(old(self).ops_completed as int, 1),
            final(self).bytes_sent_control == old(self).bytes_sent_control,
            final(self).bytes_sent_data == old(self).bytes_sent_data,
            final(self).bytes_received == sat_add(
                old(self).bytes_received as int,
                bytes_received as int,
            ),
    {
        self.ops_completed = self.ops_completed.saturating_add(1);
        self.bytes_received = self.bytes_received.saturating_add(bytes_received);
    }
}

/// The byte tally of a sequence of buffers, each clipped addition
/// saturating at the largest tally.
pub open spec fn sat_len_sum(bufs: Seq<Vec<u8>>) -> int
    decreases bufs.len(),
{
    if bufs.len() == 0 {
        0
    } else {
        sat_add(sat_len_sum(bufs.drop_last()), bufs.last()@.len() as int)
    }
}

/// The accounting an op dispatch records before routing its buffers: the
/// length of the first buffer, which carries the control message, and the
/// tally of the remaining attached buffers.
pub fn dispatch_accounting(bufs: &Vec<Vec<u8>>) -> (r: (u64, u64))
    ensures
        bufs@.len() == 0 ==> r.0 == 0 && r.1 == 0,
        bufs@.len() > 0 ==> r.0 == sat_add(0, bufs@[0]@.len() as int) && r.1 == sat_len_sum(
            bufs@.skip(1),
        ),
{
    let n = bufs.len();
    if n == 0 {
        return (0, 0);
    }
    let control: u64 = (0u64).saturating_add(bufs[0].len() as u64);
    let mut total: u64 = 0;
    let mut i: usize = 1;
    proof {
        assert(bufs@.skip(1).take(0) =~= Seq::<Vec<u8>>::empty());
    }
    while i < n
        invariant
            n == bufs@.len(),
            n > 0,
            1 <= i <= n,
            total == sat_len_sum(bufs@.skip(1).take(i - 1)),
        decreases n - i,
    {
        total = total.saturating_add(bufs[i].len() as u64);
        proof {
            let pre = bufs@.skip(1).take(i - 1);
            let now = bufs@.skip(1).take(i as int);
            assert(now.drop_last() =~= pre);
            assert(now.last() == bufs@[i as int]);
        }
        i = i + 1;
    }
    proof {
        if n > 0 {
            assert(bufs@.skip(1).take(n - 1) =~= bufs@.skip(1));
        }
    }
    (control, total)
}

/// The state one execution context carries: its permission policy, its
/// owned resource table, its registered ops, its metrics, and bookkeeping
/// for the workers it spawns.
pub struct State {
    pub main_module: String,
    pub permissions: Permissions,
    pub resource_table: HandleTable<CliResource>,
    pub op_dispatchers: CallTable,
    pub metrics: Metrics,
    pub next_worker_id: u32,
    pub seeded_rng: Option<u64>,
    pub target_lib: TargetLib,
    pub is_main: bool,
    pub is_internal: bool,
}

impl State {
    /// The resource table and op table are consistent.
    pub open spec fn wf(self) -> bool {
        self.resource_table.wf()
    }

    /// State for the main context of a process: it owns a resource table
    /// preloaded with the standard streams, an empty op table, and the
    /// given policy; a seed, when given, makes the context's random numbers
    /// reproducible.
    pub fn new(
        main_module: String,
        permissions: Permissions,
        seed: Option<u64>,
        is_internal: bool,
    ) -> (s: State)
        ensures
            s.wf(),
            s.main_module == main_module,
            s.permissions == permissions,
            s.seeded_rng == seed,
            s.is_main,
            !s.is_internal ==> !is_internal,
            s.is_internal == is_internal,
            s.target_lib is Main,
            s.next_worker_id == 0,
            s.op_dispatchers.registered() == Seq::<Seq<char>>::empty(),
            s.resource_table.next_handle() == 3,
            s.resource_table.has_rid(0) && s.resource_table.has_rid(1) && s.resource_table.has_rid(
                2,
            ),
            s.metrics.ops_dispatched == 0 && s.metrics.bytes_received == 0,
    {
        State {
            main_module,
            permissions,
            resource_table: new_resource_table(),
            op_dispatchers: CallTable::new(),
            metrics: Metrics::new(),
            next_worker_id: 0,
            seeded_rng: seed,
            target_lib: TargetLib::Main,
            is_main: true,
            is_internal,
        }
    }

    /// State for a worker context: as for the main context, but compiled
    /// against the worker profile and never the main context of its
    /// process.
    pub fn new_for_worker(main_module: String, permissions: Permissions, seed: Option<u64>) -> (s:
        State)
        ensures
            s.wf(),
            s.main_module == main_module,
            s.permissions == permissions,
            s.seeded_rng == seed,
            !s.is_main,
            !s.is_internal,
            s.target_lib is Worker,
            s.next_worker_id == 0,
            s.op_dispatchers.registered() == Seq::<Seq<char>>::empty(),
            s.resource_table.next_handle() == 3,
            s.metrics.ops_dispatched == 0 && s.metrics.bytes_received == 0,
    {
        State {
            main_module,
            permissions,
            resource_table: new_resource_table(),
            op_dispatchers: CallTable::new(),
            metrics: Metrics::new(),
            next_worker_id: 0,
            seeded_rng: seed,
            target_lib: TargetLib::Worker,
            is_main: false,
            is_internal: false,
        }
    }

    /// Registers an op and hands back its stable id.
    pub fn register_op(&mut self, name: &str) -> (op_id: u32)
        requires
            old(self).op_dispatchers.registered().len() < u32::MAX,
        ensures
            final(self).op_dispatchers.registered()[op_id as int] == name@,
            op_id < final(self).op_dispatchers.registered().len(),
            !old(self).op_dispatchers.registered().contains(name@) ==> final(self).op_dispatchers.registered() == old(self).op_dispatchers.registered().push(name@)
                && op_id == old(self).op_dispatchers.registered().len(),
            old(self).op_dispatchers.registered().contains(name@) ==> final(self).op_dispatchers.registered() == old(self).op_dispatchers.registered(),
            final(self).resource_table == old(self).resource_table,
            final(self).permissions == old(self).permissions,
    {
        self.op_dispatchers.register_op(name)
    }

    /// Resolves an op id back to the name it was registered under; the
    /// embedder routes the call to that op's handler.
    pub fn dispatch_op_name(&self, op_id: u32) -> (r: Option<&String>)
        ensures
            (r is Some) <==> op_id < self.op_dispatchers.registered().len(),
            r is Some ==> (r->Some_0)@ == self.op_dispatchers.registered()[op_id as int],
    {
        self.op_dispatchers.op_name(op_id)
    }

    /// Checks a file read against the policy.
    pub fn check_read(&self, path: &str) -> (r: Result<(), CoreError>)
        ensures
            (r is Ok) <==> self.permissions.read_allowed(path@),
            r is Err ==> r->Err_0 == CoreError::PermissionDenied,
    {
        self.permissions.check_read(path)
    }

    /// As a read check, but error reporting elsewhere names `display`
    /// rather than the path itself.
    pub fn check_read_blind(&self, path: &str, display: &str) -> (r: Result<(), CoreError>)
        ensures
            (r is Ok) <==> self.permissions.read_allowed(path@),
            r is Err ==> r->Err_0 == CoreError::PermissionDenied,
    {
        self.permissions.check_read(path)
    }

    /// Checks a file write against the policy.
    pub fn check_write(&self, path: &str) -> (r: Result<(), CoreError>)
        ensures
            (r is Ok) <==> self.permissions.write_allowed(path@),
            r is Err ==> r->Err_0 == CoreError::PermissionDenied,
    {
        self.permissions.check_write(path)
    }

    /// Checks access to the environment against the policy.
    pub fn check_env(&self) -> (r: Result<(), CoreError>)
        ensures
            (r is Ok) <==> self.permissions.allow_env,
            r is Err ==> r->Err_0 == CoreError::PermissionDenied,
    {
        self.permissions.check_env()
    }

    /// Checks a network target against the policy.
    pub fn check_net(&self, hostname: &str, port: u16) -> (r: Result<(), CoreError>)
        ensures
            (r is Ok) <==> self.permissions.net_allowed(hostname@, port),
            r is Err ==> r->Err_0 == CoreError::PermissionDenied,
    {
        self.permissions.check_net(hostname, port)
    }

    /// Checks a network target given as a parsed locator.
    pub fn check_net_url(&self, u: &UrlParts) -> (r: Result<(), CoreError>)
        ensures
            (r is Ok) == (match Permissions::effective_port_spec(*u) {
                Option::Some(p) => self.permissions.net_allowed(u.host@, p),
                Option::None => false,
            }),
            r is Err ==> r->Err_0 == CoreError::PermissionDenied,
    {
        self.permissions.check_net_url(u)
    }

    /// Checks spawning a subprocess against the policy.
    pub fn check_run(&self) -> (r: Result<(), CoreError>)
        ensures
            (r is Ok) <==> self.permissions.allow_run,
            r is Err ==> r->Err_0 == CoreError::PermissionDenied,
    {
        self.permissions.check_run()
    }

    /// Checks access to high-resolution time against the policy.
    pub fn check_hrtime(&self) -> (r: Result<(), CoreError>)
        ensures
            (r is Ok) <==> self.permissions.allow_hrtime,
            r is Err ==> r->Err_0 == CoreError::PermissionDenied,
    {
        self.permissions.check_hrtime()
    }

    /// Checks loading a native extension against the policy.
    pub fn check_plugin(&self) -> (r: Result<(), CoreError>)
        ensures
            (r is Ok) <==> self.permissions.allow_plugin,
            r is Err ==> r->Err_0 == CoreError::PermissionDenied,
    {
        self.permissions.check_plugin()
    }

    /// Checks a dynamic import: a web locator is held to the network
    /// policy, a file locator to the read policy, and any other scheme is
    /// refused outright.
    pub fn check_dyn_import(&self, u: &UrlParts) -> (r: Result<(), CoreError>)
        ensures
            u.scheme@ == "http"@ || u.scheme@ == "https"@ ==> (r is Ok) == (
            match Permissions::effective_port_spec(*u) {
                Option::Some(p) => self.permissions.net_allowed(u.host@, p),
                Option::None => false,
            }),
            u.scheme@ == "file"@ ==> ((r is Ok) <==> self.permissions.read_allowed(u.path@)),
            u.scheme@ != "http"@ && u.scheme@ != "https"@ && u.scheme@ != "file"@ ==> r is Err,
            r is Err ==> r->Err_0 == CoreError::PermissionDenied,
    {
        proof {
            reveal_strlit("http");
            reveal_strlit("https");
            reveal_strlit("file");
            assert("file"@[0] != "http"@[0]);
            assert("file"@ != "http"@);
            assert("file"@.len() != "https"@.len());
            assert("file"@ != "https"@);
        }
        let http: String = "http".to_owned();
        let https: String = "https".to_owned();
        let file: String = "file".to_owned();
        if u.scheme == http || u.scheme == https {
            self.check_net_url(u)
        } else if u.scheme == file {
            self.check_read(u.path.as_str())
        } else {
            Err(CoreError::PermissionDenied)
        }
    }

    /// Checks a dynamic import given as locator text: the text is parsed,
    /// an invalid locator is refused, and a valid one is held to the
    /// dynamic-import policy for its scheme.
    pub fn check_dyn_import_specifier(&self, specifier: &str) -> (r: Result<(), CoreError>)
        ensures
            url_parts_of(specifier@) is None ==> r == Result::<(), CoreError>::Err(
                CoreError::PermissionDenied,
            ),
            url_parts_of(specifier@) is Some ==> {
                let parts = url_parts_of(specifier@)->Some_0;
                &&& (parts.0 == "http"@ || parts.0 == "https"@ ==> ((r is Ok) == (
                match parts.2 {
                    Option::Some(p) => self.permissions.net_allowed(parts.1, p),
                    Option::None => {
                        if parts.0 == "http"@ {
                            self.permissions.net_allowed(parts.1, 80)
                        } else {
                            self.permissions.net_allowed(parts.1, 443)
                        }
                    },
                })))
                &&& (parts.0 == "file"@ ==> ((r is Ok) <==> self.permissions.read_allowed(
                    parts.3,
                )))
                &&& (parts.0 != "http"@ && parts.0 != "https"@ && parts.0 != "file"@ ==> r
                    == Result::<(), CoreError>::Err(CoreError::PermissionDenied))
            },
            r is Err ==> r->Err_0 == CoreError::PermissionDenied,
    {
        match parse_url(specifier) {
            Option::Some(u) => self.check_dyn_import(&u),
            Option::None => Err(CoreError::PermissionDenied),
        }
    }
}

} // verus!
