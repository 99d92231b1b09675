//! Network call handlers, reduced to what the dispatch core decides: the
//! permission checkpoint before any connection attempt, the type-checked
//! lookup of listener and stream handles, and the registration of accepted
//! or dialed streams. Binding, connecting and polling sockets is the
//! embedder's work, authorized by the decisions here.

use crate::errors::CoreError;
use crate::handles::HandleTable;
use crate::permissions::Permissions;
use crate::resources::CliResource;
use crate::resources::add_tcp_listener;
use crate::resources::add_tcp_stream;
use crate::registry::CallTable;
use vstd::prelude::*;

verus! {

/// Registers the network ops: accept, dial, shutdown and listen, in that
/// order.
pub fn init(table: &mut CallTable)
    requires
        old(table).registered().len() + 4 < u32::MAX,
    ensures
        final(table).registered().contains("accept"@),
        final(table).registered().contains("dial"@),
        final(table).registered().contains("shutdown"@),
        final(table).registered().contains("listen"@),
{
    let a = table.register_op("accept");
    let ghost t1 = table.registered();
    let d = table.register_op("dial");
    let ghost t2 = table.registered();
    let s = table.register_op("shutdown");
    let ghost t3 = table.registered();
    let l = table.register_op("listen");
    proof {
        assert(t2[a as int] == "accept"@);
        assert(t3[a as int] == "accept"@ && t3[d as int] == "dial"@);
        assert(table.registered()[a as int] == "accept"@);
        assert(table.registered()[d as int] == "dial"@);
        assert(table.registered()[s as int] == "shutdown"@);
        assert(table.registered()[l as int] == "listen"@);
        assert(table.registered().contains("accept"@));
        assert(table.registered().contains("dial"@));
        assert(table.registered().contains("shutdown"@));
        assert(table.registered().contains("listen"@));
    }
}

/// Which half of a stream a shutdown call closes.
#[derive(Clone, Copy, Debug, PartialEq, Eq, Structural)]
pub enum ShutdownMode {
    Read,
    Write,
}

/// Decides a dial request: the permission checkpoint runs before any
/// connection attempt, and a denial short-circuits the call with a typed
/// error, no handle registered and no connection attempted. Success
/// authorizes the embedder to connect and then register the stream.
pub fn op_dial(perms: &Permissions, transport: &str, hostname: &str, port: u16) -> (r: Result<
    (),
    CoreError,
>)
    requires
        transport@ == "tcp"@,
    ensures
        (r is Ok) <==> perms.net_allowed(hostname@, port),
        r is Err ==> r->Err_0 == CoreError::PermissionDenied,
{
    perms.check_net(hostname, port)
}

/// Decides a listen request: the permission checkpoint runs before any
/// socket is bound. Success authorizes the embedder to bind and then
/// register the listener.
pub fn op_listen(perms: &Permissions, transport: &str, hostname: &str, port: u16) -> (r: Result<
    (),
    CoreError,
>)
    requires
        transport@ == "tcp"@,
    ensures
        (r is Ok) <==> perms.net_allowed(hostname@, port),
        r is Err ==> r->Err_0 == CoreError::PermissionDenied,
{
    perms.check_net(hostname, port)
}

/// Registers a bound listener under a fresh handle; the embedder keys the
/// socket by the returned slot.
pub fn register_tcp_listener(table: &mut HandleTable<CliResource>, listener: u64) -> (rid: u32)
    requires
        old(table).wf(),
        old(table).next_handle() < u32::MAX,
    ensures
        final(table).wf(),
        rid == old(table).next_handle(),
        final(table).has_rid(rid),
        final(table).kind_of(rid) == "tcpListener"@,
        final(table).res_of(rid) == CliResource::TcpListener(listener),
        final(table).next_handle() == old(table).next_handle() + 1,
        forall|r2: u32|
            r2 != rid ==> #[trigger] final(table).has_rid(r2) == old(table).has_rid(r2),
        forall|r2: u32|
            r2 != rid && old(table).has_rid(r2) ==> #[trigger] final(table).res_of(r2) == old(table).res_of(r2),
        forall|r2: u32|
            r2 != rid && old(table).has_rid(r2) ==> #[trigger] final(table).kind_of(r2) == old(table).kind_of(r2),
{
    add_tcp_listener(table, listener)
}

/// Begins an accept: the handle must name a live listener, and a handle
/// that is absent or names another kind of resource fails as a closed
/// listener, never a fault. Success hands back the listener's slot for the
/// embedder to poll.
pub fn op_accept(table: &HandleTable<CliResource>, rid: u32) -> (r: Result<u64, CoreError>)
    requires
        table.wf(),
    ensures
        (r is Ok) <==> (table.has_rid(rid) && table.res_of(rid) is TcpListener),
        r is Ok ==> table.res_of(rid) == CliResource::TcpListener(r->Ok_0),
        r is Err ==> r->Err_0 == CoreError::BadResource,
{
    match table.get(rid) {
        Option::Some(res) => match res {
            CliResource::TcpListener(tok) => Ok(*tok),
            _ => Err(CoreError::BadResource),
        },
        Option::None => Err(CoreError::BadResource),
    }
}

/// Registers a stream the embedder accepted or dialed and answers with its
/// fresh handle.
pub fn register_tcp_stream(table: &mut HandleTable<CliResource>, stream: u64) -> (rid: u32)
    requires
        old(table).wf(),
        old(table).next_handle() < u32::MAX,
    ensures
        final(table).wf(),
        rid == old(table).next_handle(),
        final(table).has_rid(rid),
        final(table).kind_of(rid) == "tcpStream"@,
        final(table).res_of(rid) == CliResource::TcpStream(stream),
        final(table).next_handle() == old(table).next_handle() + 1,
        forall|r2: u32|
            r2 != rid ==> #[trigger] final(table).has_rid(r2) == old(table).has_rid(r2),
        forall|r2: u32|
            r2 != rid && old(table).has_rid(r2) ==> #[trigger] final(table).res_of(r2) == old(table).res_of(r2),
        forall|r2: u32|
            r2 != rid && old(table).has_rid(r2) ==> #[trigger] final(table).kind_of(r2) == old(table).kind_of(r2),
{
    add_tcp_stream(table, stream)
}

/// Decides a shutdown request: the handle must name a live TCP stream, and
/// `how` selects the half to close, 0 for the read half and 1 for the
/// write half. Success hands back the stream's slot and the mode for the
/// embedder to apply.
pub fn op_shutdown(table: &HandleTable<CliResource>, rid: u32, how: i32) -> (r: Result<
    (u64, ShutdownMode),
    CoreError,
>)
    requires
        table.wf(),
        how == 0 || how == 1,
    ensures
        (r is Ok) <==> (table.has_rid(rid) && table.res_of(rid) is TcpStream),
        r is Ok ==> table.res_of(rid) == CliResource::TcpStream((r->Ok_0).0),
        r is Ok && how == 0 ==> (r->Ok_0).1 is Read,
        r is Ok && how == 1 ==> (r->Ok_0).1 is Write,
        r is Err ==> r->Err_0 == CoreError::BadResource,
{
    let mode = if how == 0 {
        ShutdownMode::Read
    } else {
        ShutdownMode::Write
    };
    match table.get(rid) {
        Option::Some(res) => match res {
            CliResource::TcpStream(tok) => Ok((*tok, mode)),
            _ => Err(CoreError::BadResource),
        },
        Option::None => Err(CoreError::BadResource),
    }
}

} // verus!
