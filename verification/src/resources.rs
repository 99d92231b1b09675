//! Resources are the integers the privileged side hands out to name native
//! state kept between calls: standard streams, files, sockets, child-process
//! pipes, response bodies and workers. This module gives each native kind
//! its registration into a handle table and the close and introspection
//! calls every handler shares. The native object behind a stream lives with
//! the embedder, which keys it by the same slot number the table records.

use crate::errors::CoreError;
use crate::handles::HandleTable;
use crate::workers::WorkerChannels;
use vstd::prelude::*;

verus! {

/// A native resource registered in the handle table. Stream-shaped
/// resources carry the embedder's slot number for the native object they
/// stand for; a worker carries its message channels.
pub enum CliResource {
    Stdin,
    Stdout,
    Stderr,
    FsFile(u64),
    TcpStream(u64),
    ServerTlsStream(u64),
    ClientTlsStream(u64),
    HttpBody(u64),
    ChildStdin(u64),
    ChildStdout(u64),
    ChildStderr(u64),
    TcpListener(u64),
    Worker(WorkerChannels),
}

/// A table preloaded with the three standard streams, as every fresh
/// process state carries them: handle 0 is stdin, 1 is stdout, 2 is stderr.
pub fn new_resource_table() -> (t: HandleTable<CliResource>)
    ensures
        t.wf(),
        t.next_handle() == 3,
        t.has_rid(0) && t.kind_of(0) == "stdin"@ && t.res_of(0) is Stdin,
        t.has_rid(1) && t.kind_of(1) == "stdout"@ && t.res_of(1) is Stdout,
        t.has_rid(2) && t.kind_of(2) == "stderr"@ && t.res_of(2) is Stderr,
{
    let mut t = HandleTable::<CliResource>::new();
    let _ = t.add("stdin", CliResource::Stdin);
    let _ = t.add("stdout", CliResource::Stdout);
    let _ = t.add("stderr", CliResource::Stderr);
    t
}

/// Registers an open file under a fresh handle.
pub fn add_fs_file(table: &mut HandleTable<CliResource>, fs_file: u64) -> (rid: u32)
    requires
        old(table).wf(),
        old(table).next_handle() < u32::MAX,
    ensures
        final(table).wf(),
        rid == old(table).next_handle(),
        final(table).has_rid(rid),
        final(table).kind_of(rid) == "fsFile"@,
        final(table).res_of(rid) == CliResource::FsFile(fs_file),
        final(table).next_handle() == old(table).next_handle() + 1,
        forall|r2: u32|
            r2 != rid ==> #[trigger] final(table).has_rid(r2) == old(table).has_rid(r2),
        forall|r2: u32|
            r2 != rid && old(table).has_rid(r2) ==> #[trigger] final(table).res_of(r2) == old(table).res_of(r2),
        forall|r2: u32|
            r2 != rid && old(table).has_rid(r2) ==> #[trigger] final(table).kind_of(r2) == old(table).kind_of(r2),
{
    table.add("fsFile", CliResource::FsFile(fs_file))
}

/// Registers an accepted or dialed TCP stream under a fresh handle.
pub fn add_tcp_stream(table: &mut HandleTable<CliResource>, stream: u64) -> (rid: u32)
    requires
        old(table).wf(),
        old(table).next_handle() < u32::MAX,
    ensures
        final(table).wf(),
        rid == old(table).next_handle(),
        final(table).has_rid(rid),
        final(table).kind_of(rid) == "tcpStream"@,
        final(table).res_of(rid) == CliResource::TcpStream(stream),
        final(table).next_handle() == old(table).next_handle() + 1,
        forall|r2: u32|
            r2 != rid ==> #[trigger] final(table).has_rid(r2) == old(table).has_rid(r2),
        forall|r2: u32|
            r2 != rid && old(table).has_rid(r2) ==> #[trigger] final(table).res_of(r2) == old(table).res_of(r2),
        forall|r2: u32|
            r2 != rid && old(table).has_rid(r2) ==> #[trigger] final(table).kind_of(r2) == old(table).kind_of(r2),
{
    table.add("tcpStream", CliResource::TcpStream(stream))
}

/// Registers a client-side TLS stream under a fresh handle.
pub fn add_tls_stream(table: &mut HandleTable<CliResource>, stream: u64) -> (rid: u32)
    requires
        old(table).wf(),
        old(table).next_handle() < u32::MAX,
    ensures
        final(table).wf(),
        rid == old(table).next_handle(),
        final(table).has_rid(rid),
        final(table).kind_of(rid) == "clientTlsStream"@,
        final(table).res_of(rid) == CliResource::ClientTlsStream(stream),
        final(table).next_handle() == old(table).next_handle() + 1,
        forall|r2: u32|
            r2 != rid ==> #[trigger] final(table).has_rid(r2) == old(table).has_rid(r2),
        forall|r2: u32|
            r2 != rid && old(table).has_rid(r2) ==> #[trigger] final(table).res_of(r2) == old(table).res_of(r2),
        forall|r2: u32|
            r2 != rid && old(table).has_rid(r2) ==> #[trigger] final(table).kind_of(r2) == old(table).kind_of(r2),
{
    table.add("clientTlsStream", CliResource::ClientTlsStream(stream))
}

/// Registers a server-side TLS stream under a fresh handle.
pub fn add_server_tls_stream(table: &mut HandleTable<CliResource>, stream: u64) -> (rid: u32)
    requires
        old(table).wf(),
        old(table).next_handle() < u32::MAX,
    ensures
        final(table).wf(),
        rid == old(table).next_handle(),
        final(table).has_rid(rid),
        final(table).kind_of(rid) == "serverTlsStream"@,
        final(table).res_of(rid) == CliResource::ServerTlsStream(stream),
        final(table).next_handle() == old(table).next_handle() + 1,
        forall|r2: u32|
            r2 != rid ==> #[trigger] final(table).has_rid(r2) == old(table).has_rid(r2),
        forall|r2: u32|
            r2 != rid && old(table).has_rid(r2) ==> #[trigger] final(table).res_of(r2) == old(table).res_of(r2),
        forall|r2: u32|
            r2 != rid && old(table).has_rid(r2) ==> #[trigger] final(table).kind_of(r2) == old(table).kind_of(r2),
{
    table.add("serverTlsStream", CliResource::ServerTlsStream(stream))
}

/// Registers the body of an outgoing request's response under a fresh
/// handle.
pub fn add_reqwest_body(table: &mut HandleTable<CliResource>, body: u64) -> (rid: u32)
    requires
        old(table).wf(),
        old(table).next_handle() < u32::MAX,
    ensures
        final(table).wf(),
        rid == old(table).next_handle(),
        final(table).has_rid(rid),
        final(table).kind_of(rid) == "httpBody"@,
        final(table).res_of(rid) == CliResource::HttpBody(body),
        final(table).next_handle() == old(table).next_handle() + 1,
        forall|r2: u32|
            r2 != rid ==> #[trigger] final(table).has_rid(r2) == old(table).has_rid(r2),
        forall|r2: u32|
            r2 != rid && old(table).has_rid(r2) ==> #[trigger] final(table).res_of(r2) == old(table).res_of(r2),
        forall|r2: u32|
            r2 != rid && old(table).has_rid(r2) ==> #[trigger] final(table).kind_of(r2) == old(table).kind_of(r2),
{
    table.add("httpBody", CliResource::HttpBody(body))
}

/// Registers a child process's standard input under a fresh handle.
pub fn add_child_stdin(table: &mut HandleTable<CliResource>, stdin: u64) -> (rid: u32)
    requires
        old(table).wf(),
        old(table).next_handle() < u32::MAX,
    ensures
        final(table).wf(),
        rid == old(table).next_handle(),
        final(table).has_rid(rid),
        final(table).kind_of(rid) == "childStdin"@,
        final(table).res_of(rid) == CliResource::ChildStdin(stdin),
        final(table).next_handle() == old(table).next_handle() + 1,
        forall|r2: u32|
            r2 != rid ==> #[trigger] final(table).has_rid(r2) == old(table).has_rid(r2),
        forall|r2: u32|
            r2 != rid && old(table).has_rid(r2) ==> #[trigger] final(table).res_of(r2) == old(table).res_of(r2),
        forall|r2: u32|
            r2 != rid && old(table).has_rid(r2) ==> #[trigger] final(table).kind_of(r2) == old(table).kind_of(r2),
{
    table.add("childStdin", CliResource::ChildStdin(stdin))
}

/// Registers a child process's standard output under a fresh handle.
pub fn add_child_stdout(table: &mut HandleTable<CliResource>, stdout: u64) -> (rid: u32)
    requires
        old(table).wf(),
        old(table).next_handle() < u32::MAX,
    ensures
        final(table).wf(),
        rid == old(table).next_handle(),
        final(table).has_rid(rid),
        final(table).kind_of(rid) == "childStdout"@,
        final(table).res_of(rid) == CliResource::ChildStdout(stdout),
        final(table).next_handle() == old(table).next_handle() + 1,
        forall|r2: u32|
            r2 != rid ==> #[trigger] final(table).has_rid(r2) == old(table).has_rid(r2),
        forall|r2: u32|
            r2 != rid && old(table).has_rid(r2) ==> #[trigger] final(table).res_of(r2) == old(table).res_of(r2),
        forall|r2: u32|
            r2 != rid && old(table).has_rid(r2) ==> #[trigger] final(table).kind_of(r2) == old(table).kind_of(r2),
{
    table.add("childStdout", CliResource::ChildStdout(stdout))
}

/// Registers a child process's standard error under a fresh handle.
pub fn add_child_stderr(table: &mut HandleTable<CliResource>, stderr: u64) -> (rid: u32)
    requires
        old(table).wf(),
        old(table).next_handle() < u32::MAX,
    ensures
        final(table).wf(),
        rid == old(table).next_handle(),
        final(table).has_rid(rid),
        final(table).kind_of(rid) == "childStderr"@,
        final(table).res_of(rid) == CliResource::ChildStderr(stderr),
        final(table).next_handle() == old(table).next_handle() + 1,
        forall|r2: u32|
            r2 != rid ==> #[trigger] final(table).has_rid(r2) == old(table).has_rid(r2),
        forall|r2: u32|
            r2 != rid && old(table).has_rid(r2) ==> #[trigger] final(table).res_of(r2) == old(table).res_of(r2),
        forall|r2: u32|
            r2 != rid && old(table).has_rid(r2) ==> #[trigger] final(table).kind_of(r2) == old(table).kind_of(r2),
{
    table.add("childStderr", CliResource::ChildStderr(stderr))
}

/// Registers a listening TCP socket under a fresh handle.
pub fn add_tcp_listener(table: &mut HandleTable<CliResource>, listener: u64) -> (rid: u32)
    requires
        old(table).wf(),
        old(table).next_handle() < u32::MAX,
    ensures
        final(table).wf(),
        rid == old(table).next_handle(),
        final(table).has_rid(rid),
        final(table).kind_of(rid) == "tcpListener"@,
        final(table).res_of(rid) == CliResource::TcpListener(listener),
        final(table).next_handle() == old(table).next_handle() + 1,
        forall|r2: u32|
            r2 != rid ==> #[trigger] final(table).has_rid(r2) == old(table).has_rid(r2),
        forall|r2: u32|
            r2 != rid && old(table).has_rid(r2) ==> #[trigger] final(table).res_of(r2) == old(table).res_of(r2),
        forall|r2: u32|
            r2 != rid && old(table).has_rid(r2) ==> #[trigger] final(table).kind_of(r2) == old(table).kind_of(r2),
{
    table.add("tcpListener", CliResource::TcpListener(listener))
}

/// Registers a worker's channel pair under a fresh handle, so that the
/// parent can address, message and close the worker by that handle.
pub fn add_worker(table: &mut HandleTable<CliResource>, channels: WorkerChannels) -> (rid: u32)
    requires
        old(table).wf(),
        old(table).next_handle() < u32::MAX,
    ensures
        final(table).wf(),
        rid == old(table).next_handle(),
        final(table).has_rid(rid),
        final(table).kind_of(rid) == "worker"@,
        final(table).res_of(rid) == CliResource::Worker(channels),
        final(table).next_handle() == old(table).next_handle() + 1,
        forall|r2: u32|
            r2 != rid ==> #[trigger] final(table).has_rid(r2) == old(table).has_rid(r2),
        forall|r2: u32|
            r2 != rid && old(table).has_rid(r2) ==> #[trigger] final(table).res_of(r2) == old(table).res_of(r2),
        forall|r2: u32|
            r2 != rid && old(table).has_rid(r2) ==> #[trigger] final(table).kind_of(r2) == old(table).kind_of(r2),
{
    table.add("worker", CliResource::Worker(channels))
}

/// Registers the introspection ops: the resource listing and the close
/// call.
pub fn init(table: &mut crate::registry::CallTable)
    requires
        old(table).registered().len() + 2 < u32::MAX,
    ensures
        final(table).registered().contains("op_resources"@),
        final(table).registered().contains("op_close"@),
{
    let r = table.register_op("op_resources");
    let c = table.register_op("op_close");
    proof {
        assert(table.registered()[r as int] == "op_resources"@);
        assert(table.registered()[c as int] == "op_close"@);
        assert(table.registered().contains("op_resources"@));
        assert(table.registered().contains("op_close"@));
    }
}

/// The kind tag of the resource registered under `rid`, for introspection;
/// nothing for an absent handle.
pub fn get_type(table: &HandleTable<CliResource>, rid: u32) -> (r: Option<String>)
    requires
        table.wf(),
    ensures
        (r is Some) <==> table.has_rid(rid),
        r is Some ==> (r->Some_0)@ == table.kind_of(rid),
{
    match table.get_kind(rid) {
        Option::Some(kind) => Some(kind.clone()),
        Option::None => None,
    }
}

/// Removes the resource named `rid` from the table; a handle that is
/// absent — closed before, or never assigned — is a bad-resource error.
pub fn op_close(table: &mut HandleTable<CliResource>, rid: u32) -> (r: Result<(), CoreError>)
    requires
        old(table).wf(),
    ensures
        final(table).wf(),
        final(table).next_handle() == old(table).next_handle(),
        (r is Ok) <==> old(table).has_rid(rid),
        !final(table).has_rid(rid),
        r is Err ==> r->Err_0 == CoreError::BadResource && final(table).entries_seq() == old(table).entries_seq(),
        forall|r2: u32|
            r2 != rid ==> #[trigger] final(table).has_rid(r2) == old(table).has_rid(r2),
        forall|r2: u32|
            r2 != rid && old(table).has_rid(r2) ==> #[trigger] final(table).res_of(r2) == old(table).res_of(r2),
{
    match table.close(rid) {
        Option::Some(_) => Ok(()),
        Option::None => Err(CoreError::BadResource),
    }
}

/// The JSON text of a listing of (handle, kind tag) pairs.
pub uninterp spec fn json_listing_of(entries: Seq<(u32, Seq<char>)>) -> Seq<char>;

/// Relies on serde_json::to_string: serializing a vector of (number,
/// string) pairs yields its JSON text, an array of two-element arrays; the
/// text depends on the pairs alone. Serialization cannot refuse here: the
/// serializers of numbers, strings, tuples and vectors never error, and
/// the writer is a growable vector.
#[verifier::external_body]
fn listing_to_json(entries: &Vec<(u32, String)>) -> (r: String)
    ensures
        r@ == json_listing_of(entries@.map_values(|e: (u32, String)| (e.0, e.1@))),
{
    serde_json::to_string(entries).unwrap()
}

/// A serializable listing of every live resource as its (handle, kind tag)
/// pair, in table order, rendered as JSON text; the table itself is left
/// as it is.
pub fn op_resources(table: &HandleTable<CliResource>) -> (r: String)
    requires
        table.wf(),
    ensures
        r@ == json_listing_of(
            table.entries_seq().map_values(|e: (u32, String, CliResource)| (e.0, e.1@)),
        ),
{
    let listing = table.entries();
    let ghost want = table.entries_seq().map_values(|e: (u32, String, CliResource)| (e.0, e.1@));
    proof {
        assert(listing@.map_values(|e: (u32, String)| (e.0, e.1@)) =~= want);
    }
    listing_to_json(&listing)
}

} // verus!
