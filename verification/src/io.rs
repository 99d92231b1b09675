//! Stream read and write call handlers, reduced to what the dispatch core
//! decides: the argument check for the attached buffer and the typed lookup
//! of a readable or writable resource. The polling of the underlying stream
//! is the embedder's work, authorized by the decisions here.

use crate::handles::HandleTable;
use crate::isolate::Buf;
use crate::registry::CallTable;
use crate::resources::CliResource;
use vstd::prelude::*;

verus! {

/// Why a read or write call was refused before any stream was touched.
#[derive(Clone, Copy, Debug, PartialEq, Eq, Structural)]
pub enum IoOpError {
    /// The call arrived without the buffer it must fill or drain.
    NoBufferSpecified,
    /// The handle is absent or names a resource that cannot be read or
    /// written as requested.
    BadResource,
}

/// Registers the stream ops and hands back their stable ids, read first.
pub fn init(table: &mut CallTable) -> (r: (u32, u32))
    requires
        old(table).registered().len() + 2 < u32::MAX,
    ensures
        final(table).registered().contains("read"@),
        final(table).registered().contains("write"@),
        final(table).registered()[r.0 as int] == "read"@,
        final(table).registered()[r.1 as int] == "write"@,
{
    let read_id = table.register_op("read");
    let write_id = table.register_op("write");
    proof {
        assert(table.registered()[read_id as int] == "read"@);
        assert(table.registered()[write_id as int] == "write"@);
        assert(table.registered().contains("read"@));
        assert(table.registered().contains("write"@));
    }
    (read_id, write_id)
}

/// Whether a resource kind supports reading.
pub open spec fn readable(r: CliResource) -> bool {
    match r {
        CliResource::FsFile(_) => true,
        CliResource::Stdin => true,
        CliResource::TcpStream(_) => true,
        CliResource::ClientTlsStream(_) => true,
        CliResource::ServerTlsStream(_) => true,
        CliResource::HttpBody(_) => true,
        CliResource::ChildStdout(_) => true,
        CliResource::ChildStderr(_) => true,
        _ => false,
    }
}

/// Whether a resource kind supports writing.
pub open spec fn writable(r: CliResource) -> bool {
    match r {
        CliResource::FsFile(_) => true,
        CliResource::Stdout => true,
        CliResource::Stderr => true,
        CliResource::TcpStream(_) => true,
        CliResource::ClientTlsStream(_) => true,
        CliResource::ServerTlsStream(_) => true,
        CliResource::ChildStdin(_) => true,
        _ => false,
    }
}

fn is_readable(r: &CliResource) -> (b: bool)
    ensures
        b == readable(*r),
{
    match r {
        CliResource::FsFile(_) => true,
        CliResource::Stdin => true,
        CliResource::TcpStream(_) => true,
        CliResource::ClientTlsStream(_) => true,
        CliResource::ServerTlsStream(_) => true,
        CliResource::HttpBody(_) => true,
        CliResource::ChildStdout(_) => true,
        CliResource::ChildStderr(_) => true,
        _ => false,
    }
}

fn is_writable(r: &CliResource) -> (b: bool)
    ensures
        b == writable(*r),
{
    match r {
        CliResource::FsFile(_) => true,
        CliResource::Stdout => true,
        CliResource::Stderr => true,
        CliResource::TcpStream(_) => true,
        CliResource::ClientTlsStream(_) => true,
        CliResource::ServerTlsStream(_) => true,
        CliResource::ChildStdin(_) => true,
        _ => false,
    }
}

/// Decides a read call: it must carry the buffer to fill, and the handle
/// must name a readable resource. Success hands the buffer back for the
/// embedder to fill from the stream.
pub fn op_read(table: &HandleTable<CliResource>, rid: u32, zero_copy: Option<Buf>) -> (r: Result<
    Buf,
    IoOpError,
>)
    requires
        table.wf(),
    ensures
        zero_copy is None ==> r == Result::<Buf, IoOpError>::Err(IoOpError::NoBufferSpecified),
        zero_copy is Some && !(table.has_rid(rid) && readable(table.res_of(rid))) ==> r
            == Result::<Buf, IoOpError>::Err(IoOpError::BadResource),
        zero_copy is Some && table.has_rid(rid) && readable(table.res_of(rid)) ==> r is Ok && (
        r->Ok_0) == zero_copy->Some_0,
{
    let buf = match zero_copy {
        Option::Some(buf) => buf,
        Option::None => {
            return Err(IoOpError::NoBufferSpecified);
        },
    };
    match table.get(rid) {
        Option::Some(res) => {
            if is_readable(res) {
                Ok(buf)
            } else {
                Err(IoOpError::BadResource)
            }
        },
        Option::None => Err(IoOpError::BadResource),
    }
}

/// Decides a write call: it must carry the buffer to drain, and the handle
/// must name a writable resource. Success hands the buffer back for the
/// embedder to drain into the stream.
pub fn op_write(table: &HandleTable<CliResource>, rid: u32, zero_copy: Option<Buf>) -> (r: Result<
    Buf,
    IoOpError,
>)
    requires
        table.wf(),
    ensures
        zero_copy is None ==> r == Result::<Buf, IoOpError>::Err(IoOpError::NoBufferSpecified),
        zero_copy is Some && !(table.has_rid(rid) && writable(table.res_of(rid))) ==> r
            == Result::<Buf, IoOpError>::Err(IoOpError::BadResource),
        zero_copy is Some && table.has_rid(rid) && writable(table.res_of(rid)) ==> r is Ok && (
        r->Ok_0) == zero_copy->Some_0,
{
    let buf = match zero_copy {
        Option::Some(buf) => buf,
        Option::None => {
            return Err(IoOpError::NoBufferSpecified);
        },
    };
    match table.get(rid) {
        Option::Some(res) => {
            if is_writable(res) {
                Ok(buf)
            } else {
                Err(IoOpError::BadResource)
            }
        },
        Option::None => Err(IoOpError::BadResource),
    }
}

} // verus!
