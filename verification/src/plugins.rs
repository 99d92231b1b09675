//! Outcomes of calls implemented by a loaded native extension, and their
//! conversion into core call outcomes. Discovery, compilation and loading of
//! an extension happen outside this core; what arrives here is only the
//! outcome of one of its registered calls.

use crate::isolate::Buf;
use crate::isolate::Op;
use vstd::prelude::*;

verus! {

/// The outcome of a native-extension call: a synchronous response, or an
/// asynchronous one whose producer reports its payload later.
pub enum PluginOp {
    Sync(Buf),
    Async,
}

/// What an extension outcome means as a core call outcome.
pub open spec fn plugin_op_to_op(op: PluginOp) -> Op {
    match op {
        PluginOp::Sync(buf) => Op::Sync(buf),
        PluginOp::Async => Op::Async,
    }
}

impl From<PluginOp> for Op {
    /// An extension outcome carries over to the core unchanged: a
    /// synchronous response keeps its bytes, an asynchronous one stays
    /// asynchronous.
    fn from(op: PluginOp) -> (r: Op) {
        match op {
            PluginOp::Sync(buf) => Op::Sync(buf),
            PluginOp::Async => Op::Async,
        }
    }
}

impl vstd::std_specs::convert::FromSpecImpl<PluginOp> for Op {
    open spec fn obeys_from_spec() -> bool {
        true
    }

    open spec fn from_spec(op: PluginOp) -> Op {
        plugin_op_to_op(op)
    }
}

} // verus!
