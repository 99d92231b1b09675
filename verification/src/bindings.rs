//! Errors and call shapes of the native-binding layer: the error type that
//! binding calls report, the sync/async outcome of a binding call, and the
//! registration contract a binding uses to claim call ids for its ops.

use crate::isolate::Buf;
use crate::isolate::CallDispatcher;
use crate::isolate::Op;
use crate::registry::CallTable;
use vstd::prelude::*;

verus! {

/// Unique identifier of a registered native-binding op.
pub type OpId = u32;

#[derive(Debug)]
enum Repr {
    Simple(String),
    Io(String),
}

/// An error reported by a native-binding call: either a plain message or an
/// input/output failure carried as its message.
#[derive(Debug)]
pub struct BindingError {
    repr: Repr,
}

/// The result of a fallible native-binding operation.
pub type BindingResult<T> = Result<T, BindingError>;

impl BindingError {
    /// The message this error carries.
    pub closed spec fn message_view(self) -> Seq<char> {
        match self.repr {
            Repr::Simple(m) => m@,
            Repr::Io(m) => m@,
        }
    }

    /// Whether this error carries an input/output failure.
    pub closed spec fn is_io(self) -> bool {
        self.repr is Io
    }

    /// A short description of the error.
    pub fn description(&self) -> (r: &str)
        ensures
            r@ == self.message_view(),
    {
        match &self.repr {
            Repr::Simple(m) => m.as_str(),
            Repr::Io(m) => m.as_str(),
        }
    }

    /// Wraps the message of an input/output failure, as handed over by the
    /// embedder.
    pub fn from_io_message(msg: String) -> (e: BindingError)
        ensures
            e.message_view() == msg@,
            e.is_io(),
    {
        BindingError { repr: Repr::Io(msg) }
    }
}

/// A binding error carrying a plain message.
pub fn new(msg: String) -> (e: BindingError)
    ensures
        e.message_view() == msg@,
        !e.is_io(),
{
    BindingError { repr: Repr::Simple(msg) }
}

/// A binding error carrying a plain message.
pub fn new_binding_error(msg: String) -> (e: BindingError)
    ensures
        e.message_view() == msg@,
        !e.is_io(),
{
    BindingError { repr: Repr::Simple(msg) }
}

/// The outcome of a binding op: a synchronous response, or an asynchronous
/// one whose producer reports its payload later.
pub enum BindingOpSyncOrAsync {
    Sync(Buf),
    Async,
}

/// What a dispatched binding op hands back.
pub type BindingOpResult = BindingResult<BindingOpSyncOrAsync>;

/// The outcome of a binding-layer dispatch: an immediate, possibly failed,
/// response or an asynchronous one.
pub enum OpResult {
    Sync(BindingResult<Buf>),
    Async,
}

/// Context functions available to a binding op while it is dispatched.
pub trait BindingDispatchContext {

}

/// Context functions available to a dispatched call.
pub trait DispatchContext {

}

/// Registration context handed to a binding at initialization: it claims a
/// call id for each op it provides.
pub trait BindingInitContext {
    /// Registers an op under `name` and hands back its call id.
    fn register_op(&mut self, name: &str) -> Result<OpId, BindingError>;
}

impl BindingInitContext for CallTable {
    /// Registering through the binding contract assigns the stable id of
    /// the call table, and fails only when the table has run out of ids.
    fn register_op(&mut self, name: &str) -> Result<OpId, BindingError> {
        if self.len() >= u32::MAX as usize {
            let msg: String = "call table is full".to_owned();
            return Err(new_binding_error(msg));
        }
        Ok(CallTable::register_op(self, name))
    }
}

/// A native binding: it names itself, registers its ops at initialization,
/// and ships the source of its script-side module.
pub trait BindingPlugin {
    /// The binding's name, for introspection.
    fn name(&self) -> &'static str;

    /// Registers the binding's ops with the runtime.
    fn init(&self, context: &mut CallTable) -> Result<(), BindingError>;

    /// The source of the binding's script-side module.
    fn es_module_source(&self) -> String;
}

/// The binding used to exercise the registration contract: it provides one
/// op, `testOp`, and ships no script-side module source.
#[derive(Debug, Default)]
pub struct TestBindingPlugin;

impl BindingPlugin for TestBindingPlugin {
    fn name(&self) -> (r: &'static str)
        ensures
            r@ == "test_binding_plugin"@,
    {
        "test_binding_plugin"
    }

    /// Claims a call id for `testOp`, so that the runtime afterwards knows
    /// the op under that name.
    fn init(&self, context: &mut CallTable) -> (r: Result<(), BindingError>)
        ensures
            old(context).registered().len() < u32::MAX ==> r is Ok && final(context).registered().contains("testOp"@),
    {
        if context.len() >= u32::MAX as usize {
            let msg: String = "call table is full".to_owned();
            return Err(new_binding_error(msg));
        }
        let _ = CallTable::register_op(context, "testOp");
        Ok(())
    }

    fn es_module_source(&self) -> (r: String)
        ensures
            r@ == Seq::<char>::empty(),
    {
        String::new()
    }
}

impl CallDispatcher for TestBindingPlugin {
    /// Routes every call request to the binding's one op, dispatched
    /// synchronously — so every call through this dispatcher is answered
    /// by the return value of the dispatch that carried it, before any
    /// later call begins.
    fn dispatch(&mut self, control: &[u8], zero_copy: Option<Buf>) -> (r: Op)
        ensures
            r is Sync,
            match r {
                Op::Sync(buf) => buf@ == seq![116u8, 101u8, 115u8, 116u8],
                Op::Async => false,
            },
    {
        match op_test_op(true, control, zero_copy) {
            Ok(BindingOpSyncOrAsync::Sync(buf)) => Op::Sync(buf),
            Ok(BindingOpSyncOrAsync::Async) => {
                proof {
                    assert(false);
                }
                Op::Async
            },
            Err(_) => {
                proof {
                    assert(false);
                }
                Op::Async
            },
        }
    }
}

/// The op provided by the test binding: it answers synchronous dispatches
/// with the bytes of `test` and refuses asynchronous ones.
pub fn op_test_op(is_sync: bool, data: &[u8], zero_copy: Option<Buf>) -> (r: BindingOpResult)
    ensures
        !is_sync ==> r is Err && (r->Err_0).message_view() == "Async not supported!"@,
        is_sync ==> r is Ok && (r->Ok_0) is Sync && match r->Ok_0 {
            BindingOpSyncOrAsync::Sync(buf) => buf@ == seq![116u8, 101u8, 115u8, 116u8],
            BindingOpSyncOrAsync::Async => false,
        },
{
    if !is_sync {
        let msg: String = "Async not supported!".to_owned();
        return Err(new_binding_error(msg));
    }
    let mut result: Vec<u8> = Vec::new();
    result.push(116);
    result.push(101);
    result.push(115);
    result.push(116);
    proof {
        assert(result@ =~= seq![116u8, 101u8, 115u8, 116u8]);
    }
    Ok(BindingOpSyncOrAsync::Sync(result))
}

} // verus!
