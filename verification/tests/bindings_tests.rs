//! The native-binding layer: errors, op registration through the binding
//! contract, and the test binding's op.

use exec_core::bindings::new;
use exec_core::bindings::new_binding_error;
use exec_core::bindings::op_test_op;
use exec_core::bindings::BindingInitContext;
use exec_core::bindings::BindingOpSyncOrAsync;
use exec_core::bindings::BindingPlugin;
use exec_core::bindings::TestBindingPlugin;
use exec_core::plugins::PluginOp;
use exec_core::isolate::Config;
use exec_core::isolate::DispatchResponse;
use exec_core::isolate::DriveStatus;
use exec_core::isolate::Isolate;
use exec_core::isolate::Op;
use exec_core::isolate::StartupData;
use exec_core::registry::CallTable;

#[test]
fn placeholder() {
    // This test is just here to make sure the plugin gets built
}

#[test]
fn test_loader() {
    let mut table = CallTable::new();
    let plugin = TestBindingPlugin;
    let next_op_id = table.len() as u32;
    let plugin_name = plugin.name();
    assert_eq!(plugin_name, "test_binding_plugin");

    plugin.init(&mut table).unwrap();

    // The op is registered under the expected name and received the next
    // id.
    let v8_op_id = table.op_id("testOp");
    assert!(v8_op_id.is_some());
    let v8_op_id_num = v8_op_id.unwrap();
    assert_eq!(v8_op_id_num, next_op_id);
    assert_eq!(table.op_name(v8_op_id_num).unwrap(), "testOp");

    // Dispatching the op synchronously answers with the bytes of "test".
    let result = op_test_op(true, b"some disptach text", None);
    assert!(result.is_ok());
    match result.unwrap() {
        BindingOpSyncOrAsync::Sync(result_buf) => assert_eq!(&result_buf[..], b"test"),
        BindingOpSyncOrAsync::Async => panic!("the test op answers synchronously"),
    }
}

#[test]
fn op_test_op_refuses_async() {
    let result = op_test_op(false, b"", None);
    match result {
        Err(e) => assert_eq!(e.description(), "Async not supported!"),
        Ok(_) => panic!("an asynchronous dispatch must be refused"),
    }
}

#[test]
fn binding_errors_carry_their_message() {
    let e = new("something broke".to_string());
    assert_eq!(e.description(), "something broke");
    let e = new_binding_error("another failure".to_string());
    assert_eq!(e.description(), "another failure");
}

#[test]
fn registration_is_stable_per_name() {
    let mut table = CallTable::new();
    let a = table.register_op("read");
    let b = table.register_op("write");
    assert_eq!((a, b), (0, 1));
    // Registering a name again keeps its first id and the table unchanged.
    assert_eq!(table.register_op("read"), 0);
    assert_eq!(table.len(), 2);
    assert_eq!(table.op_id("write"), Some(1));
    assert_eq!(table.op_id("missing"), None);
    assert!(table.op_name(2).is_none());
    // The binding-contract registration assigns the same ids.
    let c = BindingInitContext::register_op(&mut table, "accept").unwrap();
    assert_eq!(c, 2);
}

#[test]
fn plugin_ops_convert_to_core_ops() {
    let sync = PluginOp::Sync(vec![1, 2]);
    match Op::from(sync) {
        Op::Sync(buf) => assert_eq!(buf, vec![1, 2]),
        Op::Async => panic!("a synchronous extension outcome stays synchronous"),
    }
    match Op::from(PluginOp::Async) {
        Op::Sync(_) => panic!("an asynchronous extension outcome stays asynchronous"),
        Op::Async => {}
    }
}

#[test]
fn test_binding_dispatches_synchronously() {
    // Driving an isolate with the test binding as dispatcher: every call
    // is answered by its own dispatch invocation, and no asynchronous work
    // is left behind between calls.
    let mut isolate = Isolate::new(StartupData::Empty, Config::default());
    let mut plugin = TestBindingPlugin;
    for _ in 0..2 {
        match isolate.dispatch(&mut plugin, Some(vec![7u8]), None) {
            DispatchResponse::Sync(buf) => assert_eq!(&buf[..], b"test"),
            _ => panic!("the test binding answers synchronously"),
        }
        let report = isolate.drive_cycle();
        assert_eq!(report.status, DriveStatus::Quiescent);
        assert!(report.batched.is_empty());
        assert!(report.overflow.is_none());
    }
}
