//! Registration, typed lookup, exclusive mutation and close semantics of
//! the handle table.

use exec_core::handles::HandleTable;
use exec_core::resources::new_resource_table;
use exec_core::resources::op_close;
use exec_core::resources::op_resources;
use exec_core::resources::get_type;
use exec_core::resources::CliResource;
use exec_core::errors::CoreError;

struct TestResource {
    noise: String,
}

#[test]
fn resource_table_flow() {
    // add
    let mut rt: HandleTable<TestResource> = HandleTable::new();
    let rid = rt.add("test_resource", TestResource { noise: "woof".to_string() });
    // has
    assert!(rt.has(rid));
    // get
    let rc = rt.get(rid).unwrap();
    assert_eq!(&rc.noise, "woof");
    // get_mut
    {
        assert!(rt.has(rid));
        let rc = rt.get_mut(rid);
        assert_eq!(&rc.noise, "woof");
        rc.noise = "mooh".to_string();
    }
    // The resource's internal state has changed.
    let rc = rt.get(rid).unwrap();
    assert_eq!(&rc.noise, "mooh");
    // close
    assert!(rt.close(rid).is_some());
    // After close the resource is gone, and a second close finds nothing.
    assert!(!rt.has(rid));
    assert!(rt.close(rid).is_none());
    // add and leave in table
    rt.add("test_resource", TestResource { noise: "woof".to_string() });
}

#[test]
fn typed_get_returns_same_resource() {
    let mut rt: HandleTable<CliResource> = HandleTable::new();
    let rid = rt.add("tcpStream", CliResource::TcpStream(17));
    match rt.get(rid).unwrap() {
        CliResource::TcpStream(tok) => assert_eq!(*tok, 17),
        _ => panic!("the registered resource came back as another kind"),
    }
    // An unknown handle returns none.
    assert!(rt.get(rid + 1).is_none());
}

#[test]
fn handles_are_never_reassigned_while_live() {
    let mut rt: HandleTable<u32> = HandleTable::new();
    let a = rt.add("first", 10);
    let b = rt.add("second", 20);
    assert_ne!(a, b);
    // Closing and registering again never hands out a still-live handle.
    rt.close(a).unwrap();
    let c = rt.add("third", 30);
    assert_ne!(c, b);
    assert_ne!(c, a);
    assert_eq!(*rt.get(b).unwrap(), 20);
    assert_eq!(*rt.get(c).unwrap(), 30);
}

#[test]
fn op_close_reports_bad_resource() {
    let mut rt = new_resource_table();
    assert_eq!(op_close(&mut rt, 99), Err(CoreError::BadResource));
    assert!(op_close(&mut rt, 0).is_ok());
    // The handle is gone now, so a second close is a bad resource again.
    assert_eq!(op_close(&mut rt, 0), Err(CoreError::BadResource));
}

#[test]
fn resource_table_starts_with_standard_streams() {
    let rt = new_resource_table();
    assert_eq!(get_type(&rt, 0).unwrap(), "stdin");
    assert_eq!(get_type(&rt, 1).unwrap(), "stdout");
    assert_eq!(get_type(&rt, 2).unwrap(), "stderr");
    assert!(get_type(&rt, 3).is_none());
}

#[test]
fn op_resources_lists_entries_as_json() {
    let rt = new_resource_table();
    let listing = op_resources(&rt);
    assert_eq!(listing, "[[0,\"stdin\"],[1,\"stdout\"],[2,\"stderr\"]]");
}

#[test]
fn entries_reflect_table_order() {
    let mut rt: HandleTable<u8> = HandleTable::new();
    rt.add("one", 1);
    rt.add("two", 2);
    let entries = rt.entries();
    assert_eq!(entries.len(), 2);
    assert_eq!(entries[0].0, 0);
    assert_eq!(entries[0].1, "one");
    assert_eq!(entries[1].0, 1);
    assert_eq!(entries[1].1, "two");
}

#[test]
fn error_message_texts() {
    assert_eq!(CoreError::BadResource.message(), "bad resource id");
    assert_eq!(CoreError::PermissionDenied.message(), "permission denied");
    assert_eq!(CoreError::ProtocolViolation.message(), "protocol violation");
}
