//! The stream read and write call decisions.

use exec_core::io::init;
use exec_core::io::op_read;
use exec_core::io::op_write;
use exec_core::io::IoOpError;
use exec_core::registry::CallTable;
use exec_core::resources::add_fs_file;
use exec_core::resources::new_resource_table;

#[test]
fn read_requires_buffer_and_readable_resource() {
    let mut table = new_resource_table();
    let file_rid = add_fs_file(&mut table, 11);
    // Without a buffer the call fails before any stream is touched.
    assert_eq!(op_read(&table, file_rid, None), Err(IoOpError::NoBufferSpecified));
    // A readable resource hands the buffer back for filling.
    assert_eq!(op_read(&table, file_rid, Some(vec![0; 16])), Ok(vec![0; 16]));
    // stdin reads; stdout does not.
    assert!(op_read(&table, 0, Some(vec![0; 4])).is_ok());
    assert_eq!(op_read(&table, 1, Some(vec![0; 4])), Err(IoOpError::BadResource));
    // An unknown handle is a bad resource.
    assert_eq!(op_read(&table, 99, Some(vec![0; 4])), Err(IoOpError::BadResource));
}

#[test]
fn write_requires_buffer_and_writable_resource() {
    let mut table = new_resource_table();
    let file_rid = add_fs_file(&mut table, 11);
    assert_eq!(op_write(&table, file_rid, None), Err(IoOpError::NoBufferSpecified));
    assert_eq!(op_write(&table, file_rid, Some(vec![1, 2])), Ok(vec![1, 2]));
    // stdout and stderr write; stdin does not.
    assert!(op_write(&table, 1, Some(vec![1])).is_ok());
    assert!(op_write(&table, 2, Some(vec![1])).is_ok());
    assert_eq!(op_write(&table, 0, Some(vec![1])), Err(IoOpError::BadResource));
}

#[test]
fn io_ops_register_in_order() {
    let mut table = CallTable::new();
    let (read_id, write_id) = init(&mut table);
    assert_eq!(read_id, 0);
    assert_eq!(write_id, 1);
    assert_eq!(table.op_name(read_id).unwrap(), "read");
    assert_eq!(table.op_name(write_id).unwrap(), "write");
}
