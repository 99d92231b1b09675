//! Worker lifecycle and message passing: spawn, post, echo, close, and the
//! removal of the worker's handle from the parent's table.

use exec_core::compiler::CompilerBehavior;
use exec_core::permissions::Permissions;
use exec_core::resources::get_type;
use exec_core::resources::new_resource_table;
use exec_core::state::State;
use exec_core::workers::bootstrap_sources;
use exec_core::workers::get_message_from_worker;
use exec_core::workers::op_worker_close;
use exec_core::workers::op_worker_post_message;
use exec_core::workers::post_message_to_worker;
use exec_core::workers::spawn;
use exec_core::workers::worker_recv_message;
use exec_core::workers::ChannelError;
use exec_core::workers::MessageChannel;
use exec_core::workers::WorkerStatus;

fn compiler_behavior() -> CompilerBehavior {
    let state = State::new("main.ts".to_string(), Permissions::allow_all(), None, false);
    CompilerBehavior::new(state)
}

fn json_string(text: &str) -> Vec<u8> {
    serde_json::Value::String(text.to_string()).to_string().into_bytes()
}

#[test]
fn test_spawn() {
    let mut table = new_resource_table();
    let (main_src, worker_src) = bootstrap_sources("TEST");
    assert_eq!(main_src, "denoMain('TEST')");
    assert_eq!(worker_src, "workerMain()");
    // The embedder executed the bootstrap and the init script without
    // fault; the worker is running and registered.
    let worker_result = spawn(compiler_behavior(), &mut table, Ok(()), Ok(()));
    assert!(worker_result.is_ok());
    let mut worker = worker_result.unwrap_or_else(|_| panic!("spawn failed"));
    let rid = {
        // The worker is addressable through the parent's table.
        let entries = table.entries();
        entries[entries.len() - 1].0
    };

    // The worker script echoes [1, 2, 3] for any message but "exit".
    let msg = json_string("hi");
    let r = post_message_to_worker(&mut table, rid, msg);
    assert!(r.is_ok());

    // Worker side: receive the message and answer.
    let received = worker_recv_message(&mut table, rid).unwrap().unwrap();
    assert_eq!(received, json_string("hi"));
    op_worker_post_message(&mut table, rid, b"[1,2,3]".to_vec()).unwrap();

    let maybe_msg = get_message_from_worker(&mut table, rid).unwrap();
    assert!(maybe_msg.is_some());
    // Check if message received is [1, 2, 3] in json.
    assert_eq!(&maybe_msg.unwrap()[..], &b"[1,2,3]"[..]);

    let msg = json_string("exit");
    let r = post_message_to_worker(&mut table, rid, msg);
    assert!(r.is_ok());

    // Worker side: observe "exit", close down; the parent reaps the handle.
    let received = worker_recv_message(&mut table, rid).unwrap().unwrap();
    assert_eq!(received, json_string("exit"));
    op_worker_close(&mut table, rid).unwrap();
    worker.request_close();
    worker.finish_close(&mut table);
    assert_eq!(worker.status_now(), WorkerStatus::Closed);
    assert!(get_type(&table, rid).is_none());
}

#[test]
fn removed_from_resource_table_on_close() {
    let mut table = new_resource_table();
    let worker_result = spawn(compiler_behavior(), &mut table, Ok(()), Ok(()));
    assert!(worker_result.is_ok());
    let mut worker = worker_result.unwrap_or_else(|_| panic!("spawn failed"));
    let rid = {
        let entries = table.entries();
        entries[entries.len() - 1].0
    };
    assert_eq!(get_type(&table, rid), Some("worker".to_string()));

    let msg = json_string("hi");
    let r = post_message_to_worker(&mut table, rid, msg);
    assert!(r.is_ok());

    // The worker's script closes on its first message.
    let _ = worker_recv_message(&mut table, rid).unwrap().unwrap();
    op_worker_close(&mut table, rid).unwrap();
    worker.request_close();
    worker.finish_close(&mut table);

    assert_eq!(get_type(&table, rid), None);
    // Addressing the closed handle fails as a bad resource.
    assert_eq!(
        post_message_to_worker(&mut table, rid, b"again".to_vec()),
        Err(ChannelError::BadResource)
    );
}

#[test]
fn bounded_channel_backpressures_poster() {
    let mut table = new_resource_table();
    let worker = spawn(compiler_behavior(), &mut table, Ok(()), Ok(()))
        .unwrap_or_else(|_| panic!("spawn failed"));
    let rid = {
        let entries = table.entries();
        entries[entries.len() - 1].0
    };
    assert_eq!(worker.status_now(), WorkerStatus::Running);
    // The channel holds one outstanding message; a second post must wait.
    assert!(post_message_to_worker(&mut table, rid, vec![1]).is_ok());
    assert_eq!(post_message_to_worker(&mut table, rid, vec![2]), Err(ChannelError::Full));
    // Receiving frees the slot.
    assert_eq!(worker_recv_message(&mut table, rid).unwrap().unwrap(), vec![1]);
    assert!(post_message_to_worker(&mut table, rid, vec![2]).is_ok());
}

#[test]
fn close_refuses_sends_but_keeps_pending_receives() {
    let mut table = new_resource_table();
    let _worker = spawn(compiler_behavior(), &mut table, Ok(()), Ok(()))
        .unwrap_or_else(|_| panic!("spawn failed"));
    let rid = {
        let entries = table.entries();
        entries[entries.len() - 1].0
    };
    assert!(post_message_to_worker(&mut table, rid, vec![5]).is_ok());
    op_worker_close(&mut table, rid).unwrap();
    // No further sends are accepted.
    assert_eq!(post_message_to_worker(&mut table, rid, vec![6]), Err(ChannelError::Closed));
    // The message already in flight is still received.
    assert_eq!(worker_recv_message(&mut table, rid).unwrap().unwrap(), vec![5]);
}

#[test]
fn bootstrap_fault_leaves_worker_closing() {
    let mut table = new_resource_table();
    let r = spawn(
        compiler_behavior(),
        &mut table,
        Err(exec_core::errors::JsError { message: "boot fault".to_string() }),
        Ok(()),
    );
    assert!(r.is_err());
}

#[test]
fn message_channel_fifo() {
    let mut ch = MessageChannel::new(3);
    assert!(ch.post(vec![1]).is_ok());
    assert!(ch.post(vec![2]).is_ok());
    assert_eq!(ch.take().unwrap(), vec![1]);
    assert_eq!(ch.take().unwrap(), vec![2]);
    assert!(ch.take().is_none());
}
