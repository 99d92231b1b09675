//! Dispatch, scheduling and delivery behavior of the isolate: synchronous
//! and asynchronous calls, the shared-queue request path, and the overflow
//! delivery path for responses that do not fit the ring buffer.

use exec_core::isolate::decode_overflow;
use exec_core::isolate::encode_overflow;
use exec_core::isolate::Buf;
use exec_core::isolate::CallDispatcher;
use exec_core::isolate::Config;
use exec_core::isolate::DispatchResponse;
use exec_core::isolate::DriveStatus;
use exec_core::isolate::Isolate;
use exec_core::isolate::Op;
use exec_core::isolate::StartupData;
use exec_core::errors::CoreError;

enum Mode {
    AsyncImmediate,
    OverflowReqSync,
    OverflowResSync,
    OverflowReqAsync,
    OverflowResAsync,
}

struct TestDispatcher {
    mode: Mode,
    dispatch_count: usize,
}

const MB100: usize = 100 * 1024 * 1024;

impl CallDispatcher for TestDispatcher {
    fn dispatch(&mut self, control: &[u8], _zero_copy: Option<Buf>) -> Op {
        self.dispatch_count += 1;
        match self.mode {
            Mode::AsyncImmediate => {
                assert_eq!(control.len(), 1);
                assert_eq!(control[0], 42);
                Op::Async
            }
            Mode::OverflowReqSync => {
                assert_eq!(control.len(), MB100);
                Op::Sync(vec![43u8])
            }
            Mode::OverflowResSync => {
                assert_eq!(control.len(), 1);
                assert_eq!(control[0], 42);
                let mut v = vec![0u8; MB100];
                v[0] = 99;
                Op::Sync(v)
            }
            Mode::OverflowReqAsync => {
                assert_eq!(control.len(), MB100);
                Op::Async
            }
            Mode::OverflowResAsync => {
                assert_eq!(control.len(), 1);
                assert_eq!(control[0], 42);
                Op::Async
            }
        }
    }
}

fn setup(mode: Mode) -> (Isolate, TestDispatcher) {
    let isolate = Isolate::new(StartupData::Empty, Config { will_snapshot: false });
    let dispatcher = TestDispatcher { mode, dispatch_count: 0 };
    (isolate, dispatcher)
}

#[test]
fn test_dispatch() {
    let (mut isolate, mut d) = setup(Mode::AsyncImmediate);
    let control = vec![42u8];
    let r1 = isolate.dispatch(&mut d, Some(control.clone()), None);
    assert!(matches!(r1, DispatchResponse::Promised(_)));
    let r2 = isolate.dispatch(&mut d, Some(control), None);
    assert!(matches!(r2, DispatchResponse::Promised(_)));
    assert_eq!(d.dispatch_count, 2);
}

#[test]
fn test_poll_async_immediate_ops() {
    let (mut isolate, mut d) = setup(Mode::AsyncImmediate);
    let mut nrecv = 0;
    assert_eq!(nrecv, 0);
    let pid = match isolate.dispatch(&mut d, Some(vec![42u8]), None) {
        DispatchResponse::Promised(pid) => pid,
        _ => panic!("expected an asynchronous outcome"),
    };
    assert_eq!(d.dispatch_count, 1);
    assert_eq!(nrecv, 0);
    isolate.complete(pid, vec![43u8]).unwrap();
    let report = isolate.drive_cycle();
    nrecv += report.batched.len();
    assert_eq!(report.status, DriveStatus::Quiescent);
    assert_eq!(d.dispatch_count, 1);
    assert_eq!(nrecv, 1);
    let pid2 = match isolate.dispatch(&mut d, Some(vec![42u8]), None) {
        DispatchResponse::Promised(pid) => pid,
        _ => panic!("expected an asynchronous outcome"),
    };
    assert_eq!(d.dispatch_count, 2);
    isolate.complete(pid2, vec![43u8]).unwrap();
    let report = isolate.drive_cycle();
    nrecv += report.batched.len();
    assert_eq!(nrecv, 2);
    assert_eq!(d.dispatch_count, 2);
    // We are idle, so the next drive reports quiescent at once.
    let report = isolate.drive_cycle();
    assert_eq!(report.status, DriveStatus::Quiescent);
}

#[test]
fn test_shared() {
    let (mut isolate, mut d) = setup(Mode::AsyncImmediate);
    let mut nrecv = 0;
    // The engine side queues a request and signals with an empty send.
    assert!(isolate.queue_request(1, &[42u8]));
    let r1 = isolate.dispatch(&mut d, None, None);
    let pid1 = match r1 {
        DispatchResponse::Promised(pid) => pid,
        _ => panic!("expected an asynchronous outcome"),
    };
    assert_eq!(nrecv, 0);
    assert!(isolate.queue_request(2, &[42u8]));
    let pid2 = match isolate.dispatch(&mut d, None, None) {
        DispatchResponse::Promised(pid) => pid,
        _ => panic!("expected an asynchronous outcome"),
    };
    assert_eq!(nrecv, 0);
    assert_eq!(d.dispatch_count, 2);
    isolate.complete(pid1, vec![43u8]).unwrap();
    isolate.complete(pid2, vec![43u8]).unwrap();
    let report = isolate.drive_cycle();
    assert_eq!(report.status, DriveStatus::Quiescent);
    for (_pid, buf) in &report.batched {
        assert_eq!(buf.len(), 1);
        assert_eq!(buf[0], 43);
        nrecv += 1;
    }
    assert_eq!(nrecv, 2);
}

#[test]
fn overflow_req_sync() {
    let (mut isolate, mut d) = setup(Mode::OverflowReqSync);
    let mut async_recv = 0;
    // Large request that would overflow the shared space travels as the
    // direct argument instead.
    let control = vec![0u8; MB100];
    let response = isolate.dispatch(&mut d, Some(control), None);
    match response {
        DispatchResponse::Sync(buf) => {
            assert_eq!(buf.len(), 1);
            assert_eq!(buf[0], 43);
        }
        _ => panic!("expected a synchronous response"),
    }
    let report = isolate.drive_cycle();
    async_recv += report.batched.len();
    assert_eq!(async_recv, 0);
    assert_eq!(d.dispatch_count, 1);
}

#[test]
fn overflow_res_sync() {
    let (mut isolate, mut d) = setup(Mode::OverflowResSync);
    let mut async_recv = 0;
    let control = vec![42u8];
    let response = isolate.dispatch(&mut d, Some(control), None);
    match response {
        DispatchResponse::Sync(buf) => {
            assert_eq!(buf.len(), MB100);
            assert_eq!(buf[0], 99);
        }
        _ => panic!("expected a synchronous response"),
    }
    let report = isolate.drive_cycle();
    async_recv += report.batched.len();
    assert_eq!(async_recv, 0);
    assert_eq!(d.dispatch_count, 1);
}

#[test]
fn overflow_req_async() {
    let (mut isolate, mut d) = setup(Mode::OverflowReqAsync);
    let mut async_recv = 0;
    let control = vec![0u8; MB100];
    let response = isolate.dispatch(&mut d, Some(control), None);
    let pid = match response {
        DispatchResponse::Promised(pid) => pid,
        _ => panic!("async outcomes answer with a promise id"),
    };
    assert_eq!(async_recv, 0);
    assert_eq!(d.dispatch_count, 1);
    isolate.complete(pid, vec![43u8]).unwrap();
    let report = isolate.drive_cycle();
    assert_eq!(report.status, DriveStatus::Quiescent);
    for (rpid, buf) in &report.batched {
        assert_eq!(*rpid, pid);
        assert_eq!(buf.len(), 1);
        assert_eq!(buf[0], 43);
        async_recv += 1;
    }
    assert!(report.overflow.is_none());
    assert_eq!(async_recv, 1);
}

#[test]
fn overflow_res_async() {
    let (mut isolate, mut d) = setup(Mode::OverflowResAsync);
    let mut async_recv = 0;
    let control = vec![42u8];
    let response = isolate.dispatch(&mut d, Some(control), None);
    let pid = match response {
        DispatchResponse::Promised(pid) => pid,
        _ => panic!("async outcomes answer with a promise id"),
    };
    assert_eq!(async_recv, 0);
    let mut payload = vec![0u8; MB100];
    payload[0] = 4;
    isolate.complete(pid, payload).unwrap();
    let mut polls = 0;
    loop {
        let report = isolate.drive_cycle();
        assert!(report.batched.is_empty());
        if let Some(buf) = report.overflow {
            // The overflow delivery carries the promise id and the exact
            // payload bytes.
            let (rpid, rpayload) = decode_overflow(&buf).unwrap();
            assert_eq!(rpid, pid);
            assert_eq!(rpayload.len(), MB100);
            assert_eq!(rpayload[0], 4);
            async_recv += 1;
        }
        if report.status == DriveStatus::Quiescent {
            break;
        }
        polls += 1;
        assert!(polls < 3, "isolate still not ready");
    }
    assert_eq!(async_recv, 1);
}

#[test]
fn overflow_res_multiple_dispatch_async() {
    let (mut isolate, mut d) = setup(Mode::OverflowResAsync);
    let mut async_recv = 0;
    let pid1 = match isolate.dispatch(&mut d, Some(vec![42u8]), None) {
        DispatchResponse::Promised(pid) => pid,
        _ => panic!("async outcomes answer with a promise id"),
    };
    // Dispatch another message to verify that pending ops are done even if
    // the shared space overflows.
    let pid2 = match isolate.dispatch(&mut d, Some(vec![42u8]), None) {
        DispatchResponse::Promised(pid) => pid,
        _ => panic!("async outcomes answer with a promise id"),
    };
    assert_eq!(d.dispatch_count, 2);
    assert_ne!(pid1, pid2);
    let mut payload = vec![0u8; MB100];
    payload[0] = 4;
    isolate.complete(pid1, payload.clone()).unwrap();
    isolate.complete(pid2, payload).unwrap();
    let mut polls = 0;
    let mut seen = Vec::new();
    loop {
        let report = isolate.drive_cycle();
        if let Some(buf) = report.overflow {
            let (rpid, rpayload) = decode_overflow(&buf).unwrap();
            assert_eq!(rpayload.len(), MB100);
            assert_eq!(rpayload[0], 4);
            seen.push(rpid);
            async_recv += 1;
        }
        if report.status == DriveStatus::Quiescent {
            break;
        }
        polls += 1;
        assert!(polls < 3, "isolate still not ready");
    }
    assert_eq!(async_recv, 2);
    // Overflow deliveries keep completion order.
    assert_eq!(seen, vec![pid1, pid2]);
}

#[test]
fn sync_calls_do_not_interleave() {
    // Each synchronous call's response is returned by its own dispatch
    // invocation, before the next call begins, and leaves no scheduled
    // work behind.
    let (mut isolate, mut d) = setup(Mode::OverflowResSync);
    for _ in 0..3 {
        let response = isolate.dispatch(&mut d, Some(vec![42u8]), None);
        match response {
            DispatchResponse::Sync(buf) => assert_eq!(buf[0], 99),
            _ => panic!("expected a synchronous response"),
        }
        let report = isolate.drive_cycle();
        assert_eq!(report.status, DriveStatus::Quiescent);
        assert!(report.batched.is_empty());
        assert!(report.overflow.is_none());
    }
}

#[test]
fn async_calls_complete_exactly_once() {
    let (mut isolate, mut d) = setup(Mode::AsyncImmediate);
    let pid_a = match isolate.dispatch(&mut d, Some(vec![42u8]), None) {
        DispatchResponse::Promised(pid) => pid,
        _ => panic!("async outcomes answer with a promise id"),
    };
    let pid_b = match isolate.dispatch(&mut d, Some(vec![42u8]), None) {
        DispatchResponse::Promised(pid) => pid,
        _ => panic!("async outcomes answer with a promise id"),
    };
    // A and B hold distinct promise ids.
    assert_ne!(pid_a, pid_b);
    assert!(isolate.complete(pid_a, vec![7u8]).is_ok());
    // A second completion of A is a protocol violation.
    assert_eq!(isolate.complete(pid_a, vec![8u8]), Err(CoreError::ProtocolViolation));
    assert!(isolate.complete(pid_b, vec![9u8]).is_ok());
    let report = isolate.drive_cycle();
    assert_eq!(report.status, DriveStatus::Quiescent);
    // Each response arrives exactly once, tagged with its own id.
    assert_eq!(report.batched.len(), 2);
    assert_eq!(report.batched[0], (pid_a, vec![7u8]));
    assert_eq!(report.batched[1], (pid_b, vec![9u8]));
}

#[test]
fn completion_of_undispatched_promise_is_refused() {
    let (mut isolate, _d) = setup(Mode::AsyncImmediate);
    assert_eq!(isolate.complete(12345, vec![1u8]), Err(CoreError::ProtocolViolation));
}

#[test]
fn dispatch_with_no_request_is_a_noop() {
    let (mut isolate, mut d) = setup(Mode::AsyncImmediate);
    let r = isolate.dispatch(&mut d, None, None);
    assert!(matches!(r, DispatchResponse::NoOp));
    assert_eq!(d.dispatch_count, 0);
    // An empty direct argument is the same signal as no argument.
    let r = isolate.dispatch(&mut d, Some(Vec::new()), None);
    assert!(matches!(r, DispatchResponse::NoOp));
    assert_eq!(d.dispatch_count, 0);
}

#[test]
fn overflow_encoding_round_trip() {
    let encoded = encode_overflow(77, &[1, 2, 3]);
    assert_eq!(encoded, vec![0, 0, 0, 77, 1, 2, 3]);
    let (pid, payload) = decode_overflow(&encoded).unwrap();
    assert_eq!(pid, 77);
    assert_eq!(payload, vec![1, 2, 3]);
    // An empty payload still carries its promise id.
    let encoded = encode_overflow(0x01020304, &[]);
    assert_eq!(encoded, vec![1, 2, 3, 4]);
    let (pid, payload) = decode_overflow(&encoded).unwrap();
    assert_eq!(pid, 0x01020304);
    assert!(payload.is_empty());
    // A buffer too short for the id decodes to nothing.
    assert!(decode_overflow(&[1, 2, 3]).is_none());
}

#[test]
fn request_selection_prefers_direct_argument() {
    let mut isolate = Isolate::new(StartupData::Empty, Config::default());
    // An empty direct argument signals the queued record, which is handed
    // on as the request.
    assert!(isolate.queue_request(1, &[42]));
    assert_eq!(isolate.take_request(None), Some(vec![42]));
    // A non-empty direct argument is handed on as given.
    assert_eq!(isolate.take_request(Some(vec![9, 8])), Some(vec![9, 8]));
    // Both sources empty: no request.
    assert_eq!(isolate.take_request(Some(Vec::new())), None);
    assert_eq!(isolate.take_request(None), None);
}

#[test]
fn settle_links_outcome_to_response() {
    let mut isolate = Isolate::new(StartupData::Empty, Config::default());
    // A synchronous outcome is answered as a Sync response carrying that
    // very buffer, with nothing scheduled.
    match isolate.settle(Op::Sync(vec![5, 6])) {
        DispatchResponse::Sync(buf) => assert_eq!(buf, vec![5, 6]),
        _ => panic!("a synchronous outcome must be answered synchronously"),
    }
    // An asynchronous outcome is answered as a fresh promise id.
    match isolate.settle(Op::Async) {
        DispatchResponse::Promised(pid) => assert_eq!(pid, 1),
        _ => panic!("an asynchronous outcome must be answered with a promise id"),
    }
    match isolate.settle(Op::Async) {
        DispatchResponse::Promised(pid) => assert_eq!(pid, 2),
        _ => panic!("an asynchronous outcome must be answered with a promise id"),
    }
}

#[test]
fn get_next_promise_id_is_monotonic() {
    let mut isolate = Isolate::new(StartupData::Empty, Config::default());
    let a = isolate.get_next_promise_id();
    let b = isolate.get_next_promise_id();
    assert_eq!(a, 1);
    assert_eq!(b, 2);
}

#[test]
fn shared_init_runs_once() {
    let mut isolate = Isolate::new(StartupData::Empty, Config::default());
    assert!(isolate.shared_init());
    assert!(!isolate.shared_init());
}
