//! The compiler collaborator's interface: module metadata, the request and
//! response framing, and the merge of a compile response.

use exec_core::compiler::compile_sync;
use exec_core::compiler::decode_compile_response;
use exec_core::compiler::encode_compile_response;
use exec_core::compiler::lazy_start;
use exec_core::compiler::op_compiler_respond;
use exec_core::compiler::req;
use exec_core::compiler::MediaType;
use exec_core::compiler::ModuleMetaData;

fn hello_module() -> ModuleMetaData {
    ModuleMetaData {
        module_name: "xxx".to_string(),
        filename: "/tests/002_hello.ts".to_string(),
        media_type: MediaType::TypeScript,
        source_code: "console.log(\"Hello World\");".to_string(),
        maybe_output_code_filename: None,
        maybe_output_code: None,
        maybe_source_map_filename: None,
        maybe_source_map: None,
    }
}

#[test]
fn test_compile_sync() {
    let specifier = "./tests/002_hello.ts";
    let referrer = "/tests/";
    let out = hello_module();

    // The request names the specifier and referrer for the compiler
    // worker.
    let request = req(specifier, referrer);
    let sb = specifier.as_bytes();
    assert_eq!(&request[..4], &(sb.len() as u32).to_be_bytes());
    assert_eq!(&request[4..4 + sb.len()], sb);
    assert_eq!(&request[4 + sb.len()..], referrer.as_bytes());

    // The compiler answers with compiled output echoing the source.
    let response = encode_compile_response(
        &Some(b"console.log(\"Hello World\");\n//# sourceMappingURL=...".to_vec()),
        &Some(b"{\"mappings\":\"\"}".to_vec()),
    );
    let (output_code, source_map) = decode_compile_response(&response).unwrap();
    let output_code = output_code.map(|b| String::from_utf8(b).unwrap());
    let source_map = source_map.map(|b| String::from_utf8(b).unwrap());
    let out = compile_sync(&out, output_code, source_map);
    assert!(out
        .maybe_output_code
        .unwrap()
        .starts_with("console.log(\"Hello World\");"));
}

#[test]
fn compile_response_round_trip() {
    let cases: Vec<(Option<Vec<u8>>, Option<Vec<u8>>)> = vec![
        (None, None),
        (Some(vec![1, 2, 3]), None),
        (None, Some(vec![4, 5])),
        (Some(Vec::new()), Some(Vec::new())),
        (Some(vec![9; 300]), Some(vec![8; 7])),
    ];
    for (oc, sm) in cases {
        let encoded = encode_compile_response(&oc, &sm);
        let (oc2, sm2) = decode_compile_response(&encoded).unwrap();
        assert_eq!(oc2, oc);
        assert_eq!(sm2, sm);
    }
    // A mangled buffer decodes to nothing.
    assert!(decode_compile_response(&[]).is_none());
    assert!(decode_compile_response(&[2, 0, 0, 0, 0, 0]).is_none());
    assert!(decode_compile_response(&[1, 0, 0, 0, 0, 9]).is_none());
}

#[test]
fn js_source_wraps_json_modules() {
    let mut meta = hello_module();
    meta.media_type = MediaType::Json;
    meta.source_code = "{\"a\":1}".to_string();
    assert_eq!(meta.js_source(), "export default {\"a\":1};");
}

#[test]
fn js_source_prefers_compiled_output() {
    let mut meta = hello_module();
    assert_eq!(meta.js_source(), "console.log(\"Hello World\");");
    meta.maybe_output_code = Some("console.log(1);".to_string());
    assert_eq!(meta.js_source(), "console.log(1);");
}

#[test]
fn compiler_worker_starts_once() {
    let mut slot = None;
    let first = lazy_start(&mut slot, 7);
    assert_eq!(first, 7);
    // Later callers share the same worker, whatever handle they offer.
    let second = lazy_start(&mut slot, 12);
    assert_eq!(second, 7);
}

#[test]
fn compiler_response_is_stored_once() {
    let mut slot: Option<String> = None;
    op_compiler_respond(&mut slot, "{\"outputCode\":\"x\"}".to_string());
    assert_eq!(slot.as_deref(), Some("{\"outputCode\":\"x\"}"));
}
