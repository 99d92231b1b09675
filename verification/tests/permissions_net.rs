//! The permission checkpoint and the network call decisions built on it.

use exec_core::errors::CoreError;
use exec_core::net::op_accept;
use exec_core::net::op_dial;
use exec_core::net::op_listen;
use exec_core::net::op_shutdown;
use exec_core::net::register_tcp_listener;
use exec_core::net::register_tcp_stream;
use exec_core::net::ShutdownMode;
use exec_core::permissions::Permissions;
use exec_core::permissions::UrlParts;
use exec_core::resources::new_resource_table;
use exec_core::state::State;

#[test]
fn denied_dial_registers_nothing() {
    // A network call to a disallowed host and port returns a typed
    // permission error; no handle is registered and no connection is
    // authorized.
    let mut perms = Permissions::deny_all();
    perms.net_allowlist.push(("example.com".to_string(), 443));
    let mut table = new_resource_table();
    let before = table.entries().len();
    let r = op_dial(&perms, "tcp", "forbidden.example", 80);
    assert_eq!(r, Err(CoreError::PermissionDenied));
    // Same host, wrong port: still refused.
    let r = op_dial(&perms, "tcp", "example.com", 80);
    assert_eq!(r, Err(CoreError::PermissionDenied));
    assert_eq!(table.entries().len(), before);
    // The allow-listed pair passes, and only then is a stream registered.
    assert!(op_dial(&perms, "tcp", "example.com", 443).is_ok());
    let rid = register_tcp_stream(&mut table, 9);
    assert_eq!(table.entries().len(), before + 1);
    assert!(table.has(rid));
}

#[test]
fn listen_and_accept_flow() {
    let perms = Permissions::allow_all();
    let mut table = new_resource_table();
    assert!(op_listen(&perms, "tcp", "127.0.0.1", 4500).is_ok());
    let rid = register_tcp_listener(&mut table, 31);
    // Accept resolves the listener's slot; a non-listener handle is a bad
    // resource.
    assert_eq!(op_accept(&table, rid), Ok(31));
    assert_eq!(op_accept(&table, 0), Err(CoreError::BadResource));
    assert_eq!(op_accept(&table, 999), Err(CoreError::BadResource));
}

#[test]
fn shutdown_modes_and_bad_resource() {
    let mut table = new_resource_table();
    let rid = register_tcp_stream(&mut table, 5);
    assert_eq!(op_shutdown(&table, rid, 0), Ok((5, ShutdownMode::Read)));
    assert_eq!(op_shutdown(&table, rid, 1), Ok((5, ShutdownMode::Write)));
    assert_eq!(op_shutdown(&table, 0, 0), Err(CoreError::BadResource));
}

#[test]
fn check_net_url_uses_known_ports() {
    let mut perms = Permissions::deny_all();
    perms.net_allowlist.push(("example.com".to_string(), 443));
    let u = UrlParts {
        scheme: "https".to_string(),
        host: "example.com".to_string(),
        port: None,
        path: "/".to_string(),
    };
    assert!(perms.check_net_url(&u).is_ok());
    let u = UrlParts {
        scheme: "http".to_string(),
        host: "example.com".to_string(),
        port: None,
        path: "/".to_string(),
    };
    assert_eq!(perms.check_net_url(&u), Err(CoreError::PermissionDenied));
    let u = UrlParts {
        scheme: "gopher".to_string(),
        host: "example.com".to_string(),
        port: None,
        path: "/".to_string(),
    };
    assert_eq!(perms.check_net_url(&u), Err(CoreError::PermissionDenied));
}

#[test]
fn check_dyn_import_by_scheme() {
    let state = {
        let mut perms = Permissions::deny_all();
        perms.net_allowlist.push(("deno.land".to_string(), 443));
        perms.read_allowlist.push("/src/main.ts".to_string());
        State::new("main.ts".to_string(), perms, None, false)
    };
    let web = UrlParts {
        scheme: "https".to_string(),
        host: "deno.land".to_string(),
        port: None,
        path: "/std/http.ts".to_string(),
    };
    assert!(state.check_dyn_import(&web).is_ok());
    let file = UrlParts {
        scheme: "file".to_string(),
        host: String::new(),
        port: None,
        path: "/src/main.ts".to_string(),
    };
    assert!(state.check_dyn_import(&file).is_ok());
    let other_file = UrlParts {
        scheme: "file".to_string(),
        host: String::new(),
        port: None,
        path: "/etc/shadow".to_string(),
    };
    assert_eq!(state.check_dyn_import(&other_file), Err(CoreError::PermissionDenied));
    let odd = UrlParts {
        scheme: "data".to_string(),
        host: String::new(),
        port: None,
        path: "text".to_string(),
    };
    assert_eq!(state.check_dyn_import(&odd), Err(CoreError::PermissionDenied));
}

#[test]
fn check_dyn_import_from_specifier_text() {
    let state = {
        let mut perms = Permissions::deny_all();
        perms.net_allowlist.push(("deno.land".to_string(), 443));
        perms.read_allowlist.push("/src/main.ts".to_string());
        State::new("main.ts".to_string(), perms, None, false)
    };
    // The parsed scheme, host and path drive the decision, so a handed-back
    // unparsed text could not pass these checks.
    assert!(state.check_dyn_import_specifier("https://deno.land/std/http.ts").is_ok());
    assert_eq!(
        state.check_dyn_import_specifier("https://evil.example/x.ts"),
        Err(CoreError::PermissionDenied)
    );
    assert!(state.check_dyn_import_specifier("file:///src/main.ts").is_ok());
    assert_eq!(
        state.check_dyn_import_specifier("data:text/plain,hello"),
        Err(CoreError::PermissionDenied)
    );
    // Text that is no locator at all is refused.
    assert_eq!(
        state.check_dyn_import_specifier("not a url"),
        Err(CoreError::PermissionDenied)
    );
}

#[test]
fn flag_checks() {
    let allow = Permissions::allow_all();
    let deny = Permissions::deny_all();
    assert!(allow.check_env().is_ok());
    assert!(allow.check_run().is_ok());
    assert!(allow.check_hrtime().is_ok());
    assert!(allow.check_plugin().is_ok());
    assert_eq!(deny.check_env(), Err(CoreError::PermissionDenied));
    assert_eq!(deny.check_run(), Err(CoreError::PermissionDenied));
    assert_eq!(deny.check_hrtime(), Err(CoreError::PermissionDenied));
    assert_eq!(deny.check_plugin(), Err(CoreError::PermissionDenied));
    assert!(deny.check_read("/anything").is_err());
    assert!(allow.check_write("/anything").is_ok());
}
