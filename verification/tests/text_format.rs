//! Text building blocks: path resolution, quoting, reply rendering,
//! timestamp formatting, and the server configuration builder.

use libunftp::ftpserver::Server;
use libunftp::path::{pwd_msg, resolve_path};
use libunftp::proxy_protocol::Ipv4Addr;
use libunftp::reply::{Reply, ReplyCode};
use libunftp::timefmt::format_mdtm;

#[test]
fn resolve_relative_and_absolute_paths() {
    assert_eq!(resolve_path("/", "a"), "/a");
    assert_eq!(resolve_path("/", "a/b"), "/a/b");
    assert_eq!(resolve_path("/a/b", "c"), "/a/b/c");
    assert_eq!(resolve_path("/a/b", "/x/y"), "/x/y");
    assert_eq!(resolve_path("/a/b", ".."), "/a");
    assert_eq!(resolve_path("/a/b", "../c"), "/a/c");
    assert_eq!(resolve_path("/a", "./b/./c"), "/a/b/c");
    assert_eq!(resolve_path("/a", "b//c"), "/a/b/c");
    assert_eq!(resolve_path("/a", "b/c/"), "/a/b/c");
}

#[test]
fn resolve_never_escapes_the_root() {
    assert_eq!(resolve_path("/", ".."), "/");
    assert_eq!(resolve_path("/", "../../x"), "/x");
    assert_eq!(resolve_path("/a", "../../.."), "/");
}

#[test]
fn pwd_msg_quotes() {
    assert_eq!(pwd_msg("/"), "\"/\"");
    assert_eq!(pwd_msg("/a/b"), "\"/a/b\"");
    assert_eq!(pwd_msg("/we\"ird"), "\"/we\"\"ird\"");
}

#[test]
fn reply_rendering() {
    assert_eq!(Reply::new(ReplyCode::CommandOkay, "OK").render(), "200 OK\r\n");
    assert_eq!(Reply::none().render(), "");
    assert!(Reply::none().is_suppressed());
    assert_eq!(Reply::none().code(), None);
    let lines = vec!["first".to_string(), "second".to_string(), "last".to_string()];
    let r = Reply::new_multiline(ReplyCode::SystemStatus, lines);
    assert_eq!(r.render(), "211-first\r\n211-second\r\n211 last\r\n");
    assert_eq!(r.code(), Some(ReplyCode::SystemStatus));
}

#[test]
fn reply_code_numbers() {
    assert_eq!(ReplyCode::FileStatusOkay.number(), 150);
    assert_eq!(ReplyCode::EnteringPassiveMode.number(), 227);
    assert_eq!(ReplyCode::UserLoggedIn.number(), 230);
    assert_eq!(ReplyCode::ServiceNotAvailable.number(), 421);
    assert_eq!(ReplyCode::NotLoggedIn.number(), 530);
    assert_eq!(ReplyCode::BadFileName.number(), 553);
}

#[test]
fn mdtm_formatting() {
    assert_eq!(format_mdtm(0), "19700101000000");
    assert_eq!(format_mdtm(1000000000), "20010909014640");
    assert_eq!(format_mdtm(1234567890), "20090213233130");
    // Leap-day boundary.
    assert_eq!(format_mdtm(951782399), "20000228235959");
    assert_eq!(format_mdtm(951782400), "20000229000000");
    // Last representable second.
    assert_eq!(format_mdtm(4102444799), "20991231235959");
    assert_eq!(format_mdtm(253402300799), "99991231235959");
}

#[test]
fn server_builder_defaults() {
    let s = Server::new();
    assert_eq!(s.greeting, "Welcome to the libunftp FTP server");
    assert_eq!(s.passive_ports_start, 49152);
    assert_eq!(s.passive_ports_end, 65534);
    assert!(s.certs_file.is_none());
    assert!(s.certs_password.is_none());
    assert!(!s.collect_metrics);
    assert_eq!(s.idle_session_timeout_secs, 600);
    assert!(s.proxy_protocol_mode.is_none());
    assert!(!s.tls_configured());
}

#[test]
fn server_builder_options() {
    let s = Server::new()
        .greeting("Welcome to my FTP Server")
        .passive_ports(50000, 50010)
        .ftps("/srv/unftp/server-certs.pfx", "thepassword")
        .metrics()
        .idle_session_timeout(180)
        .proxy_protocol_mode(Ipv4Addr { a: 10, b: 0, c: 0, d: 1 }, 2121);
    assert_eq!(s.greeting, "Welcome to my FTP Server");
    assert_eq!(s.passive_ports_start, 50000);
    assert_eq!(s.passive_ports_end, 50010);
    assert_eq!(s.certs_file.as_deref(), Some("/srv/unftp/server-certs.pfx"));
    assert_eq!(s.certs_password.as_deref(), Some("thepassword"));
    assert!(s.collect_metrics);
    assert_eq!(s.idle_session_timeout_secs, 180);
    let params = s.proxy_protocol_mode.unwrap();
    assert_eq!(params.external_control_port, 2121);
    assert!(s.tls_configured());
    let ctx = s.handler_ctx(Ipv4Addr { a: 127, b: 0, c: 0, d: 1 }, 3);
    assert!(ctx.tls_configured);
    assert!(ctx.proxy_mode);
    assert_eq!(ctx.passive_ports_start, 50000);
    assert_eq!(ctx.storage_features, 3);
}
