//! End-to-end exercises of the session engine: login, the auth gate,
//! renaming, transfers, TLS upgrade, timeouts and error mapping.

use libunftp::chancomms::{Event, InternalMsg};
use libunftp::command::{AuthParam, Command, ModeParam, StruParam};
use libunftp::controlchan::{handle_command, handle_event, Effect, HandlerCtx, TransferKind};
use libunftp::commands::allo::Allo;
use libunftp::commands::pwd::Pwd;
use libunftp::commands::type_::Type;
use libunftp::error::{ControlChanError, ControlChanErrorKind, ParseErrorKind};
use libunftp::eventloop::{loop_step, service_ready_reply, LoopEvent, TransportChange};
use libunftp::outcome::{
    auth_result_msg, cwd_apply, cwd_check_msg, mdtm_result_msg, mkd_result_msg, pasv_bind_apply,
    removal_result_msg, rename_result_msg, size_result_msg,
};
use libunftp::proxy_protocol::Ipv4Addr;
use libunftp::reply::{Reply, ReplyCode};
use libunftp::session::{Session, SessionState};
use libunftp::storage::{Error, ErrorKind, FileInfo};

fn ctx_plain() -> HandlerCtx {
    HandlerCtx {
        tls_configured: false,
        passive_ports_start: 49152,
        passive_ports_end: 65534,
        local_ip: Ipv4Addr { a: 127, b: 0, c: 0, d: 0 },
        storage_features: 0,
        proxy_mode: false,
    }
}

fn ctx_tls() -> HandlerCtx {
    HandlerCtx { tls_configured: true, ..ctx_plain() }
}

fn cmd(c: Command<String>) -> LoopEvent<String> {
    LoopEvent::Ev { event: Event::Command { cmd: c } }
}

fn internal(m: InternalMsg<String>) -> LoopEvent<String> {
    LoopEvent::Ev { event: Event::InternalMsg { msg: m } }
}

fn login(session: &mut Session, ctx: &HandlerCtx) {
    let out = handle_command(
        Command::User { username: "anonymous".to_string() },
        session,
        ctx,
    );
    assert_eq!(out.reply.code(), Some(ReplyCode::UsernameOkayNeedPassword));
    let out = handle_command(Command::Pass { password: "a@b".to_string() }, session, ctx);
    assert!(out.reply.is_suppressed());
    match out.effect {
        Some(Effect::Authenticate { username, password }) => {
            assert_eq!(username, "anonymous");
            assert_eq!(password, "a@b");
        }
        _ => panic!("PASS must request authentication"),
    }
    let out = handle_event(
        Event::InternalMsg { msg: auth_result_msg(true) },
        session,
        ctx,
    );
    assert_eq!(out.reply.render(), "230 User logged in, proceed\r\n");
    assert!(matches!(session.state, SessionState::WaitCmd));
}

#[test]
fn happy_login_binary_pwd() {
    let ctx = ctx_plain();
    let mut session = Session::new();
    assert_eq!(
        service_ready_reply("Welcome to the libunftp FTP server").render(),
        "220 Welcome to the libunftp FTP server\r\n"
    );
    let out = loop_step(
        cmd(Command::User { username: "anonymous".to_string() }),
        &mut session,
        &ctx,
    );
    assert_eq!(out.reply.render(), "331 Password required\r\n");
    let out = loop_step(
        cmd(Command::Pass { password: "a@b".to_string() }),
        &mut session,
        &ctx,
    );
    assert!(out.reply.is_suppressed());
    assert!(matches!(out.effect, Some(Effect::Authenticate { .. })));
    let out = loop_step(internal(auth_result_msg(true)), &mut session, &ctx);
    assert_eq!(out.reply.render(), "230 User logged in, proceed\r\n");
    let out = loop_step(cmd(Command::Type), &mut session, &ctx);
    assert_eq!(out.reply.render(), "200 Always in binary mode\r\n");
    let out = loop_step(cmd(Command::Pwd), &mut session, &ctx);
    assert_eq!(out.reply.render(), "257 \"/\"\r\n");
    let out = loop_step(cmd(Command::Quit), &mut session, &ctx);
    assert!(out.reply.is_suppressed());
    let quit = match out.effect {
        Some(Effect::SendInternal { msg }) => msg,
        _ => panic!("QUIT must route through the internal channel"),
    };
    let out = loop_step(internal(quit), &mut session, &ctx);
    assert_eq!(out.reply.render(), "221 Bye!\r\n");
    assert!(out.close);
}

#[test]
fn command_before_auth_is_rejected() {
    let ctx = ctx_plain();
    let mut session = Session::new();
    let out = loop_step(cmd(Command::List { path: None }), &mut session, &ctx);
    assert_eq!(out.reply.render(), "530 Please authenticate\r\n");
    assert!(out.effect.is_none());
    assert!(!out.close);
    assert!(matches!(session.state, SessionState::Start));
}

#[test]
fn rename_sequence() {
    let ctx = ctx_plain();
    let mut session = Session::new();
    login(&mut session, &ctx);
    let out = handle_command(Command::Rnfr { file: "old.txt".to_string() }, &mut session, &ctx);
    assert_eq!(out.reply.code(), Some(ReplyCode::FileActionPending));
    assert_eq!(session.rename_from.as_deref(), Some("/old.txt"));
    let out = handle_command(Command::Rnto { file: "new.txt".to_string() }, &mut session, &ctx);
    assert!(out.reply.is_suppressed());
    match out.effect {
        Some(Effect::StorageRename { from, to }) => {
            assert_eq!(from, "/old.txt");
            assert_eq!(to, "/new.txt");
        }
        _ => panic!("RNTO must request the rename"),
    }
    assert!(session.rename_from.is_none());
    let out = handle_event(
        Event::InternalMsg { msg: rename_result_msg(Ok(())) },
        &mut session,
        &ctx,
    );
    assert_eq!(out.reply.render(), "250 File renamed\r\n");
}

#[test]
fn rnto_without_rnfr_is_bad_sequence() {
    let ctx = ctx_plain();
    let mut session = Session::new();
    login(&mut session, &ctx);
    let out = handle_command(Command::Rnto { file: "new.txt".to_string() }, &mut session, &ctx);
    assert_eq!(out.reply.render(), "503 Bad sequence of commands\r\n");
}

#[test]
fn rename_from_cleared_by_intervening_command() {
    let ctx = ctx_plain();
    let mut session = Session::new();
    login(&mut session, &ctx);
    handle_command(Command::Rnfr { file: "old.txt".to_string() }, &mut session, &ctx);
    // An exempt command leaves the pending rename in place.
    handle_command(Command::Feat, &mut session, &ctx);
    assert!(session.rename_from.is_some());
    // A non-exempt command clears it.
    handle_command(Command::Noop, &mut session, &ctx);
    assert!(session.rename_from.is_none());
}

#[test]
fn rename_failure_maps_through_error_table() {
    let ctx = ctx_plain();
    let mut session = Session::new();
    login(&mut session, &ctx);
    let out = handle_event(
        Event::InternalMsg {
            msg: rename_result_msg(Err(Error::from(ErrorKind::PermanentFileNotAvailable))),
        },
        &mut session,
        &ctx,
    );
    assert_eq!(out.reply.render(), "550 File not found\r\n");
}

#[test]
fn idle_timeout_closes_with_421() {
    let ctx = ctx_plain();
    let mut session = Session::new();
    let out = loop_step(LoopEvent::Timeout, &mut session, &ctx);
    assert_eq!(
        out.reply.render(),
        "421 Session timed out. Closing control connection\r\n"
    );
    assert!(out.close);
}

#[test]
fn tls_upgrade_flow() {
    let ctx = ctx_tls();
    let mut session = Session::new();
    let out = loop_step(
        cmd(Command::Auth { protocol: AuthParam::Tls }),
        &mut session,
        &ctx,
    );
    assert_eq!(out.reply.render(), "234 Switching to TLS\r\n");
    let upgrade = match out.effect {
        Some(Effect::SendInternal { msg }) => msg,
        _ => panic!("AUTH TLS must schedule the upgrade"),
    };
    let out = loop_step(internal(upgrade), &mut session, &ctx);
    assert!(out.reply.is_suppressed());
    assert_eq!(out.transport, TransportChange::ToTls);
    assert!(session.cmd_tls);
    // The session continues normally on the encrypted channel.
    let out = loop_step(
        cmd(Command::User { username: "anonymous".to_string() }),
        &mut session,
        &ctx,
    );
    assert_eq!(out.reply.render(), "331 Password required\r\n");
    // A second AUTH TLS is refused.
    let out = loop_step(
        cmd(Command::Auth { protocol: AuthParam::Tls }),
        &mut session,
        &ctx,
    );
    assert_eq!(out.reply.render(), "534 Already secure\r\n");
}

#[test]
fn auth_without_tls_material_is_502() {
    let ctx = ctx_plain();
    let mut session = Session::new();
    // AUTH is auth-exempt and refused for want of TLS material.
    let out = loop_step(
        cmd(Command::Auth { protocol: AuthParam::Tls }),
        &mut session,
        &ctx,
    );
    assert_eq!(out.reply.code(), Some(ReplyCode::CommandNotImplemented));
    // PBSZ, CCC and PROT reach their handlers only once logged in;
    // without TLS material they are likewise refused.
    login(&mut session, &ctx);
    for c in [
        Command::Pbsz,
        Command::Ccc,
        Command::Prot { param: libunftp::command::ProtParam::Private },
    ] {
        let out = loop_step(cmd(c), &mut session, &ctx);
        assert_eq!(out.reply.code(), Some(ReplyCode::CommandNotImplemented));
    }
}

#[test]
fn prot_levels() {
    let ctx = ctx_tls();
    let mut session = Session::new();
    login(&mut session, &ctx);
    let out = handle_command(
        Command::Prot { param: libunftp::command::ProtParam::Private },
        &mut session,
        &ctx,
    );
    assert_eq!(out.reply.code(), Some(ReplyCode::CommandOkay));
    assert!(session.data_tls);
    let out = handle_command(
        Command::Prot { param: libunftp::command::ProtParam::Clear },
        &mut session,
        &ctx,
    );
    assert_eq!(out.reply.code(), Some(ReplyCode::CommandOkay));
    assert!(!session.data_tls);
    let out = handle_command(
        Command::Prot { param: libunftp::command::ProtParam::Safe },
        &mut session,
        &ctx,
    );
    assert_eq!(
        out.reply.code(),
        Some(ReplyCode::CommandNotImplementedForParameter)
    );
}

#[test]
fn two_abors_both_answer_226() {
    let ctx = ctx_plain();
    let mut session = Session::new();
    login(&mut session, &ctx);
    session.active_transfer = true;
    let out = handle_command(Command::Abor, &mut session, &ctx);
    assert_eq!(out.reply.render(), "226 Closed data channel\r\n");
    assert!(matches!(out.effect, Some(Effect::SignalAbort)));
    let out = handle_command(Command::Abor, &mut session, &ctx);
    assert_eq!(out.reply.render(), "226 Data channel already closed\r\n");
    assert!(out.effect.is_none());
}

#[test]
fn rest_pasv_retr_flow() {
    let ctx = ctx_plain();
    let mut session = Session::new();
    login(&mut session, &ctx);
    let out = handle_command(Command::Rest { offset: 1024 }, &mut session, &ctx);
    assert_eq!(out.reply.render(), "350 Restart position accepted\r\n");
    assert_eq!(session.start_pos, 1024);
    let out = handle_command(Command::Pasv, &mut session, &ctx);
    assert!(out.reply.is_suppressed());
    assert!(matches!(out.effect, Some(Effect::BindPassive)));
    let reply = pasv_bind_apply(
        &mut session,
        Ipv4Addr { a: 127, b: 0, c: 0, d: 1 },
        Some(40000),
    );
    assert_eq!(reply.render(), "227 Entering Passive Mode (127,0,0,1,156,64)\r\n");
    assert!(session.data_conn);
    let out = handle_command(Command::Retr { path: "f.bin".to_string() }, &mut session, &ctx);
    assert_eq!(
        out.reply.render(),
        "150 File status okay; about to open data connection\r\n"
    );
    match out.effect {
        Some(Effect::StartTransfer { kind, path, start }) => {
            assert!(matches!(kind, TransferKind::Retr));
            assert_eq!(path.as_deref(), Some("/f.bin"));
            assert_eq!(start, 1024);
        }
        _ => panic!("RETR must start the pump"),
    }
    assert!(!session.data_conn);
    assert!(session.active_transfer);
    assert_eq!(session.start_pos, 0);
    let out = handle_event(
        Event::InternalMsg { msg: InternalMsg::SendData { bytes: 9000 } },
        &mut session,
        &ctx,
    );
    assert_eq!(out.reply.render(), "226 Successfully sent\r\n");
    assert!(!session.active_transfer);
}

#[test]
fn transfer_without_pasv_is_425() {
    let ctx = ctx_plain();
    let mut session = Session::new();
    login(&mut session, &ctx);
    let out = handle_command(Command::Stor { path: "f".to_string() }, &mut session, &ctx);
    assert_eq!(out.reply.render(), "425 No data connection established\r\n");
}

#[test]
fn pasv_exhaustion_is_425() {
    let ctx = ctx_plain();
    let mut session = Session::new();
    let reply = pasv_bind_apply(&mut session, Ipv4Addr { a: 127, b: 0, c: 0, d: 1 }, None);
    assert_eq!(reply.render(), "425 No data ports available\r\n");
    assert!(!session.data_conn);
}

#[test]
fn feat_without_tls() {
    let ctx = ctx_plain();
    let mut session = Session::new();
    let out = handle_command(Command::Feat, &mut session, &ctx);
    assert_eq!(
        out.reply.render(),
        "211-Extensions supported:\r\n211-UTF8\r\n211-SIZE\r\n211-MDTM\r\n211-REST STREAM\r\n211 End\r\n"
    );
}

#[test]
fn feat_with_tls_advertises_auth() {
    let ctx = ctx_tls();
    let mut session = Session::new();
    let out = handle_command(Command::Feat, &mut session, &ctx);
    assert_eq!(
        out.reply.render(),
        "211-Extensions supported:\r\n211-UTF8\r\n211-AUTH TLS\r\n211-PBSZ\r\n211-PROT\r\n211-SIZE\r\n211-MDTM\r\n211-REST STREAM\r\n211 End\r\n"
    );
}

#[test]
fn simple_verbs() {
    let ctx = ctx_plain();
    let mut session = Session::new();
    login(&mut session, &ctx);
    let cases: Vec<(Command<String>, &str)> = vec![
        (Command::Syst, "215 UNIX Type: L8\r\n"),
        (Command::Noop, "200 Successfully did nothing\r\n"),
        (Command::Allo, "202 Ignored\r\n"),
        (Command::Acct { account: "x".to_string() }, "202 Account not supported\r\n"),
        (Command::Port, "502 ACTIVE mode is not supported\r\n"),
        (Command::Stru { structure: StruParam::File }, "200 OK\r\n"),
        (Command::Stru { structure: StruParam::Record }, "504 Structure not supported\r\n"),
        (Command::Mode { mode: ModeParam::Stream }, "200 OK\r\n"),
        (Command::Mode { mode: ModeParam::Block }, "504 Mode not supported\r\n"),
        (Command::Help, "214 Help is on the way\r\n"),
    ];
    for (c, expect) in cases {
        let out = handle_command(c, &mut session, &ctx);
        assert_eq!(out.reply.render(), expect);
    }
}

#[test]
fn user_in_waitcmd_returns_to_waitpass() {
    let ctx = ctx_plain();
    let mut session = Session::new();
    login(&mut session, &ctx);
    let out = handle_command(Command::User { username: "other".to_string() }, &mut session, &ctx);
    assert_eq!(out.reply.code(), Some(ReplyCode::UsernameOkayNeedPassword));
    assert!(matches!(&session.state, SessionState::WaitPass { username } if username == "other"));
    assert!(session.user.is_none());
}

#[test]
fn pass_without_user_is_bad_sequence() {
    let ctx = ctx_plain();
    let mut session = Session::new();
    let out = handle_command(Command::Pass { password: "x".to_string() }, &mut session, &ctx);
    assert_eq!(out.reply.render(), "503 Please provide a username first\r\n");
}

#[test]
fn failed_auth_returns_to_start() {
    let ctx = ctx_plain();
    let mut session = Session::new();
    handle_command(Command::User { username: "u".to_string() }, &mut session, &ctx);
    handle_command(Command::Pass { password: "bad".to_string() }, &mut session, &ctx);
    let out = handle_event(
        Event::InternalMsg { msg: auth_result_msg(false) },
        &mut session,
        &ctx,
    );
    assert_eq!(out.reply.render(), "530 Authentication failed\r\n");
    assert!(matches!(session.state, SessionState::Start));
    assert!(session.user.is_none());
}

#[test]
fn cwd_then_pwd_round_trip() {
    let ctx = ctx_plain();
    let mut session = Session::new();
    login(&mut session, &ctx);
    let out = handle_command(Command::Cwd { path: "/a/b".to_string() }, &mut session, &ctx);
    let target = match out.effect {
        Some(Effect::StorageCwd { path }) => path,
        _ => panic!("CWD must request the directory check"),
    };
    assert_eq!(target, "/a/b");
    let (apply, msg) = cwd_check_msg(Ok(FileInfo {
        size: 0,
        mtime_secs: 0,
        is_dir: true,
        is_file: false,
    }));
    assert!(apply);
    cwd_apply(&mut session, target);
    let out = handle_event(Event::InternalMsg { msg }, &mut session, &ctx);
    assert_eq!(out.reply.render(), "250 Successfully cwd\r\n");
    let out = handle_command(Command::Pwd, &mut session, &ctx);
    assert_eq!(out.reply.render(), "257 \"/a/b\"\r\n");
}

#[test]
fn cwd_to_non_directory_is_550() {
    let (apply, msg) = cwd_check_msg(Ok(FileInfo {
        size: 7,
        mtime_secs: 0,
        is_dir: false,
        is_file: true,
    }));
    assert!(!apply);
    let ctx = ctx_plain();
    let mut session = Session::new();
    let out = handle_event(Event::InternalMsg { msg }, &mut session, &ctx);
    assert_eq!(out.reply.render(), "550 File not found\r\n");
}

#[test]
fn cdup_resolves_dot_dot() {
    let ctx = ctx_plain();
    let mut session = Session::new();
    login(&mut session, &ctx);
    cwd_apply(&mut session, "/a/b".to_string());
    let out = handle_command(Command::Cdup, &mut session, &ctx);
    match out.effect {
        Some(Effect::StorageCwd { path }) => assert_eq!(path, "/a"),
        _ => panic!("CDUP must request the directory check"),
    }
}

#[test]
fn pwd_doubles_embedded_quotes() {
    let ctx = ctx_plain();
    let mut session = Session::new();
    cwd_apply(&mut session, "/a\"b".to_string());
    let out = handle_command(Command::Pwd, &mut session, &ctx);
    assert_eq!(out.reply.render(), "257 \"/a\"\"b\"\r\n");
}

#[test]
fn mkd_flow() {
    let ctx = ctx_plain();
    let mut session = Session::new();
    login(&mut session, &ctx);
    let out = handle_command(Command::Mkd { path: "dir".to_string() }, &mut session, &ctx);
    let path = match out.effect {
        Some(Effect::StorageMkd { path }) => path,
        _ => panic!("MKD must request the operation"),
    };
    assert_eq!(path, "/dir");
    let out = handle_event(
        Event::InternalMsg { msg: mkd_result_msg(path, Ok(())) },
        &mut session,
        &ctx,
    );
    assert_eq!(out.reply.render(), "257 /dir\r\n");
}

#[test]
fn dele_flow() {
    let ctx = ctx_plain();
    let mut session = Session::new();
    login(&mut session, &ctx);
    let out = handle_command(Command::Dele { path: "f".to_string() }, &mut session, &ctx);
    assert!(matches!(out.effect, Some(Effect::StorageDele { .. })));
    let out = handle_event(
        Event::InternalMsg { msg: removal_result_msg(Ok(())) },
        &mut session,
        &ctx,
    );
    assert_eq!(out.reply.render(), "250 File successfully removed\r\n");
    let out = handle_event(
        Event::InternalMsg {
            msg: removal_result_msg(Err(Error::from(ErrorKind::PermissionDenied))),
        },
        &mut session,
        &ctx,
    );
    assert_eq!(out.reply.render(), "550 Permission denied\r\n");
}

#[test]
fn size_flow() {
    let ctx = ctx_plain();
    let mut session = Session::new();
    login(&mut session, &ctx);
    let out = handle_command(Command::Size { file: "f".to_string() }, &mut session, &ctx);
    assert!(matches!(out.effect, Some(Effect::StorageSize { .. })));
    let msg = size_result_msg(Ok(FileInfo { size: 1234, mtime_secs: 0, is_dir: false, is_file: true }));
    let out = handle_event(Event::InternalMsg { msg }, &mut session, &ctx);
    assert_eq!(out.reply.render(), "213 1234\r\n");
    let msg = size_result_msg(Ok(FileInfo { size: 0, mtime_secs: 0, is_dir: true, is_file: false }));
    let out = handle_event(Event::InternalMsg { msg }, &mut session, &ctx);
    assert_eq!(out.reply.render(), "550 File not found\r\n");
}

#[test]
fn mdtm_flow() {
    let ctx = ctx_plain();
    let mut session = Session::new();
    let msg = mdtm_result_msg(Ok(FileInfo {
        size: 0,
        mtime_secs: 1234567890,
        is_dir: false,
        is_file: true,
    }));
    let out = handle_event(Event::InternalMsg { msg }, &mut session, &ctx);
    assert_eq!(out.reply.render(), "213 20090213233130\r\n");
    // A time past year 9999 does not fit the format.
    let msg = mdtm_result_msg(Ok(FileInfo {
        size: 0,
        mtime_secs: 253402300800,
        is_dir: false,
        is_file: true,
    }));
    let out = handle_event(Event::InternalMsg { msg }, &mut session, &ctx);
    assert_eq!(out.reply.render(), "451 Local error\r\n");
}

#[test]
fn storage_error_table() {
    let ctx = ctx_plain();
    let mut session = Session::new();
    let cases = [
        (ErrorKind::TransientFileNotAvailable, "450 File not found\r\n"),
        (ErrorKind::PermanentFileNotAvailable, "550 File not found\r\n"),
        (ErrorKind::PermissionDenied, "550 Permission denied\r\n"),
        (ErrorKind::LocalError, "451 Local error\r\n"),
        (ErrorKind::PageTypeUnknown, "551 Page type unknown\r\n"),
        (ErrorKind::InsufficientStorageSpaceError, "452 Insufficient storage space\r\n"),
        (ErrorKind::ExceededStorageAllocationError, "552 Exceeded storage allocation\r\n"),
        (ErrorKind::FileNameNotAllowedError, "553 File name not allowed\r\n"),
    ];
    for (kind, expect) in cases {
        let out = handle_event(
            Event::InternalMsg { msg: InternalMsg::StorageError { error: Error::from(kind) } },
            &mut session,
            &ctx,
        );
        assert_eq!(out.reply.render(), expect);
        assert_eq!(Error::from(kind).kind(), kind);
    }
}

#[test]
fn control_chan_error_table() {
    let ctx = ctx_plain();
    let mut session = Session::new();
    let out = loop_step(
        LoopEvent::ChanErr {
            kind: ControlChanErrorKind::UnknownCommand { command: "XYZZY".to_string() },
        },
        &mut session,
        &ctx,
    );
    assert_eq!(out.reply.render(), "500 Command not implemented\r\n");
    assert!(!out.close);
    let out = loop_step(
        LoopEvent::ChanErr { kind: ControlChanErrorKind::UTF8Error },
        &mut session,
        &ctx,
    );
    assert_eq!(out.reply.render(), "501 Invalid UTF8\r\n");
    assert!(!out.close);
    let out = loop_step(
        LoopEvent::ChanErr { kind: ControlChanErrorKind::InvalidCommand },
        &mut session,
        &ctx,
    );
    assert_eq!(out.reply.render(), "501 Invalid Parameter\r\n");
    assert!(!out.close);
    let out = loop_step(
        LoopEvent::ChanErr { kind: ControlChanErrorKind::IOError },
        &mut session,
        &ctx,
    );
    assert_eq!(out.reply.code(), Some(ReplyCode::ServiceNotAvailable));
    assert!(out.close);
}

#[test]
fn parse_error_kinds_map_to_control_chan_kinds() {
    let e = ControlChanError::from(ParseErrorKind::UnknownCommand { command: "Q".to_string() });
    assert!(matches!(e.kind(), ControlChanErrorKind::UnknownCommand { .. }));
    let e = ControlChanError::from(ParseErrorKind::InvalidUTF8);
    assert!(matches!(e.kind(), ControlChanErrorKind::UTF8Error));
    let e = ControlChanError::from(ParseErrorKind::InvalidCommand);
    assert!(matches!(e.kind(), ControlChanErrorKind::InvalidCommand));
    let e = ControlChanError::from(ParseErrorKind::InvalidToken { token: '\u{7}' });
    assert!(matches!(e.kind(), ControlChanErrorKind::UTF8Error));
    let e = ControlChanError::new(ControlChanErrorKind::ControlChannelTimeout);
    assert!(matches!(e.kind(), ControlChanErrorKind::ControlChannelTimeout));
}

#[test]
fn proxy_mode_pasv_defers() {
    let ctx = HandlerCtx { proxy_mode: true, ..ctx_plain() };
    let mut session = Session::new();
    login(&mut session, &ctx);
    let out = handle_command(Command::Pasv, &mut session, &ctx);
    assert!(out.reply.is_suppressed());
    assert!(matches!(out.effect, Some(Effect::ProxyAssignPort)));
}

#[test]
fn handler_structs_answer_like_the_dispatcher() {
    let session = Session::new();
    assert_eq!(Pwd.execute(&session).render(), "257 \"/\"\r\n");
    assert_eq!(Allo.handle().render(), "202 Ignored\r\n");
    assert_eq!(Type.handle().render(), "200 Always in binary mode\r\n");
}

#[test]
fn list_and_stou_flows() {
    let ctx = ctx_plain();
    let mut session = Session::new();
    login(&mut session, &ctx);
    session.data_conn = true;
    let out = handle_command(Command::List { path: None }, &mut session, &ctx);
    assert_eq!(out.reply.code(), Some(ReplyCode::FileStatusOkay));
    match out.effect {
        Some(Effect::StartTransfer { kind, path, start }) => {
            assert!(matches!(kind, TransferKind::List));
            assert!(path.is_none());
            assert_eq!(start, 0);
        }
        _ => panic!("LIST must start the pump"),
    }
    let out = handle_event(
        Event::InternalMsg { msg: InternalMsg::DirectorySuccessfullyListed },
        &mut session,
        &ctx,
    );
    assert_eq!(out.reply.render(), "226 Listed the directory\r\n");
    session.data_conn = true;
    let out = handle_command(Command::Stou, &mut session, &ctx);
    match out.effect {
        Some(Effect::StartTransfer { kind, path, .. }) => {
            assert!(matches!(kind, TransferKind::Stou));
            assert!(path.is_none());
        }
        _ => panic!("STOU must start the pump"),
    }
}

#[test]
fn appe_ignores_restart_offset() {
    let ctx = ctx_plain();
    let mut session = Session::new();
    login(&mut session, &ctx);
    handle_command(Command::Rest { offset: 77 }, &mut session, &ctx);
    session.data_conn = true;
    let out = handle_command(Command::Appe { path: "f".to_string() }, &mut session, &ctx);
    match out.effect {
        Some(Effect::StartTransfer { start, .. }) => assert_eq!(start, 0),
        _ => panic!("APPE must start the pump"),
    }
    // The offset is kept for a later RETR or STOR.
    assert_eq!(session.start_pos, 77);
}

#[test]
fn stat_and_opts() {
    let ctx = ctx_plain();
    let mut session = Session::new();
    login(&mut session, &ctx);
    let out = handle_command(Command::Stat { path: None }, &mut session, &ctx);
    assert_eq!(out.reply.render(), "211 Server status: healthy\r\n");
    let out = handle_command(
        Command::Opts { option: libunftp::command::OptsOption::Utf8 },
        &mut session,
        &ctx,
    );
    assert_eq!(out.reply.render(), "200 Always in UTF-8 mode\r\n");
}

#[test]
fn transfer_failures_clear_the_abort_signal() {
    let ctx = ctx_plain();
    let mut session = Session::new();
    login(&mut session, &ctx);
    for (msg, expect) in [
        (InternalMsg::WriteFailed, "450 Failed to write file\r\n"),
        (InternalMsg::ConnectionReset, "426 Datachannel unexpectedly closed\r\n"),
        (InternalMsg::UnknownRetrieveError, "450 Unknown Error\r\n"),
    ] {
        session.active_transfer = true;
        let out = handle_event(Event::InternalMsg { msg }, &mut session, &ctx);
        assert_eq!(out.reply.render(), expect);
        assert!(!session.active_transfer);
    }
}
