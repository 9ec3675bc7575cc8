//! The control-channel engine: the handler context, the effects
//! handlers request, the per-verb command dispatcher, the
//! authentication gate and the internal-message handler.
//!
//! Everything here is pure: a command or event comes in, the session is
//! updated, and a reply plus at most one requested effect come out. The
//! caller (the I/O layer) performs the effect and feeds its outcome
//! back as a later event.

use vstd::prelude::*;
use crate::chancomms::{Event, InternalMsg};
use crate::command::{AuthParam, Command, ModeParam, ProtParam, StruParam};
use crate::path::{pwd_msg, resolve_path, spec_pwd_msg, spec_resolve};
use crate::proxy_protocol::Ipv4Addr;
use crate::reply::{one_line, Reply, ReplyCode, ReplyV};
use crate::session::{Session, SessionState, SessionV};
use crate::storage::ErrorKind;

verus! {

/// The per-connection facts the dispatcher needs besides the session:
/// server configuration and connection-local data.
#[derive(Clone, Copy, PartialEq, Eq, Structural, Debug)]
pub struct HandlerCtx {
    /// Whether the server was configured with TLS material.
    pub tls_configured: bool,
    /// First port of the passive range, inclusive.
    pub passive_ports_start: u16,
    /// Last port of the passive range, inclusive.
    pub passive_ports_end: u16,
    /// The local address of the control connection, advertised by a
    /// normal-mode `PASV`.
    pub local_ip: Ipv4Addr,
    /// Feature bits of the storage backend.
    pub storage_features: u32,
    /// Whether the server runs behind a PROXY-protocol proxy.
    pub proxy_mode: bool,
}

/// What kind of data transfer a transfer command starts.
#[derive(Clone, Copy, PartialEq, Eq, Structural, Debug)]
pub enum TransferKind {
    Retr,
    Stor,
    Appe,
    Stou,
    List,
    Nlst,
}

/// An effect a handler asks the I/O layer to perform. At most one per
/// dispatched event. `S` is the string type: `String` in executable
/// code, `Seq<char>` in views.
#[allow(inconsistent_fields)]
pub enum Effect<S> {
    /// Deliver this message to the session's own event loop.
    SendInternal { msg: InternalMsg<S> },
    /// Take the armed data-abort signal and fire it.
    SignalAbort,
    /// Ask the authenticator to check these credentials; feed the
    /// outcome back as `AuthSuccess` or `AuthFailed`.
    Authenticate { username: S, password: S },
    /// Create the directory `path`; feed back `MkdirSuccess` or
    /// `StorageError`.
    StorageMkd { path: S },
    /// Remove the directory `path`; feed back `DelSuccess` or
    /// `StorageError`.
    StorageRmd { path: S },
    /// Delete the file `path`; feed back `DelSuccess` or
    /// `StorageError`.
    StorageDele { path: S },
    /// Rename `from` to `to`; feed back the message
    /// `rename_result_msg` builds from the outcome.
    StorageRename { from: S, to: S },
    /// Fetch metadata of `path` for `SIZE`; feed back the message
    /// `size_result_msg` builds from the outcome.
    StorageSize { path: S },
    /// Fetch metadata of `path` for `MDTM`; feed back the message
    /// `mdtm_result_msg` builds from the outcome.
    StorageMdtm { path: S },
    /// Check that `path` is a directory; on success apply `cwd_apply`
    /// and feed back `CwdSuccess`, otherwise feed back `StorageError`.
    StorageCwd { path: S },
    /// Normal-mode `PASV`: bind a listener on a free port of the
    /// passive range, then apply `pasv_bind_apply` with the outcome.
    BindPassive,
    /// PROXY-mode `PASV`: ask the switchboard to reserve a port; the
    /// reply arrives later as a `CommandChannelReply`.
    ProxyAssignPort,
    /// Start the data pump for this transfer; its completion arrives as
    /// an internal message.
    StartTransfer { kind: TransferKind, path: Option<S>, start: u64 },
}

impl View for Effect<String> {
    type V = Effect<Seq<char>>;

    open spec fn view(&self) -> Effect<Seq<char>> {
        match self {
            Effect::SendInternal { msg } => Effect::SendInternal { msg: msg@ },
            Effect::SignalAbort => Effect::SignalAbort,
            Effect::Authenticate { username, password } => Effect::Authenticate {
                username: username@,
                password: password@,
            },
            Effect::StorageMkd { path } => Effect::StorageMkd { path: path@ },
            Effect::StorageRmd { path } => Effect::StorageRmd { path: path@ },
            Effect::StorageDele { path } => Effect::StorageDele { path: path@ },
            Effect::StorageRename { from, to } => Effect::StorageRename { from: from@, to: to@ },
            Effect::StorageSize { path } => Effect::StorageSize { path: path@ },
            Effect::StorageMdtm { path } => Effect::StorageMdtm { path: path@ },
            Effect::StorageCwd { path } => Effect::StorageCwd { path: path@ },
            Effect::BindPassive => Effect::BindPassive,
            Effect::ProxyAssignPort => Effect::ProxyAssignPort,
            Effect::StartTransfer { kind, path, start } => Effect::StartTransfer {
                kind: *kind,
                path: match path {
                    Some(p) => Some(p@),
                    None => None,
                },
                start: *start,
            },
        }
    }
}

/// What a dispatched event produces: a reply (possibly the suppressed
/// sentinel) and at most one effect for the I/O layer.
pub struct HandlerOut {
    pub reply: Reply,
    pub effect: Option<Effect<String>>,
}

/// The mathematical value of a [`HandlerOut`].
pub struct HandlerOutV {
    pub reply: ReplyV,
    pub effect: Option<Effect<Seq<char>>>,
}

impl View for HandlerOut {
    type V = HandlerOutV;

    open spec fn view(&self) -> HandlerOutV {
        HandlerOutV {
            reply: self.reply@,
            effect: match &self.effect {
                Some(e) => Some(e@),
                None => None,
            },
        }
    }
}

/// A session transition: the session after the step and what came out.
pub struct StepV {
    pub session: SessionV,
    pub out: HandlerOutV,
}

/// Commands exempt from the authentication gate.
pub open spec fn spec_exempt(cmd: Command<Seq<char>>) -> bool {
    ||| cmd is Help
    ||| cmd is User
    ||| cmd is Pass
    ||| cmd is Auth
    ||| cmd is Feat
    ||| cmd is Quit
}

/// Every accepted non-exempt command other than `RNFR` and `RNTO`
/// forgets a pending rename-from.
pub open spec fn spec_clear_rename(cmd: Command<Seq<char>>, s: SessionV) -> SessionV {
    if spec_exempt(cmd) || cmd is Rnfr || cmd is Rnto {
        s
    } else {
        SessionV { rename_from: None, ..s }
    }
}

/// A step that changes nothing and answers with one line.
pub open spec fn spec_reply_only(s: SessionV, code: ReplyCode, msg: Seq<char>) -> StepV {
    StepV { session: s, out: HandlerOutV { reply: one_line(code, msg), effect: None } }
}

/// A step that changes nothing, answers nothing, and requests one
/// effect whose outcome will carry the reply.
pub open spec fn spec_effect_only(s: SessionV, effect: Effect<Seq<char>>) -> StepV {
    StepV { session: s, out: HandlerOutV { reply: ReplyV::NoReply, effect: Some(effect) } }
}

/// The lines of the `FEAT` reply.
pub open spec fn spec_feat_lines(tls_configured: bool) -> Seq<Seq<char>> {
    seq!["Extensions supported:"@, "UTF8"@] + (if tls_configured {
        seq!["AUTH TLS"@, "PBSZ"@, "PROT"@]
    } else {
        Seq::empty()
    }) + seq!["SIZE"@, "MDTM"@, "REST STREAM"@, "End"@]
}

/// A transfer command: with a passive data connection available it is
/// answered `150` and the pump is started (consuming the connection,
/// arming the abort signal, and for `RETR`/`STOR` consuming the restart
/// offset); without one it is refused with `425`.
pub open spec fn spec_transfer(
    s: SessionV,
    kind: TransferKind,
    path: Option<Seq<char>>,
    uses_start: bool,
) -> StepV {
    if s.data_conn {
        let start: u64 = if uses_start {
            s.start_pos
        } else {
            0
        };
        StepV {
            session: SessionV {
                data_conn: false,
                active_transfer: true,
                start_pos: if uses_start {
                    0
                } else {
                    s.start_pos
                },
                ..s
            },
            out: HandlerOutV {
                reply: one_line(
                    ReplyCode::FileStatusOkay,
                    "File status okay; about to open data connection"@,
                ),
                effect: Some(Effect::StartTransfer { kind, path, start }),
            },
        }
    } else {
        spec_reply_only(s, ReplyCode::CantOpenDataConnection, "No data connection established"@)
    }
}

/// The engine's transition for one dispatched command (after the
/// authentication gate): how the session changes, what is replied, and
/// which effect the I/O layer is asked to perform.
pub open spec fn spec_dispatch(cmd: Command<Seq<char>>, s: SessionV, ctx: HandlerCtx) -> StepV {
    let s0 = spec_clear_rename(cmd, s);
    match cmd {
        Command::User { username } => StepV {
            session: SessionV { state: SessionState::WaitPass { username }, user: None, ..s0 },
            out: HandlerOutV {
                reply: one_line(ReplyCode::UsernameOkayNeedPassword, "Password required"@),
                effect: None,
            },
        },
        Command::Pass { password } => match s0.state {
            SessionState::WaitPass { username } => StepV {
                session: s0,
                out: HandlerOutV {
                    reply: ReplyV::NoReply,
                    effect: Some(Effect::Authenticate { username, password }),
                },
            },
            SessionState::Start => spec_reply_only(
                s0,
                ReplyCode::BadCommandSequence,
                "Please provide a username first"@,
            ),
            SessionState::WaitCmd => spec_reply_only(
                s0,
                ReplyCode::BadCommandSequence,
                "Already authenticated"@,
            ),
        },
        Command::Syst => spec_reply_only(s0, ReplyCode::SystemType, "UNIX Type: L8"@),
        Command::Stat { .. } => spec_reply_only(s0, ReplyCode::SystemStatus, "Server status: healthy"@),
        Command::Acct { .. } => spec_reply_only(
            s0,
            ReplyCode::CommandOkayNotImplemented,
            "Account not supported"@,
        ),
        Command::Type => spec_reply_only(s0, ReplyCode::CommandOkay, "Always in binary mode"@),
        Command::Stru { structure } => match structure {
            StruParam::File => spec_reply_only(s0, ReplyCode::CommandOkay, "OK"@),
            _ => spec_reply_only(
                s0,
                ReplyCode::CommandNotImplementedForParameter,
                "Structure not supported"@,
            ),
        },
        Command::Mode { mode } => match mode {
            ModeParam::Stream => spec_reply_only(s0, ReplyCode::CommandOkay, "OK"@),
            _ => spec_reply_only(
                s0,
                ReplyCode::CommandNotImplementedForParameter,
                "Mode not supported"@,
            ),
        },
        Command::Help => spec_reply_only(s0, ReplyCode::HelpMessage, "Help is on the way"@),
        Command::Noop => spec_reply_only(s0, ReplyCode::CommandOkay, "Successfully did nothing"@),
        Command::Pasv => if ctx.proxy_mode {
            spec_effect_only(s0, Effect::ProxyAssignPort)
        } else {
            spec_effect_only(s0, Effect::BindPassive)
        },
        Command::Port => spec_reply_only(
            s0,
            ReplyCode::CommandNotImplemented,
            "ACTIVE mode is not supported"@,
        ),
        Command::Retr { path } => spec_transfer(
            s0,
            TransferKind::Retr,
            Some(spec_resolve(s0.cwd, path)),
            true,
        ),
        Command::Stor { path } => spec_transfer(
            s0,
            TransferKind::Stor,
            Some(spec_resolve(s0.cwd, path)),
            true,
        ),
        Command::Appe { path } => spec_transfer(
            s0,
            TransferKind::Appe,
            Some(spec_resolve(s0.cwd, path)),
            false,
        ),
        Command::Stou => spec_transfer(s0, TransferKind::Stou, None, false),
        Command::List { path } => spec_transfer(
            s0,
            TransferKind::List,
            match path {
                Some(p) => Some(spec_resolve(s0.cwd, p)),
                None => None,
            },
            false,
        ),
        Command::Nlst { path } => spec_transfer(
            s0,
            TransferKind::Nlst,
            match path {
                Some(p) => Some(spec_resolve(s0.cwd, p)),
                None => None,
            },
            false,
        ),
        Command::Feat => StepV {
            session: s0,
            out: HandlerOutV {
                reply: ReplyV::MultiLine {
                    code: ReplyCode::SystemStatus,
                    lines: spec_feat_lines(ctx.tls_configured),
                },
                effect: None,
            },
        },
        Command::Pwd => spec_reply_only(s0, ReplyCode::DirCreated, spec_pwd_msg(s0.cwd)),
        Command::Cwd { path } => spec_effect_only(
            s0,
            Effect::StorageCwd { path: spec_resolve(s0.cwd, path) },
        ),
        Command::Cdup => spec_effect_only(
            s0,
            Effect::StorageCwd { path: spec_resolve(s0.cwd, ".."@) },
        ),
        Command::Opts { .. } => spec_reply_only(s0, ReplyCode::CommandOkay, "Always in UTF-8 mode"@),
        Command::Dele { path } => spec_effect_only(
            s0,
            Effect::StorageDele { path: spec_resolve(s0.cwd, path) },
        ),
        Command::Rmd { path } => spec_effect_only(
            s0,
            Effect::StorageRmd { path: spec_resolve(s0.cwd, path) },
        ),
        Command::Quit => spec_effect_only(s0, Effect::SendInternal { msg: InternalMsg::Quit }),
        Command::Mkd { path } => spec_effect_only(
            s0,
            Effect::StorageMkd { path: spec_resolve(s0.cwd, path) },
        ),
        Command::Allo => spec_reply_only(s0, ReplyCode::CommandOkayNotImplemented, "Ignored"@),
        Command::Abor => if s0.active_transfer {
            StepV {
                session: SessionV { active_transfer: false, ..s0 },
                out: HandlerOutV {
                    reply: one_line(ReplyCode::ClosingDataConnection, "Closed data channel"@),
                    effect: Some(Effect::SignalAbort),
                },
            }
        } else {
            spec_reply_only(s0, ReplyCode::ClosingDataConnection, "Data channel already closed"@)
        },
        Command::Rnfr { file } => StepV {
            session: SessionV { rename_from: Some(spec_resolve(s0.cwd, file)), ..s0 },
            out: HandlerOutV {
                reply: one_line(ReplyCode::FileActionPending, "Ready for RNTO"@),
                effect: None,
            },
        },
        Command::Rnto { file } => match s0.rename_from {
            Some(from) => StepV {
                session: SessionV { rename_from: None, ..s0 },
                out: HandlerOutV {
                    reply: ReplyV::NoReply,
                    effect: Some(
                        Effect::StorageRename { from, to: spec_resolve(s0.cwd, file) },
                    ),
                },
            },
            None => spec_reply_only(
                s0,
                ReplyCode::BadCommandSequence,
                "Bad sequence of commands"@,
            ),
        },
        Command::Auth { protocol } => if !ctx.tls_configured {
            spec_reply_only(s0, ReplyCode::CommandNotImplemented, "TLS/SSL not configured"@)
        } else if protocol is Other {
            spec_reply_only(
                s0,
                ReplyCode::CommandNotImplementedForParameter,
                "Unsupported AUTH mechanism"@,
            )
        } else if s0.cmd_tls {
            spec_reply_only(s0, ReplyCode::RequestDeniedPolicy, "Already secure"@)
        } else {
            StepV {
                session: s0,
                out: HandlerOutV {
                    reply: one_line(ReplyCode::AuthOkayNoDataNeeded, "Switching to TLS"@),
                    effect: Some(
                        Effect::SendInternal { msg: InternalMsg::SecureControlChannel },
                    ),
                },
            }
        },
        Command::Pbsz => if !ctx.tls_configured {
            spec_reply_only(s0, ReplyCode::CommandNotImplemented, "TLS/SSL not configured"@)
        } else {
            StepV {
                session: SessionV { pbsz: Some(0), ..s0 },
                out: HandlerOutV {
                    reply: one_line(ReplyCode::CommandOkay, "OK"@),
                    effect: None,
                },
            }
        },
        Command::Ccc => if !ctx.tls_configured {
            spec_reply_only(s0, ReplyCode::CommandNotImplemented, "TLS/SSL not configured"@)
        } else {
            StepV {
                session: s0,
                out: HandlerOutV {
                    reply: one_line(ReplyCode::CommandOkay, "Control channel in plaintext now"@),
                    effect: Some(
                        Effect::SendInternal { msg: InternalMsg::PlaintextControlChannel },
                    ),
                },
            }
        },
        Command::Prot { param } => if !ctx.tls_configured {
            spec_reply_only(s0, ReplyCode::CommandNotImplemented, "TLS/SSL not configured"@)
        } else {
            match param {
                ProtParam::Private => StepV {
                    session: SessionV { data_tls: true, ..s0 },
                    out: HandlerOutV {
                        reply: one_line(ReplyCode::CommandOkay, "PROT P OK"@),
                        effect: None,
                    },
                },
                ProtParam::Clear => StepV {
                    session: SessionV { data_tls: false, ..s0 },
                    out: HandlerOutV {
                        reply: one_line(ReplyCode::CommandOkay, "PROT C OK"@),
                        effect: None,
                    },
                },
                _ => spec_reply_only(
                    s0,
                    ReplyCode::CommandNotImplementedForParameter,
                    "Protection level not supported"@,
                ),
            }
        },
        Command::Size { file } => spec_effect_only(
            s0,
            Effect::StorageSize { path: spec_resolve(s0.cwd, file) },
        ),
        Command::Rest { offset } => StepV {
            session: SessionV { start_pos: offset, ..s0 },
            out: HandlerOutV {
                reply: one_line(ReplyCode::FileActionPending, "Restart position accepted"@),
                effect: None,
            },
        },
        Command::Mdtm { file } => spec_effect_only(
            s0,
            Effect::StorageMdtm { path: spec_resolve(s0.cwd, file) },
        ),
    }
}

/// Whether `cmd` is exempt from the authentication gate.
pub fn is_exempt(cmd: &Command<String>) -> (b: bool)
    ensures
        b == spec_exempt(cmd@),
{
    matches!(
        cmd,
        Command::Help
        | Command::User { .. }
        | Command::Pass { .. }
        | Command::Auth { .. }
        | Command::Feat
        | Command::Quit
    )
}

/// Builds the `FEAT` reply lines.
fn feat_lines(tls_configured: bool) -> (lines: Vec<String>)
    ensures
        lines@.map_values(|l: String| l@) == spec_feat_lines(tls_configured),
{
    let mut lines: Vec<String> = Vec::new();
    lines.push("Extensions supported:".to_owned());
    lines.push("UTF8".to_owned());
    if tls_configured {
        lines.push("AUTH TLS".to_owned());
        lines.push("PBSZ".to_owned());
        lines.push("PROT".to_owned());
    }
    lines.push("SIZE".to_owned());
    lines.push("MDTM".to_owned());
    lines.push("REST STREAM".to_owned());
    lines.push("End".to_owned());
    proof {
        assert(lines@.map_values(|l: String| l@) =~= spec_feat_lines(tls_configured));
    }
    lines
}

fn transfer_step(
    session: &mut Session,
    kind: TransferKind,
    path: Option<String>,
    uses_start: bool,
) -> (out: HandlerOut)
    ensures
        final(session)@ == spec_transfer(
            old(session)@,
            kind,
            match path {
                Some(p) => Some(p@),
                None => None,
            },
            uses_start,
        ).session,
        out@ == spec_transfer(
            old(session)@,
            kind,
            match path {
                Some(p) => Some(p@),
                None => None,
            },
            uses_start,
        ).out,
{
    if session.data_conn {
        let start: u64 = if uses_start {
            session.start_pos
        } else {
            0
        };
        session.data_conn = false;
        session.active_transfer = true;
        if uses_start {
            session.start_pos = 0;
        }
        HandlerOut {
            reply: Reply::new(
                ReplyCode::FileStatusOkay,
                "File status okay; about to open data connection",
            ),
            effect: Some(Effect::StartTransfer { kind, path, start }),
        }
    } else {
        HandlerOut {
            reply: Reply::new(
                ReplyCode::CantOpenDataConnection,
                "No data connection established",
            ),
            effect: None,
        }
    }
}

/// Dispatches one decoded command against the session, as
/// [`spec_dispatch`] prescribes. The authentication gate is not applied
/// here; [`handle_event`] wraps it.
#[verifier::rlimit(100)]
#[verifier::spinoff_prover]
pub fn handle_command(cmd: Command<String>, session: &mut Session, ctx: &HandlerCtx) -> (out:
    HandlerOut)
    ensures
        final(session)@ == spec_dispatch(cmd@, old(session)@, *ctx).session,
        out@ == spec_dispatch(cmd@, old(session)@, *ctx).out,
{
    let clears = !is_exempt(&cmd) && !matches!(cmd, Command::Rnfr { .. } | Command::Rnto { .. });
    if clears {
        session.rename_from = None;
    }
    match cmd {
        Command::User { username } => {
            session.state = SessionState::WaitPass { username };
            session.user = None;
            HandlerOut {
                reply: Reply::new(ReplyCode::UsernameOkayNeedPassword, "Password required"),
                effect: None,
            }
        },
        Command::Pass { password } => {
            let username: Option<String> = match &session.state {
                SessionState::WaitPass { username } => Some(username.clone()),
                _ => None,
            };
            match username {
                Some(username) => HandlerOut {
                    reply: Reply::none(),
                    effect: Some(Effect::Authenticate { username, password }),
                },
                None => {
                    if matches!(session.state, SessionState::Start) {
                        HandlerOut {
                            reply: Reply::new(
                                ReplyCode::BadCommandSequence,
                                "Please provide a username first",
                            ),
                            effect: None,
                        }
                    } else {
                        HandlerOut {
                            reply: Reply::new(
                                ReplyCode::BadCommandSequence,
                                "Already authenticated",
                            ),
                            effect: None,
                        }
                    }
                },
            }
        },
        Command::Syst => HandlerOut {
            reply: Reply::new(ReplyCode::SystemType, "UNIX Type: L8"),
            effect: None,
        },
        Command::Stat { .. } => HandlerOut {
            reply: Reply::new(ReplyCode::SystemStatus, "Server status: healthy"),
            effect: None,
        },
        Command::Acct { .. } => HandlerOut {
            reply: Reply::new(ReplyCode::CommandOkayNotImplemented, "Account not supported"),
            effect: None,
        },
        Command::Type => HandlerOut {
            reply: Reply::new(ReplyCode::CommandOkay, "Always in binary mode"),
            effect: None,
        },
        Command::Stru { structure } => match structure {
            StruParam::File => HandlerOut {
                reply: Reply::new(ReplyCode::CommandOkay, "OK"),
                effect: None,
            },
            _ => HandlerOut {
                reply: Reply::new(
                    ReplyCode::CommandNotImplementedForParameter,
                    "Structure not supported",
                ),
                effect: None,
            },
        },
        Command::Mode { mode } => match mode {
            ModeParam::Stream => HandlerOut {
                reply: Reply::new(ReplyCode::CommandOkay, "OK"),
                effect: None,
            },
            _ => HandlerOut {
                reply: Reply::new(
                    ReplyCode::CommandNotImplementedForParameter,
                    "Mode not supported",
                ),
                effect: None,
            },
        },
        Command::Help => HandlerOut {
            reply: Reply::new(ReplyCode::HelpMessage, "Help is on the way"),
            effect: None,
        },
        Command::Noop => HandlerOut {
            reply: Reply::new(ReplyCode::CommandOkay, "Successfully did nothing"),
            effect: None,
        },
        Command::Pasv => {
            if ctx.proxy_mode {
                HandlerOut { reply: Reply::none(), effect: Some(Effect::ProxyAssignPort) }
            } else {
                HandlerOut { reply: Reply::none(), effect: Some(Effect::BindPassive) }
            }
        },
        Command::Port => HandlerOut {
            reply: Reply::new(ReplyCode::CommandNotImplemented, "ACTIVE mode is not supported"),
            effect: None,
        },
        Command::Retr { path } => {
            let full = resolve_path(session.cwd.as_str(), path.as_str());
            transfer_step(session, TransferKind::Retr, Some(full), true)
        },
        Command::Stor { path } => {
            let full = resolve_path(session.cwd.as_str(), path.as_str());
            transfer_step(session, TransferKind::Stor, Some(full), true)
        },
        Command::Appe { path } => {
            let full = resolve_path(session.cwd.as_str(), path.as_str());
            transfer_step(session, TransferKind::Appe, Some(full), false)
        },
        Command::Stou => transfer_step(session, TransferKind::Stou, None, false),
        Command::List { path } => {
            let full = match &path {
                Some(p) => Some(resolve_path(session.cwd.as_str(), p.as_str())),
                None => None,
            };
            transfer_step(session, TransferKind::List, full, false)
        },
        Command::Nlst { path } => {
            let full = match &path {
                Some(p) => Some(resolve_path(session.cwd.as_str(), p.as_str())),
                None => None,
            };
            transfer_step(session, TransferKind::Nlst, full, false)
        },
        Command::Feat => HandlerOut {
            reply: Reply::new_multiline(ReplyCode::SystemStatus, feat_lines(ctx.tls_configured)),
            effect: None,
        },
        Command::Pwd => HandlerOut {
            reply: Reply::new_with_string(ReplyCode::DirCreated, pwd_msg(session.cwd.as_str())),
            effect: None,
        },
        Command::Cwd { path } => {
            let full = resolve_path(session.cwd.as_str(), path.as_str());
            HandlerOut { reply: Reply::none(), effect: Some(Effect::StorageCwd { path: full }) }
        },
        Command::Cdup => {
            let full = resolve_path(session.cwd.as_str(), "..");
            HandlerOut { reply: Reply::none(), effect: Some(Effect::StorageCwd { path: full }) }
        },
        Command::Opts { .. } => HandlerOut {
            reply: Reply::new(ReplyCode::CommandOkay, "Always in UTF-8 mode"),
            effect: None,
        },
        Command::Dele { path } => {
            let full = resolve_path(session.cwd.as_str(), path.as_str());
            HandlerOut { reply: Reply::none(), effect: Some(Effect::StorageDele { path: full }) }
        },
        Command::Rmd { path } => {
            let full = resolve_path(session.cwd.as_str(), path.as_str());
            HandlerOut { reply: Reply::none(), effect: Some(Effect::StorageRmd { path: full }) }
        },
        Command::Quit => HandlerOut {
            reply: Reply::none(),
            effect: Some(Effect::SendInternal { msg: InternalMsg::Quit }),
        },
        Command::Mkd { path } => {
            let full = resolve_path(session.cwd.as_str(), path.as_str());
            HandlerOut { reply: Reply::none(), effect: Some(Effect::StorageMkd { path: full }) }
        },
        Command::Allo => HandlerOut {
            reply: Reply::new(ReplyCode::CommandOkayNotImplemented, "Ignored"),
            effect: None,
        },
        Command::Abor => {
            if session.active_transfer {
                session.active_transfer = false;
                HandlerOut {
                    reply: Reply::new(ReplyCode::ClosingDataConnection, "Closed data channel"),
                    effect: Some(Effect::SignalAbort),
                }
            } else {
                HandlerOut {
                    reply: Reply::new(
                        ReplyCode::ClosingDataConnection,
                        "Data channel already closed",
                    ),
                    effect: None,
                }
            }
        },
        Command::Rnfr { file } => {
            let full = resolve_path(session.cwd.as_str(), file.as_str());
            session.rename_from = Some(full);
            HandlerOut {
                reply: Reply::new(ReplyCode::FileActionPending, "Ready for RNTO"),
                effect: None,
            }
        },
        Command::Rnto { file } => {
            let from = session.rename_from.take();
            match from {
                Some(from) => {
                    let to = resolve_path(session.cwd.as_str(), file.as_str());
                    HandlerOut {
                        reply: Reply::none(),
                        effect: Some(Effect::StorageRename { from, to }),
                    }
                },
                None => HandlerOut {
                    reply: Reply::new(ReplyCode::BadCommandSequence, "Bad sequence of commands"),
                    effect: None,
                },
            }
        },
        Command::Auth { protocol } => {
            if !ctx.tls_configured {
                HandlerOut {
                    reply: Reply::new(ReplyCode::CommandNotImplemented, "TLS/SSL not configured"),
                    effect: None,
                }
            } else if matches!(protocol, AuthParam::Other) {
                HandlerOut {
                    reply: Reply::new(
                        ReplyCode::CommandNotImplementedForParameter,
                        "Unsupported AUTH mechanism",
                    ),
                    effect: None,
                }
            } else if session.cmd_tls {
                HandlerOut {
                    reply: Reply::new(ReplyCode::RequestDeniedPolicy, "Already secure"),
                    effect: None,
                }
            } else {
                HandlerOut {
                    reply: Reply::new(ReplyCode::AuthOkayNoDataNeeded, "Switching to TLS"),
                    effect: Some(Effect::SendInternal { msg: InternalMsg::SecureControlChannel }),
                }
            }
        },
        Command::Pbsz => {
            if !ctx.tls_configured {
                HandlerOut {
                    reply: Reply::new(ReplyCode::CommandNotImplemented, "TLS/SSL not configured"),
                    effect: None,
                }
            } else {
                session.pbsz = Some(0);
                HandlerOut { reply: Reply::new(ReplyCode::CommandOkay, "OK"), effect: None }
            }
        },
        Command::Ccc => {
            if !ctx.tls_configured {
                HandlerOut {
                    reply: Reply::new(ReplyCode::CommandNotImplemented, "TLS/SSL not configured"),
                    effect: None,
                }
            } else {
                HandlerOut {
                    reply: Reply::new(ReplyCode::CommandOkay, "Control channel in plaintext now"),
                    effect: Some(
                        Effect::SendInternal { msg: InternalMsg::PlaintextControlChannel },
                    ),
                }
            }
        },
        Command::Prot { param } => {
            if !ctx.tls_configured {
                HandlerOut {
                    reply: Reply::new(ReplyCode::CommandNotImplemented, "TLS/SSL not configured"),
                    effect: None,
                }
            } else {
                match param {
                    ProtParam::Private => {
                        session.data_tls = true;
                        HandlerOut {
                            reply: Reply::new(ReplyCode::CommandOkay, "PROT P OK"),
                            effect: None,
                        }
                    },
                    ProtParam::Clear => {
                        session.data_tls = false;
                        HandlerOut {
                            reply: Reply::new(ReplyCode::CommandOkay, "PROT C OK"),
                            effect: None,
                        }
                    },
                    _ => HandlerOut {
                        reply: Reply::new(
                            ReplyCode::CommandNotImplementedForParameter,
                            "Protection level not supported",
                        ),
                        effect: None,
                    },
                }
            }
        },
        Command::Size { file } => {
            let full = resolve_path(session.cwd.as_str(), file.as_str());
            HandlerOut { reply: Reply::none(), effect: Some(Effect::StorageSize { path: full }) }
        },
        Command::Rest { offset } => {
            session.start_pos = offset;
            HandlerOut {
                reply: Reply::new(ReplyCode::FileActionPending, "Restart position accepted"),
                effect: None,
            }
        },
        Command::Mdtm { file } => {
            let full = resolve_path(session.cwd.as_str(), file.as_str());
            HandlerOut { reply: Reply::none(), effect: Some(Effect::StorageMdtm { path: full }) }
        },
    }
}

/// The reply for a storage failure, per the error table.
pub open spec fn spec_storage_error_reply(kind: ErrorKind) -> ReplyV {
    match kind {
        ErrorKind::TransientFileNotAvailable => one_line(
            ReplyCode::TransientFileError,
            "File not found"@,
        ),
        ErrorKind::PermanentFileNotAvailable => one_line(ReplyCode::FileError, "File not found"@),
        ErrorKind::PermissionDenied => one_line(ReplyCode::FileError, "Permission denied"@),
        ErrorKind::LocalError => one_line(ReplyCode::LocalError, "Local error"@),
        ErrorKind::PageTypeUnknown => one_line(ReplyCode::PageTypeUnknown, "Page type unknown"@),
        ErrorKind::InsufficientStorageSpaceError => one_line(
            ReplyCode::OutOfSpace,
            "Insufficient storage space"@,
        ),
        ErrorKind::ExceededStorageAllocationError => one_line(
            ReplyCode::ExceededStorageAllocation,
            "Exceeded storage allocation"@,
        ),
        ErrorKind::FileNameNotAllowedError => one_line(
            ReplyCode::BadFileName,
            "File name not allowed"@,
        ),
    }
}

/// Builds the reply for a storage failure, per the error table.
pub fn storage_error_reply(kind: ErrorKind) -> (r: Reply)
    ensures
        r@ == spec_storage_error_reply(kind),
{
    match kind {
        ErrorKind::TransientFileNotAvailable => Reply::new(
            ReplyCode::TransientFileError,
            "File not found",
        ),
        ErrorKind::PermanentFileNotAvailable => Reply::new(ReplyCode::FileError, "File not found"),
        ErrorKind::PermissionDenied => Reply::new(ReplyCode::FileError, "Permission denied"),
        ErrorKind::LocalError => Reply::new(ReplyCode::LocalError, "Local error"),
        ErrorKind::PageTypeUnknown => Reply::new(ReplyCode::PageTypeUnknown, "Page type unknown"),
        ErrorKind::InsufficientStorageSpaceError => Reply::new(
            ReplyCode::OutOfSpace,
            "Insufficient storage space",
        ),
        ErrorKind::ExceededStorageAllocationError => Reply::new(
            ReplyCode::ExceededStorageAllocation,
            "Exceeded storage allocation",
        ),
        ErrorKind::FileNameNotAllowedError => Reply::new(
            ReplyCode::BadFileName,
            "File name not allowed",
        ),
    }
}

/// The engine's transition for one internal message: how the session
/// changes and what is replied. Internal messages request no effects.
pub open spec fn spec_internal(msg: InternalMsg<Seq<char>>, s: SessionV) -> StepV {
    match msg {
        InternalMsg::NotFound => spec_reply_only(s, ReplyCode::FileError, "File not found"@),
        InternalMsg::PermissionDenied => spec_reply_only(
            s,
            ReplyCode::FileError,
            "Permission denied"@,
        ),
        InternalMsg::SendingData => spec_reply_only(s, ReplyCode::FileStatusOkay, "Sending Data"@),
        InternalMsg::SendData { .. } => spec_reply_only(
            SessionV { start_pos: 0, active_transfer: false, ..s },
            ReplyCode::ClosingDataConnection,
            "Successfully sent"@,
        ),
        InternalMsg::WriteFailed => spec_reply_only(
            SessionV { active_transfer: false, ..s },
            ReplyCode::TransientFileError,
            "Failed to write file"@,
        ),
        InternalMsg::ConnectionReset => spec_reply_only(
            SessionV { active_transfer: false, ..s },
            ReplyCode::ConnectionClosed,
            "Datachannel unexpectedly closed"@,
        ),
        InternalMsg::WrittenData { .. } => spec_reply_only(
            SessionV { start_pos: 0, active_transfer: false, ..s },
            ReplyCode::ClosingDataConnection,
            "File successfully written"@,
        ),
        InternalMsg::DataConnectionClosedAfterStor => spec_reply_only(
            SessionV { active_transfer: false, ..s },
            ReplyCode::FileActionOkay,
            "Stored data; data connection closed"@,
        ),
        InternalMsg::UnknownRetrieveError => spec_reply_only(
            SessionV { active_transfer: false, ..s },
            ReplyCode::TransientFileError,
            "Unknown Error"@,
        ),
        InternalMsg::DirectorySuccessfullyListed => spec_reply_only(
            SessionV { active_transfer: false, ..s },
            ReplyCode::ClosingDataConnection,
            "Listed the directory"@,
        ),
        InternalMsg::CwdSuccess => spec_reply_only(s, ReplyCode::FileActionOkay, "Successfully cwd"@),
        InternalMsg::DelSuccess => spec_reply_only(
            s,
            ReplyCode::FileActionOkay,
            "File successfully removed"@,
        ),
        InternalMsg::DelFail => spec_reply_only(
            s,
            ReplyCode::TransientFileError,
            "Failed to delete the file"@,
        ),
        InternalMsg::Quit => spec_reply_only(s, ReplyCode::ClosingControlConnection, "Bye!"@),
        InternalMsg::SecureControlChannel => StepV {
            session: SessionV { cmd_tls: true, ..s },
            out: HandlerOutV { reply: ReplyV::NoReply, effect: None },
        },
        InternalMsg::PlaintextControlChannel => StepV {
            session: SessionV { cmd_tls: false, ..s },
            out: HandlerOutV { reply: ReplyV::NoReply, effect: None },
        },
        InternalMsg::MkdirSuccess { path } => spec_reply_only(s, ReplyCode::DirCreated, path),
        InternalMsg::MkdirFail => spec_reply_only(
            s,
            ReplyCode::FileError,
            "Failed to create directory"@,
        ),
        InternalMsg::AuthSuccess => match s.state {
            SessionState::WaitPass { username } => spec_reply_only(
                SessionV { state: SessionState::WaitCmd, user: Some(username), ..s },
                ReplyCode::UserLoggedIn,
                "User logged in, proceed"@,
            ),
            _ => spec_reply_only(s, ReplyCode::UserLoggedIn, "User logged in, proceed"@),
        },
        InternalMsg::AuthFailed => spec_reply_only(
            SessionV { state: SessionState::Start, user: None, ..s },
            ReplyCode::NotLoggedIn,
            "Authentication failed"@,
        ),
        InternalMsg::StorageError { error } => StepV {
            session: s,
            out: HandlerOutV {
                reply: spec_storage_error_reply(error.spec_kind()),
                effect: None,
            },
        },
        InternalMsg::CommandChannelReply { code, msg } => spec_reply_only(s, code, msg),
    }
}

/// Handles one internal message against the session, as
/// [`spec_internal`] prescribes.
#[verifier::rlimit(50)]
#[verifier::spinoff_prover]
pub fn handle_internal_msg(msg: InternalMsg<String>, session: &mut Session) -> (out: HandlerOut)
    ensures
        final(session)@ == spec_internal(msg@, old(session)@).session,
        out@ == spec_internal(msg@, old(session)@).out,
{
    let reply = match msg {
        InternalMsg::NotFound => Reply::new(ReplyCode::FileError, "File not found"),
        InternalMsg::PermissionDenied => Reply::new(ReplyCode::FileError, "Permission denied"),
        InternalMsg::SendingData => Reply::new(ReplyCode::FileStatusOkay, "Sending Data"),
        InternalMsg::SendData { .. } => {
            session.start_pos = 0;
            session.active_transfer = false;
            Reply::new(ReplyCode::ClosingDataConnection, "Successfully sent")
        },
        InternalMsg::WriteFailed => {
            session.active_transfer = false;
            Reply::new(ReplyCode::TransientFileError, "Failed to write file")
        },
        InternalMsg::ConnectionReset => {
            session.active_transfer = false;
            Reply::new(ReplyCode::ConnectionClosed, "Datachannel unexpectedly closed")
        },
        InternalMsg::WrittenData { .. } => {
            session.start_pos = 0;
            session.active_transfer = false;
            Reply::new(ReplyCode::ClosingDataConnection, "File successfully written")
        },
        InternalMsg::DataConnectionClosedAfterStor => {
            session.active_transfer = false;
            Reply::new(ReplyCode::FileActionOkay, "Stored data; data connection closed")
        },
        InternalMsg::UnknownRetrieveError => {
            session.active_transfer = false;
            Reply::new(ReplyCode::TransientFileError, "Unknown Error")
        },
        InternalMsg::DirectorySuccessfullyListed => {
            session.active_transfer = false;
            Reply::new(ReplyCode::ClosingDataConnection, "Listed the directory")
        },
        InternalMsg::CwdSuccess => Reply::new(ReplyCode::FileActionOkay, "Successfully cwd"),
        InternalMsg::DelSuccess => Reply::new(
            ReplyCode::FileActionOkay,
            "File successfully removed",
        ),
        InternalMsg::DelFail => Reply::new(
            ReplyCode::TransientFileError,
            "Failed to delete the file",
        ),
        InternalMsg::Quit => Reply::new(ReplyCode::ClosingControlConnection, "Bye!"),
        InternalMsg::SecureControlChannel => {
            session.cmd_tls = true;
            Reply::none()
        },
        InternalMsg::PlaintextControlChannel => {
            session.cmd_tls = false;
            Reply::none()
        },
        InternalMsg::MkdirSuccess { path } => Reply::new_with_string(ReplyCode::DirCreated, path),
        InternalMsg::MkdirFail => Reply::new(ReplyCode::FileError, "Failed to create directory"),
        InternalMsg::AuthSuccess => {
            let username: Option<String> = match &session.state {
                SessionState::WaitPass { username } => Some(username.clone()),
                _ => None,
            };
            if let Some(username) = username {
                session.state = SessionState::WaitCmd;
                session.user = Some(username);
            }
            Reply::new(ReplyCode::UserLoggedIn, "User logged in, proceed")
        },
        InternalMsg::AuthFailed => {
            session.state = SessionState::Start;
            session.user = None;
            Reply::new(ReplyCode::NotLoggedIn, "Authentication failed")
        },
        InternalMsg::StorageError { error } => storage_error_reply(error.kind()),
        InternalMsg::CommandChannelReply { code, msg } => Reply::new_with_string(code, msg),
    };
    HandlerOut { reply, effect: None }
}

/// The engine's transition for one event, authentication gate included:
/// a non-exempt command in a session that has not reached `WaitCmd` is
/// refused with `530` and changes nothing; everything else is
/// dispatched.
pub open spec fn spec_handle_event(ev: Event<Seq<char>>, s: SessionV, ctx: HandlerCtx) -> StepV {
    match ev {
        Event::Command { cmd } => if spec_exempt(cmd) || s.state is WaitCmd {
            spec_dispatch(cmd, s, ctx)
        } else {
            spec_reply_only(s, ReplyCode::NotLoggedIn, "Please authenticate"@)
        },
        Event::InternalMsg { msg } => spec_internal(msg, s),
    }
}

/// Handles one event through the chain `auth gate -> dispatch`, as
/// [`spec_handle_event`] prescribes.
pub fn handle_event(event: Event<String>, session: &mut Session, ctx: &HandlerCtx) -> (out:
    HandlerOut)
    ensures
        final(session)@ == spec_handle_event(event@, old(session)@, *ctx).session,
        out@ == spec_handle_event(event@, old(session)@, *ctx).out,
{
    match event {
        Event::Command { cmd } => {
            let pass = is_exempt(&cmd) || matches!(session.state, SessionState::WaitCmd);
            if pass {
                handle_command(cmd, session, ctx)
            } else {
                HandlerOut {
                    reply: Reply::new(ReplyCode::NotLoggedIn, "Please authenticate"),
                    effect: None,
                }
            }
        },
        Event::InternalMsg { msg } => handle_internal_msg(msg, session),
    }
}

} // verus!
