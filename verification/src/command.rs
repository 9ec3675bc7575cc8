//! The decoded FTP command model: one tagged variant per supported
//! verb, with typed parameters. The wire parser that produces these
//! lives outside the engine.

use vstd::prelude::*;

verus! {

/// The `STRU` argument: file, record or page structure.
#[derive(Clone, Copy, PartialEq, Eq, Structural, Debug)]
pub enum StruParam {
    File,
    Record,
    Page,
}

/// The `MODE` argument: stream, block or compressed transfer mode.
#[derive(Clone, Copy, PartialEq, Eq, Structural, Debug)]
pub enum ModeParam {
    Stream,
    Block,
    Compressed,
}

/// The `AUTH` argument: the security mechanism the client asks for.
#[derive(Clone, Copy, PartialEq, Eq, Structural, Debug)]
pub enum AuthParam {
    Tls,
    Ssl,
    Other,
}

/// The `PROT` argument: the data-channel protection level.
#[derive(Clone, Copy, PartialEq, Eq, Structural, Debug)]
pub enum ProtParam {
    Clear,
    Safe,
    Confidential,
    Private,
}

/// The `OPTS` argument: the option the client toggles.
#[derive(Clone, Copy, PartialEq, Eq, Structural, Debug)]
pub enum OptsOption {
    Utf8,
}

/// A decoded FTP command. `S` is the string type: `String` in
/// executable code, `Seq<char>` in its mathematical view.
#[allow(inconsistent_fields)]
pub enum Command<S> {
    User { username: S },
    Pass { password: S },
    Syst,
    Stat { path: Option<S> },
    Acct { account: S },
    Type,
    Stru { structure: StruParam },
    Mode { mode: ModeParam },
    Help,
    Noop,
    Pasv,
    Port,
    Retr { path: S },
    Stor { path: S },
    Appe { path: S },
    List { path: Option<S> },
    Nlst { path: Option<S> },
    Feat,
    Pwd,
    Cwd { path: S },
    Cdup,
    Opts { option: OptsOption },
    Dele { path: S },
    Rmd { path: S },
    Quit,
    Mkd { path: S },
    Allo,
    Abor,
    Stou,
    Rnfr { file: S },
    Rnto { file: S },
    Auth { protocol: AuthParam },
    Pbsz,
    Ccc,
    Prot { param: ProtParam },
    Size { file: S },
    Rest { offset: u64 },
    Mdtm { file: S },
}

impl View for Command<String> {
    type V = Command<Seq<char>>;

    open spec fn view(&self) -> Command<Seq<char>> {
        match self {
            Command::User { username } => Command::User { username: username@ },
            Command::Pass { password } => Command::Pass { password: password@ },
            Command::Syst => Command::Syst,
            Command::Stat { path } => Command::Stat {
                path: match path {
                    Some(p) => Some(p@),
                    None => None,
                },
            },
            Command::Acct { account } => Command::Acct { account: account@ },
            Command::Type => Command::Type,
            Command::Stru { structure } => Command::Stru { structure: *structure },
            Command::Mode { mode } => Command::Mode { mode: *mode },
            Command::Help => Command::Help,
            Command::Noop => Command::Noop,
            Command::Pasv => Command::Pasv,
            Command::Port => Command::Port,
            Command::Retr { path } => Command::Retr { path: path@ },
            Command::Stor { path } => Command::Stor { path: path@ },
            Command::Appe { path } => Command::Appe { path: path@ },
            Command::List { path } => Command::List {
                path: match path {
                    Some(p) => Some(p@),
                    None => None,
                },
            },
            Command::Nlst { path } => Command::Nlst {
                path: match path {
                    Some(p) => Some(p@),
                    None => None,
                },
            },
            Command::Feat => Command::Feat,
            Command::Pwd => Command::Pwd,
            Command::Cwd { path } => Command::Cwd { path: path@ },
            Command::Cdup => Command::Cdup,
            Command::Opts { option } => Command::Opts { option: *option },
            Command::Dele { path } => Command::Dele { path: path@ },
            Command::Rmd { path } => Command::Rmd { path: path@ },
            Command::Quit => Command::Quit,
            Command::Mkd { path } => Command::Mkd { path: path@ },
            Command::Allo => Command::Allo,
            Command::Abor => Command::Abor,
            Command::Stou => Command::Stou,
            Command::Rnfr { file } => Command::Rnfr { file: file@ },
            Command::Rnto { file } => Command::Rnto { file: file@ },
            Command::Auth { protocol } => Command::Auth { protocol: *protocol },
            Command::Pbsz => Command::Pbsz,
            Command::Ccc => Command::Ccc,
            Command::Prot { param } => Command::Prot { param: *param },
            Command::Size { file } => Command::Size { file: file@ },
            Command::Rest { offset } => Command::Rest { offset: *offset },
            Command::Mdtm { file } => Command::Mdtm { file: file@ },
        }
    }
}

} // verus!
