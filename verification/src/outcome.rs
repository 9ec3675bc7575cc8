//! Turning effect outcomes back into engine inputs. The I/O layer
//! performs an [`Effect`](crate::controlchan::Effect) and calls the
//! function here that matches it: the result is either a direct session
//! update with its reply (`PASV`, `CWD`) or the internal message to
//! feed back into the loop.

use vstd::prelude::*;
use crate::chancomms::InternalMsg;
use crate::proxy_protocol::Ipv4Addr;
use crate::reply::{one_line, Reply, ReplyCode};
use crate::session::{Session, SessionV};
use crate::storage::{Error, ErrorKind, FileInfo};
use crate::text::{chars_to_string, dec_chars, push_dec_chars, push_str_chars, spec_dec};
use crate::timefmt::{format_mdtm, spec_mdtm, MDTM_MAX_SECS};

verus! {

/// The text of a `227` reply advertising `ip` and `port`: the port is
/// split as `port = p1 * 256 + p2`.
pub open spec fn spec_pasv_msg(ip: Ipv4Addr, port: u16) -> Seq<char> {
    "Entering Passive Mode ("@ + spec_dec(ip.a as nat) + seq![','] + spec_dec(ip.b as nat)
        + seq![','] + spec_dec(ip.c as nat) + seq![','] + spec_dec(ip.d as nat) + seq![',']
        + spec_dec((port / 256) as nat) + seq![','] + spec_dec((port % 256) as nat) + seq![')']
}

/// Builds the text of a `227` reply advertising `ip` and `port`.
pub fn pasv_msg(ip: Ipv4Addr, port: u16) -> (r: String)
    ensures
        r@ == spec_pasv_msg(ip, port),
{
    let mut v: Vec<char> = Vec::new();
    push_str_chars("Entering Passive Mode (", &mut v);
    push_dec_chars(ip.a as u64, &mut v);
    v.push(',');
    push_dec_chars(ip.b as u64, &mut v);
    v.push(',');
    push_dec_chars(ip.c as u64, &mut v);
    v.push(',');
    push_dec_chars(ip.d as u64, &mut v);
    v.push(',');
    push_dec_chars((port / 256) as u64, &mut v);
    v.push(',');
    push_dec_chars((port % 256) as u64, &mut v);
    v.push(')');
    proof {
        assert(v@ =~= spec_pasv_msg(ip, port));
    }
    chars_to_string(&v)
}

/// Completes a normal-mode `PASV` with the outcome of the bind: a bound
/// port yields `227` advertising `ip` and marks the data connection
/// available; exhaustion of the passive range yields `425` and changes
/// nothing.
pub fn pasv_bind_apply(session: &mut Session, ip: Ipv4Addr, outcome: Option<u16>) -> (r: Reply)
    ensures
        match outcome {
            Some(port) => final(session)@ == (SessionV { data_conn: true, ..old(session)@ }) && r@
                == one_line(ReplyCode::EnteringPassiveMode, spec_pasv_msg(ip, port)),
            None => final(session)@ == old(session)@ && r@ == one_line(
                ReplyCode::CantOpenDataConnection,
                "No data ports available"@,
            ),
        },
{
    match outcome {
        Some(port) => {
            session.data_conn = true;
            Reply::new_with_string(ReplyCode::EnteringPassiveMode, pasv_msg(ip, port))
        },
        None => Reply::new(ReplyCode::CantOpenDataConnection, "No data ports available"),
    }
}

/// Completes a `CWD` whose directory check succeeded: the session moves
/// to `path`. The caller then feeds `CwdSuccess` back to the loop.
pub fn cwd_apply(session: &mut Session, path: String)
    ensures
        final(session)@ == (SessionV { cwd: path@, ..old(session)@ }),
{
    session.cwd = path;
}

/// Completes a PROXY-mode `PASV` with the outcome of the switchboard
/// reservation, producing the deferred reply to route through the
/// session's internal channel: a reserved port yields `227` advertising
/// the configured external IP and marks the data connection available;
/// exhaustion of the passive range yields `425` and changes nothing.
pub fn proxy_pasv_apply(
    session: &mut Session,
    external_ip: Ipv4Addr,
    outcome: Option<u16>,
) -> (msg: InternalMsg<String>)
    ensures
        match outcome {
            Some(port) => final(session)@ == (SessionV { data_conn: true, ..old(session)@ })
                && msg@ == (InternalMsg::<Seq<char>>::CommandChannelReply {
                code: ReplyCode::EnteringPassiveMode,
                msg: spec_pasv_msg(external_ip, port),
            }),
            None => final(session)@ == old(session)@ && msg@ == (
            InternalMsg::<Seq<char>>::CommandChannelReply {
                code: ReplyCode::CantOpenDataConnection,
                msg: "No data ports available"@,
            }),
        },
{
    match outcome {
        Some(port) => {
            session.data_conn = true;
            InternalMsg::CommandChannelReply {
                code: ReplyCode::EnteringPassiveMode,
                msg: pasv_msg(external_ip, port),
            }
        },
        None => InternalMsg::CommandChannelReply {
            code: ReplyCode::CantOpenDataConnection,
            msg: "No data ports available".to_owned(),
        },
    }
}

/// The internal message carrying an authentication outcome.
pub fn auth_result_msg(ok: bool) -> (msg: InternalMsg<String>)
    ensures
        msg@ == if ok {
            InternalMsg::<Seq<char>>::AuthSuccess
        } else {
            InternalMsg::<Seq<char>>::AuthFailed
        },
{
    if ok {
        InternalMsg::AuthSuccess
    } else {
        InternalMsg::AuthFailed
    }
}

/// The internal message carrying a `MKD` outcome: success names the
/// created directory, failure maps through the error table.
pub fn mkd_result_msg(path: String, outcome: Result<(), Error>) -> (msg: InternalMsg<String>)
    ensures
        msg@ == match outcome {
            Ok(_) => InternalMsg::<Seq<char>>::MkdirSuccess { path: path@ },
            Err(e) => InternalMsg::<Seq<char>>::StorageError { error: e },
        },
{
    match outcome {
        Ok(_) => InternalMsg::MkdirSuccess { path },
        Err(e) => InternalMsg::StorageError { error: e },
    }
}

/// The internal message carrying a `DELE` or `RMD` outcome.
pub fn removal_result_msg(outcome: Result<(), Error>) -> (msg: InternalMsg<String>)
    ensures
        msg@ == match outcome {
            Ok(_) => InternalMsg::<Seq<char>>::DelSuccess,
            Err(e) => InternalMsg::<Seq<char>>::StorageError { error: e },
        },
{
    match outcome {
        Ok(_) => InternalMsg::DelSuccess,
        Err(e) => InternalMsg::StorageError { error: e },
    }
}

/// The outcome of the directory check behind a `CWD`: whether to apply
/// the directory change ([`cwd_apply`]), and the message to feed back.
/// A target that exists but is not a directory counts as permanently
/// unavailable.
pub fn cwd_check_msg(outcome: Result<FileInfo, Error>) -> (r: (bool, InternalMsg<String>))
    ensures
        r.1@ == match outcome {
            Ok(m) => if m.is_dir {
                InternalMsg::<Seq<char>>::CwdSuccess
            } else {
                InternalMsg::<Seq<char>>::StorageError {
                    error: Error { kind: ErrorKind::PermanentFileNotAvailable },
                }
            },
            Err(e) => InternalMsg::<Seq<char>>::StorageError { error: e },
        },
        r.0 == (outcome is Ok && outcome->Ok_0.is_dir),
{
    match outcome {
        Ok(m) => {
            if m.is_dir {
                (true, InternalMsg::CwdSuccess)
            } else {
                (
                    false,
                    InternalMsg::StorageError {
                        error: Error { kind: ErrorKind::PermanentFileNotAvailable },
                    },
                )
            }
        },
        Err(e) => (false, InternalMsg::StorageError { error: e }),
    }
}

/// The internal message carrying a rename outcome: success is reported
/// with `250`, failure maps through the error table.
pub fn rename_result_msg(outcome: Result<(), Error>) -> (msg: InternalMsg<String>)
    ensures
        msg@ == match outcome {
            Ok(_) => InternalMsg::<Seq<char>>::CommandChannelReply {
                code: ReplyCode::FileActionOkay,
                msg: "File renamed"@,
            },
            Err(e) => InternalMsg::<Seq<char>>::StorageError { error: e },
        },
{
    match outcome {
        Ok(_) => InternalMsg::CommandChannelReply {
            code: ReplyCode::FileActionOkay,
            msg: "File renamed".to_owned(),
        },
        Err(e) => InternalMsg::StorageError { error: e },
    }
}

/// The internal message carrying a `SIZE` outcome: a regular file's
/// size is reported with `213`; anything else counts as permanently
/// unavailable; failure maps through the error table.
pub fn size_result_msg(outcome: Result<FileInfo, Error>) -> (msg: InternalMsg<String>)
    ensures
        msg@ == match outcome {
            Ok(m) => if m.is_file {
                InternalMsg::<Seq<char>>::CommandChannelReply {
                    code: ReplyCode::FileStatus,
                    msg: spec_dec(m.size as nat),
                }
            } else {
                InternalMsg::<Seq<char>>::StorageError {
                    error: Error { kind: ErrorKind::PermanentFileNotAvailable },
                }
            },
            Err(e) => InternalMsg::<Seq<char>>::StorageError { error: e },
        },
{
    match outcome {
        Ok(m) => {
            if m.is_file {
                let digits = dec_chars(m.size);
                InternalMsg::CommandChannelReply {
                    code: ReplyCode::FileStatus,
                    msg: chars_to_string(&digits),
                }
            } else {
                InternalMsg::StorageError {
                    error: Error { kind: ErrorKind::PermanentFileNotAvailable },
                }
            }
        },
        Err(e) => InternalMsg::StorageError { error: e },
    }
}

/// The internal message carrying an `MDTM` outcome: the modification
/// time is reported with `213` as `YYYYMMDDHHMMSS` in UTC; a time past
/// year 9999 does not fit the format and counts as a local error;
/// failure maps through the error table.
pub fn mdtm_result_msg(outcome: Result<FileInfo, Error>) -> (msg: InternalMsg<String>)
    ensures
        msg@ == match outcome {
            Ok(m) => if m.mtime_secs <= MDTM_MAX_SECS {
                InternalMsg::<Seq<char>>::CommandChannelReply {
                    code: ReplyCode::FileStatus,
                    msg: spec_mdtm(m.mtime_secs as nat),
                }
            } else {
                InternalMsg::<Seq<char>>::StorageError {
                    error: Error { kind: ErrorKind::LocalError },
                }
            },
            Err(e) => InternalMsg::<Seq<char>>::StorageError { error: e },
        },
{
    match outcome {
        Ok(m) => {
            if m.mtime_secs <= MDTM_MAX_SECS {
                InternalMsg::CommandChannelReply {
                    code: ReplyCode::FileStatus,
                    msg: format_mdtm(m.mtime_secs),
                }
            } else {
                InternalMsg::StorageError { error: Error { kind: ErrorKind::LocalError } }
            }
        },
        Err(e) => InternalMsg::StorageError { error: e },
    }
}

} // verus!
