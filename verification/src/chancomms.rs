//! The session's internal bus: the messages data tasks, the
//! authenticator and the switchboard deliver back to a session's event
//! loop, and the event type that unifies them with client commands.

use vstd::prelude::*;
use crate::command::Command;
use crate::reply::ReplyCode;
use crate::storage;

verus! {

/// A message delivered to a session's event loop from inside the
/// server: data-transfer completions, authentication outcomes, storage
/// outcomes and control-channel management. `S` is the string type:
/// `String` in executable code, `Seq<char>` in views.
#[allow(inconsistent_fields)]
pub enum InternalMsg<S> {
    /// A transfer failed: the file was not found.
    NotFound,
    /// A transfer failed: permission denied.
    PermissionDenied,
    /// A data task started sending.
    SendingData,
    /// A `RETR` completed; `bytes` were sent.
    SendData { bytes: u64 },
    /// A `STOR` failed while writing.
    WriteFailed,
    /// The data channel was closed unexpectedly.
    ConnectionReset,
    /// A `STOR` completed; `bytes` were written.
    WrittenData { bytes: u64 },
    /// The client closed the data connection after a `STOR`.
    DataConnectionClosedAfterStor,
    /// A `RETR` failed for an unknown reason.
    UnknownRetrieveError,
    /// A `LIST`/`NLST` completed.
    DirectorySuccessfullyListed,
    /// The directory check behind a `CWD` succeeded.
    CwdSuccess,
    /// A `DELE` or `RMD` succeeded.
    DelSuccess,
    /// A `DELE` or `RMD` failed.
    DelFail,
    /// The client asked to quit; the loop replies and closes.
    Quit,
    /// The control channel is to be upgraded to TLS.
    SecureControlChannel,
    /// The control channel is to be downgraded to plaintext.
    PlaintextControlChannel,
    /// A `MKD` succeeded; `path` was created.
    MkdirSuccess { path: S },
    /// A `MKD` failed.
    MkdirFail,
    /// The authenticator accepted the offered credentials.
    AuthSuccess,
    /// The authenticator rejected the offered credentials.
    AuthFailed,
    /// A storage operation failed; the kind picks the reply.
    StorageError { error: storage::Error },
    /// A ready-made reply to serialize on the control channel, used for
    /// deferred replies such as the PROXY-mode `PASV` answer.
    CommandChannelReply { code: ReplyCode, msg: S },
}

impl View for InternalMsg<String> {
    type V = InternalMsg<Seq<char>>;

    open spec fn view(&self) -> InternalMsg<Seq<char>> {
        match self {
            InternalMsg::NotFound => InternalMsg::NotFound,
            InternalMsg::PermissionDenied => InternalMsg::PermissionDenied,
            InternalMsg::SendingData => InternalMsg::SendingData,
            InternalMsg::SendData { bytes } => InternalMsg::SendData { bytes: *bytes },
            InternalMsg::WriteFailed => InternalMsg::WriteFailed,
            InternalMsg::ConnectionReset => InternalMsg::ConnectionReset,
            InternalMsg::WrittenData { bytes } => InternalMsg::WrittenData { bytes: *bytes },
            InternalMsg::DataConnectionClosedAfterStor => InternalMsg::DataConnectionClosedAfterStor,
            InternalMsg::UnknownRetrieveError => InternalMsg::UnknownRetrieveError,
            InternalMsg::DirectorySuccessfullyListed => InternalMsg::DirectorySuccessfullyListed,
            InternalMsg::CwdSuccess => InternalMsg::CwdSuccess,
            InternalMsg::DelSuccess => InternalMsg::DelSuccess,
            InternalMsg::DelFail => InternalMsg::DelFail,
            InternalMsg::Quit => InternalMsg::Quit,
            InternalMsg::SecureControlChannel => InternalMsg::SecureControlChannel,
            InternalMsg::PlaintextControlChannel => InternalMsg::PlaintextControlChannel,
            InternalMsg::MkdirSuccess { path } => InternalMsg::MkdirSuccess { path: path@ },
            InternalMsg::MkdirFail => InternalMsg::MkdirFail,
            InternalMsg::AuthSuccess => InternalMsg::AuthSuccess,
            InternalMsg::AuthFailed => InternalMsg::AuthFailed,
            InternalMsg::StorageError { error } => InternalMsg::StorageError { error: *error },
            InternalMsg::CommandChannelReply { code, msg } => InternalMsg::CommandChannelReply {
                code: *code,
                msg: msg@,
            },
        }
    }
}

/// One thing a session's event loop can be woken by: a decoded client
/// command or an internal message.
#[allow(inconsistent_fields)]
pub enum Event<S> {
    Command { cmd: Command<S> },
    InternalMsg { msg: InternalMsg<S> },
}

impl View for Event<String> {
    type V = Event<Seq<char>>;

    open spec fn view(&self) -> Event<Seq<char>> {
        match self {
            Event::Command { cmd } => Event::Command { cmd: cmd@ },
            Event::InternalMsg { msg } => Event::InternalMsg { msg: msg@ },
        }
    }
}

} // verus!
