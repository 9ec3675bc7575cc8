//! Per-connection session state: everything one control connection
//! remembers between commands.

use vstd::prelude::*;
use crate::proxy_protocol::ConnectionTuple;

verus! {

/// Where a session stands in the login protocol. `S` is the string
/// type: `String` in executable code, `Seq<char>` in views.
pub enum SessionState<S> {
    /// No credentials offered yet.
    Start,
    /// A `USER` name was offered; the password is awaited.
    WaitPass { username: S },
    /// Credentials accepted; commands are served.
    WaitCmd,
}

/// The state of one control connection.
pub struct Session {
    /// Login progress.
    pub state: SessionState<String>,
    /// The authenticated user, present exactly in `WaitCmd`.
    pub user: Option<String>,
    /// Current working directory, an absolute path.
    pub cwd: String,
    /// Restart offset for the next `RETR`/`STOR`, cleared on use.
    pub start_pos: u64,
    /// The `RNFR` argument, present exactly between `RNFR` and the next
    /// non-exempt command.
    pub rename_from: Option<String>,
    /// Whether the control channel runs over TLS.
    pub cmd_tls: bool,
    /// Whether data channels are to run over TLS (`PROT P`).
    pub data_tls: bool,
    /// The protection buffer size, present once `PBSZ` was accepted.
    pub pbsz: Option<u64>,
    /// Whether a passive data connection is available for the next
    /// transfer command.
    pub data_conn: bool,
    /// Whether a data transfer is active; while it is, the data-abort
    /// signal is armed and `ABOR` can take it.
    pub active_transfer: bool,
    /// The original client addressing, present in PROXY mode.
    pub control_connection_info: Option<ConnectionTuple>,
}

/// The mathematical value of a [`Session`].
pub struct SessionV {
    pub state: SessionState<Seq<char>>,
    pub user: Option<Seq<char>>,
    pub cwd: Seq<char>,
    pub start_pos: u64,
    pub rename_from: Option<Seq<char>>,
    pub cmd_tls: bool,
    pub data_tls: bool,
    pub pbsz: Option<u64>,
    pub data_conn: bool,
    pub active_transfer: bool,
    pub control_connection_info: Option<ConnectionTuple>,
}

impl View for Session {
    type V = SessionV;

    open spec fn view(&self) -> SessionV {
        SessionV {
            state: match &self.state {
                SessionState::Start => SessionState::Start,
                SessionState::WaitPass { username } => SessionState::WaitPass {
                    username: username@,
                },
                SessionState::WaitCmd => SessionState::WaitCmd,
            },
            user: match &self.user {
                Some(u) => Some(u@),
                None => None,
            },
            cwd: self.cwd@,
            start_pos: self.start_pos,
            rename_from: match &self.rename_from {
                Some(p) => Some(p@),
                None => None,
            },
            cmd_tls: self.cmd_tls,
            data_tls: self.data_tls,
            pbsz: self.pbsz,
            data_conn: self.data_conn,
            active_transfer: self.active_transfer,
            control_connection_info: self.control_connection_info,
        }
    }
}

impl SessionV {
    /// Session well-formedness: a user detail is bound exactly when the
    /// session has reached `WaitCmd`.
    pub open spec fn wf(self) -> bool {
        (self.state is WaitCmd) <==> (self.user is Some)
    }
}

impl Session {
    /// A fresh session: unauthenticated, rooted at `/`, plaintext, with
    /// no transfer state.
    pub fn new() -> (s: Session)
        ensures
            s@ == initial_session(),
            s@.wf(),
    {
        Session {
            state: SessionState::Start,
            user: None,
            cwd: "/".to_owned(),
            start_pos: 0,
            rename_from: None,
            cmd_tls: false,
            data_tls: false,
            pbsz: None,
            data_conn: false,
            active_transfer: false,
            control_connection_info: None,
        }
    }
}

/// The state of a session as it is created on accept.
pub open spec fn initial_session() -> SessionV {
    SessionV {
        state: SessionState::Start,
        user: None,
        cwd: "/"@,
        start_pos: 0,
        rename_from: None,
        cmd_tls: false,
        data_tls: false,
        pbsz: None,
        data_conn: false,
        active_transfer: false,
        control_connection_info: None,
    }
}

} // verus!
