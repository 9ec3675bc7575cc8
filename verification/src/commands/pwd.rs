//! The RFC 959 Print Working Directory (`PWD`) command: the name of the
//! current working directory is returned in the reply, wrapped in
//! double quotes with embedded quotes doubled.

use vstd::prelude::*;
use crate::path::{pwd_msg, spec_pwd_msg};
use crate::reply::{one_line, Reply, ReplyCode};
use crate::session::Session;

verus! {

/// The `PWD` handler.
pub struct Pwd;

impl Pwd {
    /// Replies `257` with the session's working directory, quoted.
    pub fn execute(&self, session: &Session) -> (r: Reply)
        ensures
            r@ == one_line(ReplyCode::DirCreated, spec_pwd_msg(session@.cwd)),
    {
        Reply::new_with_string(ReplyCode::DirCreated, pwd_msg(session.cwd.as_str()))
    }
}

} // verus!
