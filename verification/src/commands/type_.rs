//! The RFC 959 Representation Type (`TYPE`) command: this server is
//! always in binary (image) mode, whatever the argument.

use vstd::prelude::*;
use crate::reply::{one_line, Reply, ReplyCode};

verus! {

/// The `TYPE` handler.
pub struct Type;

impl Type {
    /// Replies `200`: the server stays in binary mode.
    pub fn handle(&self) -> (r: Reply)
        ensures
            r@ == one_line(ReplyCode::CommandOkay, "Always in binary mode"@),
    {
        Reply::new(ReplyCode::CommandOkay, "Always in binary mode")
    }
}

} // verus!
