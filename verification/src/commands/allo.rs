//! The RFC 959 Allocate (`ALLO`) command: servers that need no storage
//! reservation treat it as a no-op, so it is accepted and ignored.

use vstd::prelude::*;
use crate::reply::{one_line, Reply, ReplyCode};

verus! {

/// The `ALLO` handler.
pub struct Allo;

impl Allo {
    /// Replies `202`: the command is accepted and ignored.
    pub fn handle(&self) -> (r: Reply)
        ensures
            r@ == one_line(ReplyCode::CommandOkayNotImplemented, "Ignored"@),
    {
        Reply::new(ReplyCode::CommandOkayNotImplemented, "Ignored")
    }
}

} // verus!
