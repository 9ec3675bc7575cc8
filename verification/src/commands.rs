//! The handler objects for the verbs whose behaviour is
//! self-contained; the dispatcher answers these verbs the same way.

pub mod allo;
pub mod pwd;
pub mod type_;
