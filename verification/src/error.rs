//! The control-channel error type: what can go wrong between reading
//! a line from the client and producing a reply.

use vstd::prelude::*;

verus! {

/// What went wrong while the wire codec decoded a line.
pub enum ParseErrorKind {
    /// The client issued a verb the server does not know.
    UnknownCommand { command: String },
    /// The line held a non-UTF-8 byte.
    InvalidUTF8,
    /// A known verb was used in an invalid way (for example `USER`
    /// without a name).
    InvalidCommand,
    /// A token in the line could not be read.
    InvalidToken { token: char },
    /// The line ending was malformed.
    InvalidEOL,
}

/// Categories of control-channel errors.
pub enum ControlChanErrorKind {
    /// A system IO error on the control connection.
    IOError,
    /// Internal server error: a resource the engine should hold could
    /// not be obtained. Probably a bug.
    InternalServerError,
    /// The authentication backend failed.
    AuthenticationError,
    /// An internal message arrived that the engine cannot map. Probably
    /// a bug.
    InternalMsgError,
    /// A non-UTF-8 character appeared in a command.
    UTF8Error,
    /// The client issued a command the server does not know.
    UnknownCommand { command: String },
    /// The client issued a known command in an invalid way.
    InvalidCommand,
    /// The idle timer on the control channel elapsed.
    ControlChannelTimeout,
}

/// The error type the control channel surfaces.
pub struct ControlChanError {
    /// The error's category.
    pub kind: ControlChanErrorKind,
}

impl ControlChanError {
    /// A control-channel error of the given kind.
    pub fn new(kind: ControlChanErrorKind) -> (e: ControlChanError)
        ensures
            e.spec_kind() == kind,
    {
        ControlChanError { kind }
    }

    /// The inner error kind of this error.
    pub fn kind(&self) -> (k: &ControlChanErrorKind)
        ensures
            k == self.spec_kind(),
    {
        &self.kind
    }

    /// The inner error kind of this error.
    pub open spec fn spec_kind(self) -> ControlChanErrorKind {
        self.kind
    }
}

/// How codec failures surface as control-channel errors: unknown verbs
/// keep their verb, malformed UTF-8 and unreadable tokens count as
/// encoding errors, and everything else is an invalid command.
pub open spec fn spec_parse_error_kind(err: ParseErrorKind) -> ControlChanErrorKind {
    match err {
        ParseErrorKind::UnknownCommand { command } => ControlChanErrorKind::UnknownCommand {
            command,
        },
        ParseErrorKind::InvalidUTF8 => ControlChanErrorKind::UTF8Error,
        ParseErrorKind::InvalidCommand => ControlChanErrorKind::InvalidCommand,
        ParseErrorKind::InvalidToken { .. } => ControlChanErrorKind::UTF8Error,
        ParseErrorKind::InvalidEOL => ControlChanErrorKind::InvalidCommand,
    }
}

impl From<ParseErrorKind> for ControlChanError {
    fn from(err: ParseErrorKind) -> (e: ControlChanError)
        ensures
            e.spec_kind() == spec_parse_error_kind(err),
    {
        let kind = match err {
            ParseErrorKind::UnknownCommand { command } => ControlChanErrorKind::UnknownCommand {
                command,
            },
            ParseErrorKind::InvalidUTF8 => ControlChanErrorKind::UTF8Error,
            ParseErrorKind::InvalidCommand => ControlChanErrorKind::InvalidCommand,
            ParseErrorKind::InvalidToken { .. } => ControlChanErrorKind::UTF8Error,
            ParseErrorKind::InvalidEOL => ControlChanErrorKind::InvalidCommand,
        };
        ControlChanError { kind }
    }
}

impl vstd::std_specs::convert::FromSpecImpl<ParseErrorKind> for ControlChanError {
    open spec fn obeys_from_spec() -> bool {
        true
    }

    open spec fn from_spec(err: ParseErrorKind) -> ControlChanError {
        ControlChanError { kind: spec_parse_error_kind(err) }
    }
}

} // verus!
