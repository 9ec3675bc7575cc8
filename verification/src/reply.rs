//! Server replies: the numeric reply-code enum and the reply value
//! type, together with their rendering to CRLF-terminated wire text.

use vstd::prelude::*;
use crate::text::{chars_to_string, push_dec_chars, push_str_chars, spec_dec};

verus! {

/// The numeric FTP reply codes the engine emits.
#[derive(Clone, Copy, PartialEq, Eq, Structural, Debug)]
pub enum ReplyCode {
    FileStatusOkay,
    CommandOkay,
    CommandOkayNotImplemented,
    SystemStatus,
    FileStatus,
    HelpMessage,
    SystemType,
    ServiceReady,
    ClosingControlConnection,
    ClosingDataConnection,
    EnteringPassiveMode,
    UserLoggedIn,
    AuthOkayNoDataNeeded,
    FileActionOkay,
    DirCreated,
    UsernameOkayNeedPassword,
    FileActionPending,
    ServiceNotAvailable,
    CantOpenDataConnection,
    ConnectionClosed,
    TransientFileError,
    LocalError,
    OutOfSpace,
    CommandSyntaxError,
    ParameterSyntaxError,
    CommandNotImplemented,
    BadCommandSequence,
    CommandNotImplementedForParameter,
    NotLoggedIn,
    RequestDeniedPolicy,
    FileError,
    PageTypeUnknown,
    ExceededStorageAllocation,
    BadFileName,
}

impl ReplyCode {
    /// The three-digit number of this reply code on the wire.
    pub open spec fn spec_number(self) -> u16 {
        match self {
            ReplyCode::FileStatusOkay => 150,
            ReplyCode::CommandOkay => 200,
            ReplyCode::CommandOkayNotImplemented => 202,
            ReplyCode::SystemStatus => 211,
            ReplyCode::FileStatus => 213,
            ReplyCode::HelpMessage => 214,
            ReplyCode::SystemType => 215,
            ReplyCode::ServiceReady => 220,
            ReplyCode::ClosingControlConnection => 221,
            ReplyCode::ClosingDataConnection => 226,
            ReplyCode::EnteringPassiveMode => 227,
            ReplyCode::UserLoggedIn => 230,
            ReplyCode::AuthOkayNoDataNeeded => 234,
            ReplyCode::FileActionOkay => 250,
            ReplyCode::DirCreated => 257,
            ReplyCode::UsernameOkayNeedPassword => 331,
            ReplyCode::FileActionPending => 350,
            ReplyCode::ServiceNotAvailable => 421,
            ReplyCode::CantOpenDataConnection => 425,
            ReplyCode::ConnectionClosed => 426,
            ReplyCode::TransientFileError => 450,
            ReplyCode::LocalError => 451,
            ReplyCode::OutOfSpace => 452,
            ReplyCode::CommandSyntaxError => 500,
            ReplyCode::ParameterSyntaxError => 501,
            ReplyCode::CommandNotImplemented => 502,
            ReplyCode::BadCommandSequence => 503,
            ReplyCode::CommandNotImplementedForParameter => 504,
            ReplyCode::NotLoggedIn => 530,
            ReplyCode::RequestDeniedPolicy => 534,
            ReplyCode::FileError => 550,
            ReplyCode::PageTypeUnknown => 551,
            ReplyCode::ExceededStorageAllocation => 552,
            ReplyCode::BadFileName => 553,
        }
    }

    /// The three-digit number of this reply code on the wire.
    #[verifier::when_used_as_spec(spec_number)]
    pub fn number(self) -> (n: u16)
        ensures
            n == self.spec_number(),
    {
        match self {
            ReplyCode::FileStatusOkay => 150,
            ReplyCode::CommandOkay => 200,
            ReplyCode::CommandOkayNotImplemented => 202,
            ReplyCode::SystemStatus => 211,
            ReplyCode::FileStatus => 213,
            ReplyCode::HelpMessage => 214,
            ReplyCode::SystemType => 215,
            ReplyCode::ServiceReady => 220,
            ReplyCode::ClosingControlConnection => 221,
            ReplyCode::ClosingDataConnection => 226,
            ReplyCode::EnteringPassiveMode => 227,
            ReplyCode::UserLoggedIn => 230,
            ReplyCode::AuthOkayNoDataNeeded => 234,
            ReplyCode::FileActionOkay => 250,
            ReplyCode::DirCreated => 257,
            ReplyCode::UsernameOkayNeedPassword => 331,
            ReplyCode::FileActionPending => 350,
            ReplyCode::ServiceNotAvailable => 421,
            ReplyCode::CantOpenDataConnection => 425,
            ReplyCode::ConnectionClosed => 426,
            ReplyCode::TransientFileError => 450,
            ReplyCode::LocalError => 451,
            ReplyCode::OutOfSpace => 452,
            ReplyCode::CommandSyntaxError => 500,
            ReplyCode::ParameterSyntaxError => 501,
            ReplyCode::CommandNotImplemented => 502,
            ReplyCode::BadCommandSequence => 503,
            ReplyCode::CommandNotImplementedForParameter => 504,
            ReplyCode::NotLoggedIn => 530,
            ReplyCode::RequestDeniedPolicy => 534,
            ReplyCode::FileError => 550,
            ReplyCode::PageTypeUnknown => 551,
            ReplyCode::ExceededStorageAllocation => 552,
            ReplyCode::BadFileName => 553,
        }
    }
}

/// A reply to a single command: a code with one message line, a code
/// with several lines, or the sentinel that suppresses any output.
pub enum Reply {
    NoReply,
    CodeAndMsg { code: ReplyCode, msg: String },
    MultiLine { code: ReplyCode, lines: Vec<String> },
}

/// The mathematical value of a [`Reply`].
pub enum ReplyV {
    NoReply,
    CodeAndMsg { code: ReplyCode, msg: Seq<char> },
    MultiLine { code: ReplyCode, lines: Seq<Seq<char>> },
}

impl View for Reply {
    type V = ReplyV;

    open spec fn view(&self) -> ReplyV {
        match self {
            Reply::NoReply => ReplyV::NoReply,
            Reply::CodeAndMsg { code, msg } => ReplyV::CodeAndMsg { code: *code, msg: msg@ },
            Reply::MultiLine { code, lines } => ReplyV::MultiLine {
                code: *code,
                lines: lines@.map_values(|l: String| l@),
            },
        }
    }
}

/// Shorthand for a single-line reply value.
pub open spec fn one_line(code: ReplyCode, msg: Seq<char>) -> ReplyV {
    ReplyV::CodeAndMsg { code, msg }
}

impl Reply {
    /// A single-line reply with the given code and message.
    pub fn new(code: ReplyCode, msg: &str) -> (r: Reply)
        ensures
            r@ == one_line(code, msg@),
    {
        Reply::CodeAndMsg { code, msg: msg.to_owned() }
    }

    /// A single-line reply with the given code and owned message.
    pub fn new_with_string(code: ReplyCode, msg: String) -> (r: Reply)
        ensures
            r@ == one_line(code, msg@),
    {
        Reply::CodeAndMsg { code, msg }
    }

    /// The sentinel reply that suppresses output.
    pub fn none() -> (r: Reply)
        ensures
            r@ is NoReply,
    {
        Reply::NoReply
    }

    /// A multi-line reply with the given code and lines.
    pub fn new_multiline(code: ReplyCode, lines: Vec<String>) -> (r: Reply)
        ensures
            r@ == (ReplyV::MultiLine { code, lines: lines@.map_values(|l: String| l@) }),
    {
        Reply::MultiLine { code, lines }
    }

    /// The reply's code, unless the reply is suppressed.
    pub fn code(&self) -> (c: Option<ReplyCode>)
        ensures
            match self@ {
                ReplyV::NoReply => c is None,
                ReplyV::CodeAndMsg { code, .. } => c == Some(code),
                ReplyV::MultiLine { code, .. } => c == Some(code),
            },
    {
        match self {
            Reply::NoReply => None,
            Reply::CodeAndMsg { code, .. } => Some(*code),
            Reply::MultiLine { code, .. } => Some(*code),
        }
    }

    /// Whether this is the suppressed reply.
    pub fn is_suppressed(&self) -> (b: bool)
        ensures
            b == (self@ is NoReply),
    {
        matches!(self, Reply::NoReply)
    }

    /// The wire text of this reply.
    pub fn render(&self) -> (s: String)
        ensures
            s@ == spec_render(self@),
    {
        match self {
            Reply::NoReply => {
                let v: Vec<char> = Vec::new();
                proof {
                    assert(v@ =~= spec_render(self@));
                }
                chars_to_string(&v)
            },
            Reply::CodeAndMsg { code, msg } => {
                let mut v: Vec<char> = Vec::new();
                push_dec_chars(code.number() as u64, &mut v);
                v.push(' ');
                push_str_chars(msg.as_str(), &mut v);
                v.push('\r');
                v.push('\n');
                proof {
                    assert(v@ =~= spec_render(self@));
                }
                chars_to_string(&v)
            },
            Reply::MultiLine { code, lines } => {
                let mut v: Vec<char> = Vec::new();
                render_lines(*code, lines, 0, &mut v);
                proof {
                    assert(lines@.map_values(|l: String| l@).skip(0) =~= lines@.map_values(
                        |l: String| l@,
                    ));
                    assert(v@ =~= spec_render(self@));
                }
                chars_to_string(&v)
            },
        }
    }
}

/// The wire text of a reply value: a single `"<code> <msg>\r\n"` line,
/// or the multi-line form in which every line but the last separates
/// code and text with `-` and the last with a space.
pub open spec fn spec_render(r: ReplyV) -> Seq<char> {
    match r {
        ReplyV::NoReply => Seq::empty(),
        ReplyV::CodeAndMsg { code, msg } => spec_dec(code.spec_number() as nat) + seq![' '] + msg
            + seq!['\r', '\n'],
        ReplyV::MultiLine { code, lines } => spec_render_lines(code, lines),
    }
}

/// The multi-line rendering of `lines` under `code`.
pub open spec fn spec_render_lines(code: ReplyCode, lines: Seq<Seq<char>>) -> Seq<char>
    decreases lines.len(),
{
    if lines.len() == 0 {
        Seq::empty()
    } else if lines.len() == 1 {
        spec_dec(code.spec_number() as nat) + seq![' '] + lines[0] + seq!['\r', '\n']
    } else {
        spec_dec(code.spec_number() as nat) + seq!['-'] + lines[0] + seq!['\r', '\n']
            + spec_render_lines(code, lines.skip(1))
    }
}

fn render_lines(code: ReplyCode, lines: &Vec<String>, idx: usize, out: &mut Vec<char>)
    requires
        idx <= lines@.len(),
    ensures
        final(out)@ == old(out)@ + spec_render_lines(
            code,
            lines@.map_values(|l: String| l@).skip(idx as int),
        ),
    decreases lines@.len() - idx,
{
    let ghost rest = lines@.map_values(|l: String| l@).skip(idx as int);
    if idx < lines.len() {
        push_dec_chars(code.number() as u64, out);
        if idx + 1 < lines.len() {
            out.push('-');
        } else {
            out.push(' ');
        }
        push_str_chars(lines[idx].as_str(), out);
        out.push('\r');
        out.push('\n');
        if idx + 1 < lines.len() {
            render_lines(code, lines, idx + 1, out);
            proof {
                assert(lines@.map_values(|l: String| l@).skip(idx as int).skip(1) =~= lines@
                    .map_values(|l: String| l@).skip(idx as int + 1));
                assert(final(out)@ =~= old(out)@ + spec_render_lines(code, rest));
            }
        } else {
            proof {
                assert(final(out)@ =~= old(out)@ + spec_render_lines(code, rest));
            }
        }
    } else {
        proof {
            assert(final(out)@ =~= old(out)@ + spec_render_lines(code, rest));
        }
    }
}

} // verus!
