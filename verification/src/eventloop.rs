//! The control-channel event loop's step function: one decision of the
//! per-connection scheduler. The I/O layer selects over the command
//! source, the internal-message receiver and the idle timer, and hands
//! whichever fired first to [`loop_step`]; it then writes the reply
//! (unless suppressed), performs the effect, swaps the transport when
//! asked to, and closes the connection when told to.

use vstd::prelude::*;
use crate::chancomms::{Event, InternalMsg};
use crate::controlchan::{handle_event, spec_handle_event, Effect, HandlerCtx};
use crate::error::ControlChanErrorKind;
use crate::reply::{one_line, Reply, ReplyCode, ReplyV};
use crate::session::{Session, SessionV};

verus! {

/// What wakes one iteration of the event loop: an event, a
/// control-channel error (from the codec or the transport), or the
/// idle timer.
#[allow(inconsistent_fields)]
pub enum LoopEvent<S> {
    Ev { event: Event<S> },
    ChanErr { kind: ControlChanErrorKind },
    Timeout,
}

impl View for LoopEvent<String> {
    type V = LoopEvent<Seq<char>>;

    open spec fn view(&self) -> LoopEvent<Seq<char>> {
        match self {
            LoopEvent::Ev { event } => LoopEvent::Ev { event: event@ },
            LoopEvent::ChanErr { kind } => LoopEvent::ChanErr { kind: *kind },
            LoopEvent::Timeout => LoopEvent::Timeout,
        }
    }
}

/// What the loop must do to its framed transport after this step.
#[derive(Clone, Copy, PartialEq, Eq, Structural, Debug)]
pub enum TransportChange {
    /// Keep the current transport.
    Keep,
    /// Reunite sink and source, wrap the stream in the TLS acceptor,
    /// and re-frame.
    ToTls,
    /// Reunite sink and source, drop to the plain stream, and re-frame.
    ToPlain,
}

/// What one loop iteration does: the reply to write (unless
/// suppressed), whether to close the connection afterwards, how to
/// change the transport, and the effect to perform.
pub struct LoopOut {
    pub reply: Reply,
    pub close: bool,
    pub transport: TransportChange,
    pub effect: Option<Effect<String>>,
}

/// The mathematical value of a [`LoopOut`].
pub struct LoopOutV {
    pub reply: ReplyV,
    pub close: bool,
    pub transport: TransportChange,
    pub effect: Option<Effect<Seq<char>>>,
}

impl View for LoopOut {
    type V = LoopOutV;

    open spec fn view(&self) -> LoopOutV {
        LoopOutV {
            reply: self.reply@,
            close: self.close,
            transport: self.transport,
            effect: match &self.effect {
                Some(e) => Some(e@),
                None => None,
            },
        }
    }
}

/// A loop transition: the session after the step and what the loop does.
pub struct LoopStepV {
    pub session: SessionV,
    pub out: LoopOutV,
}

/// The reply for a control-channel error, per the error table.
pub open spec fn spec_error_reply(kind: ControlChanErrorKind) -> ReplyV {
    match kind {
        ControlChanErrorKind::UnknownCommand { .. } => one_line(
            ReplyCode::CommandSyntaxError,
            "Command not implemented"@,
        ),
        ControlChanErrorKind::UTF8Error => one_line(
            ReplyCode::ParameterSyntaxError,
            "Invalid UTF8"@,
        ),
        ControlChanErrorKind::InvalidCommand => one_line(
            ReplyCode::ParameterSyntaxError,
            "Invalid Parameter"@,
        ),
        ControlChanErrorKind::ControlChannelTimeout => one_line(
            ReplyCode::ServiceNotAvailable,
            "Session timed out. Closing control connection"@,
        ),
        ControlChanErrorKind::IOError => one_line(
            ReplyCode::ServiceNotAvailable,
            "Service not available, closing control connection"@,
        ),
        ControlChanErrorKind::AuthenticationError => one_line(
            ReplyCode::NotLoggedIn,
            "Not logged in"@,
        ),
        ControlChanErrorKind::InternalServerError => one_line(ReplyCode::LocalError, "Local error"@),
        ControlChanErrorKind::InternalMsgError => one_line(ReplyCode::LocalError, "Local error"@),
    }
}

/// Whether an error of this kind closes the control connection: only
/// IO failures and the idle timeout do.
pub open spec fn spec_error_closes(kind: ControlChanErrorKind) -> bool {
    kind is IOError || kind is ControlChannelTimeout
}

/// Builds the reply for a control-channel error, per the error table.
pub fn control_chan_error_reply(kind: &ControlChanErrorKind) -> (r: Reply)
    ensures
        r@ == spec_error_reply(*kind),
{
    match kind {
        ControlChanErrorKind::UnknownCommand { .. } => Reply::new(
            ReplyCode::CommandSyntaxError,
            "Command not implemented",
        ),
        ControlChanErrorKind::UTF8Error => Reply::new(
            ReplyCode::ParameterSyntaxError,
            "Invalid UTF8",
        ),
        ControlChanErrorKind::InvalidCommand => Reply::new(
            ReplyCode::ParameterSyntaxError,
            "Invalid Parameter",
        ),
        ControlChanErrorKind::ControlChannelTimeout => Reply::new(
            ReplyCode::ServiceNotAvailable,
            "Session timed out. Closing control connection",
        ),
        ControlChanErrorKind::IOError => Reply::new(
            ReplyCode::ServiceNotAvailable,
            "Service not available, closing control connection",
        ),
        ControlChanErrorKind::AuthenticationError => Reply::new(
            ReplyCode::NotLoggedIn,
            "Not logged in",
        ),
        ControlChanErrorKind::InternalServerError => Reply::new(ReplyCode::LocalError, "Local error"),
        ControlChanErrorKind::InternalMsgError => Reply::new(ReplyCode::LocalError, "Local error"),
    }
}

/// The loop's transition for one wake-up. The timer expiry answers
/// `421` and closes. An error is answered per the error table and
/// closes exactly when it is an IO error or the timeout. `Quit`
/// answers `221 Bye!` and closes. The TLS upgrade and downgrade
/// messages ask for a transport swap and then take the internal-message
/// path, which flips the session's TLS flag and suppresses the reply.
/// Everything else takes the authentication gate.
pub open spec fn spec_loop_step(ev: LoopEvent<Seq<char>>, s: SessionV, ctx: HandlerCtx) -> LoopStepV {
    match ev {
        LoopEvent::Timeout => LoopStepV {
            session: s,
            out: LoopOutV {
                reply: one_line(
                    ReplyCode::ServiceNotAvailable,
                    "Session timed out. Closing control connection"@,
                ),
                close: true,
                transport: TransportChange::Keep,
                effect: None,
            },
        },
        LoopEvent::ChanErr { kind } => LoopStepV {
            session: s,
            out: LoopOutV {
                reply: spec_error_reply(kind),
                close: spec_error_closes(kind),
                transport: TransportChange::Keep,
                effect: None,
            },
        },
        LoopEvent::Ev { event } => match event {
            Event::InternalMsg { msg: InternalMsg::Quit } => LoopStepV {
                session: s,
                out: LoopOutV {
                    reply: one_line(ReplyCode::ClosingControlConnection, "Bye!"@),
                    close: true,
                    transport: TransportChange::Keep,
                    effect: None,
                },
            },
            _ => {
                let step = spec_handle_event(event, s, ctx);
                LoopStepV {
                    session: step.session,
                    out: LoopOutV {
                        reply: step.out.reply,
                        close: false,
                        transport: match event {
                            Event::InternalMsg { msg: InternalMsg::SecureControlChannel } =>
                                TransportChange::ToTls,
                            Event::InternalMsg { msg: InternalMsg::PlaintextControlChannel } =>
                                TransportChange::ToPlain,
                            _ => TransportChange::Keep,
                        },
                        effect: step.out.effect,
                    },
                }
            },
        },
    }
}

/// One iteration of the control-channel event loop, as
/// [`spec_loop_step`] prescribes.
pub fn loop_step(ev: LoopEvent<String>, session: &mut Session, ctx: &HandlerCtx) -> (out: LoopOut)
    ensures
        final(session)@ == spec_loop_step(ev@, old(session)@, *ctx).session,
        out@ == spec_loop_step(ev@, old(session)@, *ctx).out,
{
    match ev {
        LoopEvent::Timeout => LoopOut {
            reply: Reply::new(
                ReplyCode::ServiceNotAvailable,
                "Session timed out. Closing control connection",
            ),
            close: true,
            transport: TransportChange::Keep,
            effect: None,
        },
        LoopEvent::ChanErr { kind } => {
            let reply = control_chan_error_reply(&kind);
            let close = matches!(
                kind,
                ControlChanErrorKind::IOError | ControlChanErrorKind::ControlChannelTimeout
            );
            LoopOut { reply, close, transport: TransportChange::Keep, effect: None }
        },
        LoopEvent::Ev { event } => {
            if matches!(event, Event::InternalMsg { msg: InternalMsg::Quit }) {
                LoopOut {
                    reply: Reply::new(ReplyCode::ClosingControlConnection, "Bye!"),
                    close: true,
                    transport: TransportChange::Keep,
                    effect: None,
                }
            } else {
                let transport = match &event {
                    Event::InternalMsg { msg: InternalMsg::SecureControlChannel } =>
                        TransportChange::ToTls,
                    Event::InternalMsg { msg: InternalMsg::PlaintextControlChannel } =>
                        TransportChange::ToPlain,
                    _ => TransportChange::Keep,
                };
                let step = handle_event(event, session, ctx);
                LoopOut { reply: step.reply, close: false, transport, effect: step.effect }
            }
        },
    }
}

/// The `220` greeting the loop writes when a connection is accepted.
pub fn service_ready_reply(greeting: &str) -> (r: Reply)
    ensures
        r@ == one_line(ReplyCode::ServiceReady, greeting@),
{
    Reply::new(ReplyCode::ServiceReady, greeting)
}

} // verus!
