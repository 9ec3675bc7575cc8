//! The engine's laws: properties of the dispatch and loop transitions
//! that hold for every session and every input, proved once here.

use vstd::prelude::*;
use crate::chancomms::{Event, InternalMsg};
use crate::command::Command;
use crate::controlchan::{
    spec_dispatch, spec_exempt, spec_handle_event, spec_internal, spec_storage_error_reply, Effect,
    HandlerCtx,
};
use crate::eventloop::{spec_error_closes, spec_loop_step, LoopEvent, TransportChange};
use crate::path::{spec_pwd_msg, spec_resolve};
use crate::reply::{one_line, ReplyCode, ReplyV};
use crate::session::SessionV;
use crate::storage::ErrorKind;

verus! {

/// How many reply lines a reply value puts on the wire now: one unless
/// suppressed.
pub open spec fn spec_immediate_replies(r: ReplyV) -> nat {
    if r is NoReply {
        0nat
    } else {
        1nat
    }
}

/// How many replies an effect still owes the client once the I/O layer
/// performs it: storage operations, authentication, both `PASV` forms
/// and a started transfer each come back with exactly one more reply;
/// `Quit` is answered by the loop; firing the abort signal and the TLS
/// transport messages answer nothing further.
pub open spec fn spec_owed_replies(e: Option<Effect<Seq<char>>>) -> nat {
    match e {
        None => 0nat,
        Some(eff) => match eff {
            Effect::SendInternal { msg } => match msg {
                InternalMsg::SecureControlChannel => 0nat,
                InternalMsg::PlaintextControlChannel => 0nat,
                _ => 1nat,
            },
            Effect::SignalAbort => 0nat,
            _ => 1nat,
        },
    }
}

/// The commands that start a data transfer.
pub open spec fn spec_is_transfer_cmd(cmd: Command<Seq<char>>) -> bool {
    ||| cmd is Retr
    ||| cmd is Stor
    ||| cmd is Appe
    ||| cmd is Stou
    ||| cmd is List
    ||| cmd is Nlst
}

/// One reply per command: dispatching any command produces, between the
/// immediate reply and the one its effect owes, exactly one reply —
/// except a transfer command with a data connection available, which
/// produces two (`150` now, the completion reply later). The deferred
/// cases are the commands whose immediate reply is suppressed: both
/// `PASV` forms, the storage verbs, `PASS` and `QUIT`.
pub proof fn lemma_one_reply_per_command(cmd: Command<Seq<char>>, s: SessionV, ctx: HandlerCtx)
    ensures
        ({
            let step = spec_dispatch(cmd, s, ctx);
            spec_immediate_replies(step.out.reply) + spec_owed_replies(step.out.effect) == (
            if spec_is_transfer_cmd(cmd) && s.data_conn {
                2nat
            } else {
                1nat
            })
        }),
{
}

/// Internal messages answer for themselves: every internal message
/// other than the two TLS transport switches produces a reply, none
/// requests a further effect, and so no reply is ever owed twice.
pub proof fn lemma_internal_msg_replies(msg: InternalMsg<Seq<char>>, s: SessionV)
    ensures
        spec_internal(msg, s).out.effect is None,
        !(msg is SecureControlChannel || msg is PlaintextControlChannel) ==> spec_immediate_replies(
            spec_internal(msg, s).out.reply,
        ) == 1nat,
{
}

/// The authentication gate: a non-exempt command in a session that has
/// not reached `WaitCmd` is answered `530 Please authenticate`, changes
/// no session state, and requests no effect.
pub proof fn lemma_auth_gate(cmd: Command<Seq<char>>, s: SessionV, ctx: HandlerCtx)
    requires
        !spec_exempt(cmd),
        !(s.state is WaitCmd),
    ensures
        ({
            let step = spec_handle_event(Event::Command { cmd }, s, ctx);
            &&& step.session == s
            &&& step.out.reply == one_line(ReplyCode::NotLoggedIn, "Please authenticate"@)
            &&& step.out.effect is None
        }),
{
}

/// The rename protocol. `RNFR p` stores the resolved source and replies
/// `350`. Exempt commands in between leave it in place. `RNTO q` then
/// requests exactly the rename of that source to the resolved target
/// and clears the stored source before any outcome arrives — so it is
/// cleared even when the rename fails. The rename is reported done
/// (`250`) exactly when the storage backend succeeded: the success
/// message carries `250`, and every storage error maps to a non-`250`
/// code. Without a stored source, `RNTO` is refused with `503`.
pub proof fn lemma_rename_protocol(
    p: Seq<char>,
    q: Seq<char>,
    s: SessionV,
    mid: Command<Seq<char>>,
    ctx: HandlerCtx,
    e: ErrorKind,
    m: Seq<char>,
)
    requires
        spec_exempt(mid),
    ensures
        ({
            let s1 = spec_dispatch(Command::Rnfr { file: p }, s, ctx).session;
            &&& spec_dispatch(Command::Rnfr { file: p }, s, ctx).out.reply == one_line(
                ReplyCode::FileActionPending,
                "Ready for RNTO"@,
            )
            &&& s1.rename_from == Some(spec_resolve(s.cwd, p))
            &&& spec_dispatch(mid, s1, ctx).session.rename_from == s1.rename_from
        }),
        ({
            let s1 = spec_dispatch(Command::Rnfr { file: p }, s, ctx).session;
            let step2 = spec_dispatch(Command::Rnto { file: q }, s1, ctx);
            &&& step2.out.effect == Some(
                Effect::<Seq<char>>::StorageRename {
                    from: spec_resolve(s.cwd, p),
                    to: spec_resolve(s1.cwd, q),
                },
            )
            &&& step2.session.rename_from is None
        }),
        s.rename_from is None ==> spec_dispatch(Command::Rnto { file: q }, s, ctx).out.reply
            == one_line(ReplyCode::BadCommandSequence, "Bad sequence of commands"@),
        spec_internal(
            InternalMsg::CommandChannelReply { code: ReplyCode::FileActionOkay, msg: m },
            s,
        ).out.reply == one_line(ReplyCode::FileActionOkay, m),
        spec_storage_error_reply(e) matches ReplyV::CodeAndMsg { code, .. }
            && code != ReplyCode::FileActionOkay,
{
}

/// `PWD` after `CWD`: a `CWD` to `p` requests the directory check of
/// exactly the resolved target, and in any session whose working
/// directory is that target, `PWD` replies `257` naming it (quoted).
pub proof fn lemma_pwd_after_cwd(p: Seq<char>, s: SessionV, ctx: HandlerCtx)
    ensures
        spec_dispatch(Command::Cwd { path: p }, s, ctx).out.effect == Some(
            Effect::<Seq<char>>::StorageCwd { path: spec_resolve(s.cwd, p) },
        ),
        forall|s2: SessionV|
            s2.cwd == spec_resolve(s.cwd, p) ==> spec_dispatch(
                Command::Pwd,
                s2,
                ctx,
            ).out.reply == one_line(
                ReplyCode::DirCreated,
                spec_pwd_msg(spec_resolve(s.cwd, p)),
            ),
{
}

/// `ABOR` is idempotent: two consecutive `ABOR`s are both answered
/// `226`, whether or not a transfer was active, and the second never
/// finds a transfer to abort.
pub proof fn lemma_abor_idempotent(s: SessionV, ctx: HandlerCtx)
    ensures
        ({
            let step1 = spec_dispatch(Command::Abor, s, ctx);
            let step2 = spec_dispatch(Command::Abor, step1.session, ctx);
            &&& step1.out.reply matches ReplyV::CodeAndMsg { code, .. } && code
                == ReplyCode::ClosingDataConnection
            &&& step2.out.reply matches ReplyV::CodeAndMsg { code, .. } && code
                == ReplyCode::ClosingDataConnection
            &&& step2.out.effect is None
        }),
{
}

/// The dispatcher preserves session well-formedness: a user detail is
/// bound exactly in `WaitCmd`, before and after any command.
pub proof fn lemma_dispatch_preserves_wf(cmd: Command<Seq<char>>, s: SessionV, ctx: HandlerCtx)
    requires
        s.wf(),
    ensures
        spec_dispatch(cmd, s, ctx).session.wf(),
{
}

/// The internal-message handler preserves session well-formedness.
pub proof fn lemma_internal_preserves_wf(msg: InternalMsg<Seq<char>>, s: SessionV)
    requires
        s.wf(),
    ensures
        spec_internal(msg, s).session.wf(),
{
}

/// When the loop closes: only the idle timeout, an error that the error
/// table marks fatal (IO or timeout), and `Quit` close the connection.
/// No command and no other internal message ever does.
pub proof fn lemma_loop_close_conditions(ev: LoopEvent<Seq<char>>, s: SessionV, ctx: HandlerCtx)
    ensures
        spec_loop_step(ev, s, ctx).out.close <==> (ev is Timeout || (ev matches LoopEvent::ChanErr {
            kind,
        } && spec_error_closes(kind)) || (ev matches LoopEvent::Ev { event }
            && event matches Event::InternalMsg { msg } && msg is Quit)),
{
}

/// When the loop swaps the transport: exactly on the two TLS messages,
/// and the session's control-TLS flag follows the swap.
pub proof fn lemma_loop_transport(ev: LoopEvent<Seq<char>>, s: SessionV, ctx: HandlerCtx)
    ensures
        ({
            let step = spec_loop_step(ev, s, ctx);
            &&& (step.out.transport == TransportChange::ToTls <==> (ev matches LoopEvent::Ev {
                event,
            } && event matches Event::InternalMsg { msg } && msg is SecureControlChannel))
            &&& (step.out.transport == TransportChange::ToPlain <==> (ev matches LoopEvent::Ev {
                event,
            } && event matches Event::InternalMsg { msg } && msg is PlaintextControlChannel))
            &&& (step.out.transport == TransportChange::ToTls ==> step.session.cmd_tls)
            &&& (step.out.transport == TransportChange::ToPlain ==> !step.session.cmd_tls)
        }),
{
}

/// The loop preserves session well-formedness for every wake-up.
pub proof fn lemma_loop_preserves_wf(ev: LoopEvent<Seq<char>>, s: SessionV, ctx: HandlerCtx)
    requires
        s.wf(),
    ensures
        spec_loop_step(ev, s, ctx).session.wf(),
{
    if let LoopEvent::Ev { event } = ev {
        match event {
            Event::Command { cmd } => {
                if spec_exempt(cmd) || s.state is WaitCmd {
                    lemma_dispatch_preserves_wf(cmd, s, ctx);
                }
            },
            Event::InternalMsg { msg } => {
                lemma_internal_preserves_wf(msg, s);
            },
        }
    }
}

} // verus!
