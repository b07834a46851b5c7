//! The session loop's state machine: the single "awaiting line" state, the
//! dispatch of one parsed line against a read-only wallet snapshot, and the
//! distinct diagnostic each parse error maps to. Reading lines, printing,
//! prompt history and the actual payment submission are the surrounding
//! program's plumbing; every decision stands here.

use vstd::prelude::*;
use vstd::string::StringExecFns;
use crate::grammar::Command;
use crate::grammar::CommandError;
use crate::grammar::CommandView;
use crate::grammar::CommandErrorView;
use crate::grammar::spec_parse;
use crate::numeral::dec_str;
use crate::numeral::u64_to_dec;
use crate::subscriber::SubscriberView;
use crate::subscriber::spec_after_persist;

verus! {

/// A read-only snapshot of the wallet handle: the public key in its textual
/// form and the last-known balance.
#[derive(Debug, Clone, PartialEq, Eq)]
pub struct Snapshot {
    pub balance: u64,
    pub pub_key: String,
}

/// The mathematical shape of a [`Snapshot`].
pub ghost struct SnapshotView {
    pub balance: u64,
    pub pub_key: Seq<char>,
}

impl View for Snapshot {
    type V = SnapshotView;

    open spec fn view(&self) -> SnapshotView {
        SnapshotView { balance: self.balance, pub_key: self.pub_key@ }
    }
}

/// What the session loop does with one line.
#[derive(Debug, Clone, PartialEq, Eq)]
pub enum Reply {
    /// Print the balance read from the snapshot.
    ShowBalance { balance: u64 },
    /// Print the public key read from the snapshot.
    ShowPubkey { pub_key: String },
    /// Print the static help text.
    ShowHelp,
    /// Spawn a payment submission and return to the prompt without waiting.
    SubmitPayment { value: u64, to: Vec<u8> },
    /// A diagnostic for a line that failed to parse; the loop continues.
    Diagnostic { message: String },
}

/// The mathematical shape of a [`Reply`].
pub ghost enum ReplyView {
    ShowBalance { balance: u64 },
    ShowPubkey { pub_key: Seq<char> },
    ShowHelp,
    SubmitPayment { value: u64, to: Seq<u8> },
    Diagnostic { message: Seq<char> },
}

impl View for Reply {
    type V = ReplyView;

    open spec fn view(&self) -> ReplyView {
        match self {
            Reply::ShowBalance { balance } => ReplyView::ShowBalance { balance: *balance },
            Reply::ShowPubkey { pub_key } => ReplyView::ShowPubkey { pub_key: pub_key@ },
            Reply::ShowHelp => ReplyView::ShowHelp,
            Reply::SubmitPayment { value, to } => ReplyView::SubmitPayment {
                value: *value,
                to: to@,
            },
            Reply::Diagnostic { message } => ReplyView::Diagnostic { message: message@ },
        }
    }
}

/// The distinct human-readable diagnostic each parse error maps to,
/// reported inline. No parse error terminates the loop.
pub open spec fn spec_diagnostic(e: CommandErrorView) -> ReplyView {
    match e {
        CommandErrorView::NoCommand => ReplyView::Diagnostic { message: "No command"@ },
        CommandErrorView::UnknownCommand => ReplyView::Diagnostic {
            message: "Unknown command"@,
        },
        CommandErrorView::InvalidArgument { message } => ReplyView::Diagnostic {
            message: "Invalid argument: "@ + message,
        },
        CommandErrorView::ArgumentCount { expected } => ReplyView::Diagnostic {
            message: "Expected "@ + dec_str(expected as nat) + " arguments"@,
        },
    }
}

/// The reply to one parse outcome, against the given wallet snapshot. A
/// query reads the snapshot and nothing else; a payment only requests a
/// submission; a parse error only produces its diagnostic.
pub open spec fn spec_reply(p: Result<CommandView, CommandErrorView>, snap: SnapshotView) -> ReplyView {
    match p {
        Ok(CommandView::Balance) => ReplyView::ShowBalance { balance: snap.balance },
        Ok(CommandView::Pubkey) => ReplyView::ShowPubkey { pub_key: snap.pub_key },
        Ok(CommandView::Help) => ReplyView::ShowHelp,
        Ok(CommandView::Pay { value, to }) => ReplyView::SubmitPayment { value, to },
        Err(e) => spec_diagnostic(e),
    }
}

/// Renders the diagnostic for one parse error.
pub fn diagnostic(e: CommandError) -> (r: Reply)
    ensures
        r@ == spec_diagnostic(e@),
{
    match e {
        CommandError::NoCommand => Reply::Diagnostic { message: "No command".to_owned() },
        CommandError::UnknownCommand => Reply::Diagnostic {
            message: "Unknown command".to_owned(),
        },
        CommandError::InvalidArgument { message } => {
            let mut m = "Invalid argument: ".to_owned();
            m.append(message.as_str());
            Reply::Diagnostic { message: m }
        },
        CommandError::ArgumentCount { expected } => {
            let mut m = "Expected ".to_owned();
            let numeral = u64_to_dec(expected as u64);
            m.append(numeral.as_str());
            m.append(" arguments");
            Reply::Diagnostic { message: m }
        },
    }
}

/// Parses one line and dispatches it against the snapshot.
pub fn dispatch_line(line: &str, snap: &Snapshot) -> (r: Reply)
    ensures
        r@ == spec_reply(spec_parse(line@), snap@),
{
    match Command::from_str(line) {
        Ok(Command::Balance) => Reply::ShowBalance { balance: snap.balance },
        Ok(Command::Pubkey) => Reply::ShowPubkey { pub_key: snap.pub_key.clone() },
        Ok(Command::Help) => Reply::ShowHelp,
        Ok(Command::Pay { value, to }) => Reply::SubmitPayment { value, to },
        Err(e) => diagnostic(e),
    }
}

/// The static help text: one line per recognized command.
pub fn help_lines() -> (r: Vec<String>)
    ensures
        r@.len() == 4,
        r@[0]@ == "\thelp: prints this help"@,
        r@[1]@ == "\tbalance: prints the balance"@,
        r@[2]@ == "\tpubkey: prints the public key"@,
        r@[3]@ == "\tpay <value> <public_key>:pay value XEC to the public_key"@,
{
    let mut lines: Vec<String> = Vec::new();
    lines.push("\thelp: prints this help".to_owned());
    lines.push("\tbalance: prints the balance".to_owned());
    lines.push("\tpubkey: prints the public key".to_owned());
    lines.push("\tpay <value> <public_key>:pay value XEC to the public_key".to_owned());
    lines
}

/// One event observed while awaiting a line.
#[derive(Debug, Clone, PartialEq, Eq)]
pub enum SessionEvent {
    /// A line was read.
    Line { text: String },
    /// The operator interrupted the session.
    Interrupted,
    /// The input ended.
    EndOfInput,
    /// Reading failed irrecoverably; `message` describes the failure.
    ReadFailure { message: String },
}

/// The session loop's state: awaiting the next line, or terminating.
#[derive(Debug, Clone, Copy, PartialEq, Eq)]
pub enum SessionState {
    AwaitingLine,
    Terminating,
}

/// What the loop does after one event. Terminating flushes the prompt
/// history best-effort; a failure of that flush is reported, never fatal.
#[derive(Debug, Clone, PartialEq, Eq)]
pub enum SessionEffect {
    /// Record the raw line in the prompt history, then act on the reply.
    Respond { record: String, reply: Reply },
    /// Say goodbye: the session ends cleanly.
    Farewell { message: String },
    /// Report the read error: the session ends.
    ReportReadError { message: String },
}

/// The mathematical shape of a [`SessionEffect`].
pub ghost enum SessionEffectView {
    Respond { record: Seq<char>, reply: ReplyView },
    Farewell { message: Seq<char> },
    ReportReadError { message: Seq<char> },
}

impl View for SessionEffect {
    type V = SessionEffectView;

    open spec fn view(&self) -> SessionEffectView {
        match self {
            SessionEffect::Respond { record, reply } => SessionEffectView::Respond {
                record: record@,
                reply: reply@,
            },
            SessionEffect::Farewell { message } => SessionEffectView::Farewell {
                message: message@,
            },
            SessionEffect::ReportReadError { message } => SessionEffectView::ReportReadError {
                message: message@,
            },
        }
    }
}

/// Drives one transition of the loop: a line is parsed, dispatched and
/// answered, and the loop returns to awaiting the next line; an interrupt
/// or the end of input terminates the session cleanly with a farewell; a
/// read failure terminates it with a report.
pub fn session_step(event: SessionEvent, snap: &Snapshot) -> (r: (SessionState, SessionEffect))
    ensures
        event matches SessionEvent::Line { text } ==> r.0 == SessionState::AwaitingLine && r.1@
            == (SessionEffectView::Respond {
            record: text@,
            reply: spec_reply(spec_parse(text@), snap@),
        }),
        event == SessionEvent::Interrupted || event == SessionEvent::EndOfInput ==> r.0
            == SessionState::Terminating && r.1@ == (SessionEffectView::Farewell {
            message: "Bye !"@,
        }),
        event matches SessionEvent::ReadFailure { message } ==> r.0 == SessionState::Terminating
            && r.1@ == (SessionEffectView::ReportReadError { message: "Error: "@ + message@ }),
{
    match event {
        SessionEvent::Line { text } => {
            let reply = dispatch_line(text.as_str(), snap);
            (SessionState::AwaitingLine, SessionEffect::Respond { record: text, reply })
        },
        SessionEvent::Interrupted => (
            SessionState::Terminating,
            SessionEffect::Farewell { message: "Bye !".to_owned() },
        ),
        SessionEvent::EndOfInput => (
            SessionState::Terminating,
            SessionEffect::Farewell { message: "Bye !".to_owned() },
        ),
        SessionEvent::ReadFailure { message } => {
            let mut m = "Error: ".to_owned();
            m.append(message.as_str());
            (SessionState::Terminating, SessionEffect::ReportReadError { message: m })
        },
    }
}

/// A persistence failure ends the subscriber alone: the session loop is
/// untouched, and a later `balance` line still answers from the in-memory
/// snapshot.
pub proof fn lemma_persist_failure_spares_session(
    m: SubscriberView,
    snap: SnapshotView,
    line: Seq<char>,
)
    requires
        spec_parse(line) == Ok::<CommandView, CommandErrorView>(CommandView::Balance),
    ensures
        !spec_after_persist(m, false).active,
        spec_reply(spec_parse(line), snap) == (ReplyView::ShowBalance { balance: snap.balance }),
{
}

} // verus!
