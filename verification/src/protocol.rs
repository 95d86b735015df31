//! The messages exchanged between a caller and the transaction worker,
//! together with their ghost-level models.

use vstd::prelude::*;

verus! {

/// One operation to run against the live transactional handle.
///
/// A command is created by the caller, carried to the worker inside a
/// [`Request`], and consumed exactly once.
#[derive(Debug, PartialEq, Eq)]
pub enum Command {
    /// Set `key` to `value`; the worker replies with the key's previous value.
    Insert { key: Vec<u8>, value: Vec<u8> },
    /// Ask the engine to persist the transaction's effects on commit; the
    /// worker replies with an acknowledgement.
    Flush,
    /// Stop relaying and let the engine commit the transaction.
    Close,
    /// Stop relaying and let the engine roll the transaction back.
    Abort,
}

/// The ghost model of a [`Command`]: byte vectors become sequences.
pub ghost enum CmdModel {
    Insert(Seq<u8>, Seq<u8>),
    Flush,
    Close,
    Abort,
}

impl View for Command {
    type V = CmdModel;

    open spec fn view(&self) -> CmdModel {
        match self {
            Command::Insert { key, value } => CmdModel::Insert(key@, value@),
            Command::Flush => CmdModel::Flush,
            Command::Close => CmdModel::Close,
            Command::Abort => CmdModel::Abort,
        }
    }
}

/// Whether a command ends the relay loop.
pub open spec fn is_terminal(c: CmdModel) -> bool {
    c is Close || c is Abort
}

/// What the worker does after dispatching one command: keep relaying, or
/// return to the engine with a commit or an abort decision.
#[derive(Debug, PartialEq, Eq, Structural)]
pub enum SledTransactionalTreeAction {
    Continue,
    Close,
    Abort,
}

/// The action a command asks for, at the model level.
pub open spec fn spec_action(c: CmdModel) -> SledTransactionalTreeAction {
    match c {
        CmdModel::Close => SledTransactionalTreeAction::Close,
        CmdModel::Abort => SledTransactionalTreeAction::Abort,
        _ => SledTransactionalTreeAction::Continue,
    }
}

/// Classify a command: `Close` and `Abort` end the relay loop, everything
/// else keeps it running.
pub fn action_of(c: &Command) -> (a: SledTransactionalTreeAction)
    ensures
        a == spec_action(c@),
{
    match c {
        Command::Close => SledTransactionalTreeAction::Close,
        Command::Abort => SledTransactionalTreeAction::Abort,
        _ => SledTransactionalTreeAction::Continue,
    }
}

/// A command plus its routing metadata: the caller's identity and a
/// correlation token that the reply will carry back.
#[derive(Debug, PartialEq, Eq)]
pub struct Request {
    pub caller: u64,
    pub token: u64,
    pub command: Command,
}

/// The payload of one non-terminal command's reply.
#[derive(Debug, PartialEq, Eq)]
pub enum Reply {
    /// The value the key held immediately before an insert, or `None` if the
    /// key was absent.
    Previous(Option<Vec<u8>>),
    /// Acknowledgement of a flush.
    FlushAck,
}

/// The ghost model of a [`Reply`].
pub ghost enum ReplyModel {
    Previous(Option<Seq<u8>>),
    FlushAck,
}

/// The model of an optional byte vector.
pub open spec fn opt_bytes(p: Option<Vec<u8>>) -> Option<Seq<u8>> {
    match p {
        Some(v) => Some(v@),
        None => None,
    }
}

impl View for Reply {
    type V = ReplyModel;

    open spec fn view(&self) -> ReplyModel {
        match self {
            Reply::Previous(p) => ReplyModel::Previous(opt_bytes(*p)),
            Reply::FlushAck => ReplyModel::FlushAck,
        }
    }
}

/// Why a transaction was rolled back.
#[derive(Debug, PartialEq, Eq)]
pub enum AbortReason {
    /// The caller explicitly asked for a rollback.
    UserAbort,
    /// The caller's channel endpoint went away before a `Close` or `Abort`
    /// command arrived, so the worker gave the transaction up.
    Disconnected,
}

/// The terminal result of a whole transaction, produced exactly once.
#[derive(Debug, PartialEq, Eq)]
pub enum Outcome {
    /// The engine committed every mutation of the final attempt.
    Committed,
    /// The engine rolled every mutation back.
    Aborted(AbortReason),
    /// The engine reported a storage failure; the detail is the engine's own
    /// description of it.
    StorageError(String),
}

/// A message from the worker to the caller.
#[derive(Debug, PartialEq, Eq)]
pub enum Message {
    /// Emitted once per closure entry; the engine may enter the closure more
    /// than once when it retries on a write conflict, and each entry is
    /// observably a fresh relay loop.
    Started,
    /// The reply to one non-terminal command, tagged with the caller identity
    /// and correlation token of the request it answers.
    Reply { caller: u64, token: u64, reply: Reply },
    /// The terminal result of the transaction; sent exactly once, last.
    Completion(Outcome),
}

} // verus!
