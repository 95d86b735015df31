//! The transaction worker: a relay loop that lives inside the engine's
//! transaction closure, applies each arriving command to the live
//! transactional handle, answers it, and decides how the closure returns.
//!
//! The loop is verified against a ghost trace of the commands it dispatched:
//! whatever the channels and the engine did, the loop's result is the one
//! the relay semantics of `model` assign to that trace.
//!
//! A caveat the engine imposes: when it detects a write conflict it retries
//! the whole closure, discarding the failed attempt's effects — but the
//! commands that attempt already drained from the channel are not replayed,
//! so on such a retry the caller's command stream and the operations the
//! fresh attempt applies can diverge. Each closure entry announces itself
//! with a `Started` message so a caller can at least observe the retry.

use vstd::prelude::*;

use sled::transaction::ConflictableTransactionError;
use sled::transaction::TransactionError;

use crate::channel::recv_request;
use crate::channel::send_message;
use crate::engine::tx_flush;
use crate::engine::tx_insert;
use crate::model::outcome_of;
use crate::model::lemma_relay_len_at;
use crate::protocol::AbortReason;
use crate::protocol::CmdModel;
use crate::protocol::Command;
use crate::protocol::Message;
use crate::protocol::Outcome;
use crate::protocol::Reply;
use crate::protocol::Request;
use crate::protocol::SledTransactionalTreeAction;
use crate::protocol::action_of;
use crate::protocol::is_terminal;

verus! {

/// Why one relay attempt stopped.
pub enum AttemptFail {
    /// The engine refused an insert; the error goes back to the engine so
    /// that a conflict can trigger its own retry.
    Engine(sled::transaction::UnabortableTransactionError),
    /// The attempt decided to abort: on the caller's request, or because a
    /// channel endpoint was gone.
    Abort(AbortReason),
}

/// How a relay attempt ended, at the trace level.
pub ghost enum RelayEnd {
    /// A `Close` command arrived; the closure returns success.
    Closed,
    /// An `Abort` command arrived; the closure aborts.
    UserAborted,
    /// The command channel's send side was dropped.
    ChannelLost,
    /// A reply could not be delivered: the reply channel's receive side was
    /// dropped.
    ReplyLost,
    /// The engine refused an insert.
    EngineFailed,
    /// The relay budget ran out.
    Exhausted,
}

/// What one relay attempt observably did: the commands it dispatched, in
/// order, and how it stopped.
pub ghost struct RelayTrace {
    pub cmds: Seq<CmdModel>,
    pub end: RelayEnd,
}

/// The first `n` commands keep the relay running.
pub open spec fn nonterminal_prefix(s: Seq<CmdModel>, n: int) -> bool {
    forall|i: int| 0 <= i < n ==> !is_terminal(s[i])
}

/// A trace an attempt can actually leave behind: every dispatched command
/// before the stop is non-terminal, and the stop matches the last command.
pub open spec fn trace_wf(t: RelayTrace) -> bool {
    match t.end {
        RelayEnd::Closed => t.cmds.len() > 0 && t.cmds.last() is Close && nonterminal_prefix(
            t.cmds,
            t.cmds.len() - 1,
        ),
        RelayEnd::UserAborted => t.cmds.len() > 0 && t.cmds.last() is Abort && nonterminal_prefix(
            t.cmds,
            t.cmds.len() - 1,
        ),
        RelayEnd::ChannelLost => nonterminal_prefix(t.cmds, t.cmds.len() as int),
        RelayEnd::ReplyLost => nonterminal_prefix(t.cmds, t.cmds.len() as int),
        RelayEnd::EngineFailed => t.cmds.len() > 0 && t.cmds.last() is Insert
            && nonterminal_prefix(t.cmds, t.cmds.len() as int),
        RelayEnd::Exhausted => nonterminal_prefix(t.cmds, t.cmds.len() as int),
    }
}

/// How an attempt's result must relate to its trace.
pub open spec fn relay_post(r: Result<(), AttemptFail>, t: RelayTrace) -> bool {
    &&& trace_wf(t)
    &&& (r is Ok <==> t.end is Closed)
    &&& (r == Result::<(), AttemptFail>::Err(AttemptFail::Abort(AbortReason::UserAbort))
        <==> t.end is UserAborted)
    &&& (r == Result::<(), AttemptFail>::Err(AttemptFail::Abort(AbortReason::Disconnected))
        <==> (t.end is ChannelLost || t.end is ReplyLost || t.end is Exhausted))
    &&& ((r matches Err(AttemptFail::Engine(_))) <==> t.end is EngineFailed)
}

/// A trace that stops on a command agrees with the relay semantics: closing
/// commits, aborting is a user abort, and a lost channel is a disconnection.
pub proof fn lemma_trace_outcome(t: RelayTrace)
    requires
        trace_wf(t),
    ensures
        t.end is Closed ==> outcome_of(t.cmds) is Committed,
        t.end is UserAborted ==> outcome_of(t.cmds) == Outcome::Aborted(AbortReason::UserAbort),
        t.end is ChannelLost || t.end is ReplyLost || t.end is Exhausted ==> outcome_of(t.cmds)
            == Outcome::Aborted(AbortReason::Disconnected),
{
    match t.end {
        RelayEnd::Closed => lemma_relay_len_at(t.cmds, t.cmds.len() - 1),
        RelayEnd::UserAborted => lemma_relay_len_at(t.cmds, t.cmds.len() - 1),
        RelayEnd::ChannelLost => lemma_relay_len_at(t.cmds, t.cmds.len() as int),
        RelayEnd::ReplyLost => lemma_relay_len_at(t.cmds, t.cmds.len() as int),
        RelayEnd::Exhausted => lemma_relay_len_at(t.cmds, t.cmds.len() as int),
        RelayEnd::EngineFailed => {}
    }
}

/// One relay attempt: announce the attempt, then pull commands off the
/// channel one at a time, apply each to the live transactional handle,
/// answer it, and stop on the first terminal command, channel failure,
/// engine failure, or when `budget` commands have been dispatched.
///
/// The returned ghost trace records what happened; the result is tied to it
/// by [`relay_post`]. The budget only bounds the loop's measure: at its
/// default of `u64::MAX` it cannot run out in practice.
fn relay_attempt(
    t: &sled::transaction::TransactionalTree,
    rx: &crossbeam_channel::Receiver<Request>,
    out: &crossbeam_channel::Sender<Message>,
    budget: u64,
) -> (res: (Result<(), AttemptFail>, Ghost<RelayTrace>))
    ensures
        relay_post(res.0, res.1@),
        res.1@.cmds.len() <= budget,
{
    if send_message(out, Message::Started).is_err() {
        return (
            Err(AttemptFail::Abort(AbortReason::Disconnected)),
            Ghost(RelayTrace { cmds: Seq::empty(), end: RelayEnd::ReplyLost }),
        );
    }
    let mut remaining: u64 = budget;
    let ghost mut cmds: Seq<CmdModel> = Seq::empty();
    loop
        invariant
            nonterminal_prefix(cmds, cmds.len() as int),
            cmds.len() + remaining == budget,
        decreases remaining,
    {
        if remaining == 0 {
            return (
                Err(AttemptFail::Abort(AbortReason::Disconnected)),
                Ghost(RelayTrace { cmds, end: RelayEnd::Exhausted }),
            );
        }
        remaining = remaining - 1;
        match recv_request(rx) {
            None => {
                return (
                    Err(AttemptFail::Abort(AbortReason::Disconnected)),
                    Ghost(RelayTrace { cmds, end: RelayEnd::ChannelLost }),
                );
            }
            Some(req) => {
                let caller = req.caller;
                let token = req.token;
                let command = req.command;
                match action_of(&command) {
                    SledTransactionalTreeAction::Close => {
                        proof {
                            cmds = cmds.push(command@);
                        }
                        return (Ok(()), Ghost(RelayTrace { cmds, end: RelayEnd::Closed }));
                    }
                    SledTransactionalTreeAction::Abort => {
                        proof {
                            cmds = cmds.push(command@);
                        }
                        return (
                            Err(AttemptFail::Abort(AbortReason::UserAbort)),
                            Ghost(RelayTrace { cmds, end: RelayEnd::UserAborted }),
                        );
                    }
                    SledTransactionalTreeAction::Continue => {
                        match command {
                            Command::Insert { key, value } => {
                                match tx_insert(t, &key, &value) {
                                    Err(e) => {
                                        proof {
                                            cmds = cmds.push(CmdModel::Insert(key@, value@));
                                        }
                                        return (
                                            Err(AttemptFail::Engine(e)),
                                            Ghost(
                                                RelayTrace { cmds, end: RelayEnd::EngineFailed },
                                            ),
                                        );
                                    }
                                    Ok(prev) => {
                                        proof {
                                            cmds = cmds.push(CmdModel::Insert(key@, value@));
                                        }
                                        let sent = send_message(
                                            out,
                                            Message::Reply {
                                                caller,
                                                token,
                                                reply: Reply::Previous(prev),
                                            },
                                        );
                                        if sent.is_err() {
                                            return (
                                                Err(AttemptFail::Abort(AbortReason::Disconnected)),
                                                Ghost(
                                                    RelayTrace { cmds, end: RelayEnd::ReplyLost },
                                                ),
                                            );
                                        }
                                    }
                                }
                            }
                            _ => {
                                tx_flush(t);
                                proof {
                                    cmds = cmds.push(command@);
                                }
                                let sent = send_message(
                                    out,
                                    Message::Reply { caller, token, reply: Reply::FlushAck },
                                );
                                if sent.is_err() {
                                    return (
                                        Err(AttemptFail::Abort(AbortReason::Disconnected)),
                                        Ghost(RelayTrace { cmds, end: RelayEnd::ReplyLost }),
                                    );
                                }
                            }
                        }
                    }
                }
            }
        }
    }
}

/// An empty trace to stand beside an outcome that promises nothing of it.
fn placeholder_trace() -> (g: Ghost<RelayTrace>) {
    Ghost(RelayTrace { cmds: Seq::empty(), end: RelayEnd::ChannelLost })
}

/// Relies on `sled::Tree::transaction` (the engine's `Transactional` impl
/// for `Tree`): the closure may run more than once when the engine retries
/// a write conflict; `Ok` comes back only when the closure's final run
/// returned `Ok` and the engine committed its writes; an abort value the
/// closure returns comes back verbatim inside `TransactionError::Abort`;
/// engine failures surface as `TransactionError::Storage`. The relay
/// attempt's verified contract ties each of those results to the ghost
/// trace travelling beside it.
#[verifier::external_body]
fn run_transaction(
    tree: &sled::Tree,
    rx: &crossbeam_channel::Receiver<Request>,
    out: &crossbeam_channel::Sender<Message>,
) -> (res: (Outcome, Ghost<RelayTrace>))
    ensures
        res.0 is Committed ==> trace_wf(res.1@) && res.1@.end is Closed,
        res.0 == Outcome::Aborted(AbortReason::UserAbort) ==> trace_wf(res.1@)
            && res.1@.end is UserAborted,
        res.0 == Outcome::Aborted(AbortReason::Disconnected) ==> trace_wf(res.1@) && (
        res.1@.end is ChannelLost || res.1@.end is ReplyLost || res.1@.end is Exhausted),
{
    let r = tree.transaction(|t| match relay_attempt(t, rx, out, u64::MAX) {
        (Ok(()), g) => Ok(g),
        (Err(AttemptFail::Engine(e)), _) => Err(e.into()),
        (Err(AttemptFail::Abort(a)), g) => Err(ConflictableTransactionError::Abort((a, g))),
    });
    match r {
        Ok(g) => (Outcome::Committed, g),
        Err(TransactionError::Abort((a, g))) => (Outcome::Aborted(a), g),
        Err(TransactionError::Storage(e)) => (
            Outcome::StorageError(format!("sled::result::{:?}", e)),
            placeholder_trace(),
        ),
    }
}

/// The worker's whole life: run the transaction to its outcome, then report
/// that outcome to the caller in exactly one `Completion` message.
///
/// The ghost result pairs the reported outcome with the final attempt's
/// trace: unless the engine itself failed, the outcome is exactly the one
/// the relay semantics assign to the commands the worker dispatched.
/// Dropping the command channel's send side makes the attempt end as
/// disconnected, so a worker whose caller goes away terminates instead of
/// blocking forever.
pub fn transaction_server(
    tree: &sled::Tree,
    rx: &crossbeam_channel::Receiver<Request>,
    out: &crossbeam_channel::Sender<Message>,
) -> (res: Ghost<(Outcome, RelayTrace)>)
    ensures
        !(res@.0 is StorageError) ==> trace_wf(res@.1) && res@.0 == outcome_of(res@.1.cmds),
{
    let (outcome, trace) = run_transaction(tree, rx, out);
    let ghost pair = (outcome, trace@);
    proof {
        if !(outcome is StorageError) {
            lemma_trace_outcome(trace@);
        }
    }
    let _ = send_message(out, Message::Completion(outcome));
    Ghost(pair)
}

} // verus!
