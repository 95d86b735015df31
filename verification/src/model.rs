//! The relay semantics: what a sequence of commands does to a store, which
//! replies it earns, and how the transaction ends.
//!
//! `run_attempt` is the executable embodiment of these semantics over a
//! [`TreeModel`]; its contract pins the replies, the outcome and the
//! post-state for every command sequence. The laws in `laws` are proved
//! against the same spec functions.

use vstd::prelude::*;

use crate::protocol::AbortReason;
use crate::protocol::CmdModel;
use crate::protocol::Command;
use crate::protocol::Outcome;
use crate::protocol::Reply;
use crate::protocol::ReplyModel;
use crate::protocol::SledTransactionalTreeAction;
use crate::protocol::action_of;
use crate::protocol::is_terminal;
use crate::store::StoreModel;
use crate::store::TreeModel;
use crate::store::store_lookup;

verus! {

/// The models of a sequence of commands.
pub open spec fn cmd_views(s: Seq<Command>) -> Seq<CmdModel> {
    Seq::new(s.len(), |i: int| s[i]@)
}

/// The models of a sequence of replies.
pub open spec fn reply_views(s: Seq<Reply>) -> Seq<ReplyModel> {
    Seq::new(s.len(), |i: int| s[i]@)
}

/// The key an insert command writes.
pub open spec fn insert_key(c: CmdModel) -> Seq<u8> {
    match c {
        CmdModel::Insert(k, _) => k,
        _ => Seq::empty(),
    }
}

/// The value an insert command writes.
pub open spec fn insert_val(c: CmdModel) -> Seq<u8> {
    match c {
        CmdModel::Insert(_, v) => v,
        _ => Seq::empty(),
    }
}

/// How many commands the worker dispatches before a terminal command stops
/// it: the index of the first `Close` or `Abort`, or the whole length if
/// there is none.
pub open spec fn relay_len(cmds: Seq<CmdModel>) -> int
    decreases cmds.len(),
{
    if cmds.len() == 0 {
        0
    } else if is_terminal(cmds[0]) {
        0
    } else {
        1 + relay_len(cmds.skip(1))
    }
}

/// `relay_len` points at the first terminal command, or past the end.
pub proof fn lemma_relay_len_bounds(cmds: Seq<CmdModel>)
    ensures
        0 <= relay_len(cmds) <= cmds.len(),
        forall|j: int| 0 <= j < relay_len(cmds) ==> !is_terminal(cmds[j]),
        relay_len(cmds) < cmds.len() ==> is_terminal(cmds[relay_len(cmds)]),
    decreases cmds.len(),
{
    if cmds.len() > 0 && !is_terminal(cmds[0]) {
        let tail = cmds.skip(1);
        lemma_relay_len_bounds(tail);
        assert forall|j: int| 0 <= j < relay_len(cmds) implies !is_terminal(cmds[j]) by {
            if j > 0 {
                assert(!is_terminal(tail[j - 1]));
                assert(tail[j - 1] == cmds[j]);
            }
        }
        if relay_len(cmds) < cmds.len() {
            assert(is_terminal(tail[relay_len(cmds) - 1]));
            assert(tail[relay_len(cmds) - 1] == cmds[relay_len(cmds)]);
        }
    }
}

/// The first terminal position determines `relay_len` exactly.
pub proof fn lemma_relay_len_at(cmds: Seq<CmdModel>, n: int)
    requires
        0 <= n <= cmds.len(),
        forall|j: int| 0 <= j < n ==> !is_terminal(cmds[j]),
        n < cmds.len() ==> is_terminal(cmds[n]),
    ensures
        relay_len(cmds) == n,
{
    lemma_relay_len_bounds(cmds);
    let r = relay_len(cmds);
    if r < n {
        assert(is_terminal(cmds[r]));
        assert(!is_terminal(cmds[r]));
    } else if r > n {
        assert(n < cmds.len());
        assert(!is_terminal(cmds[n]));
        assert(is_terminal(cmds[n]));
    }
}

/// The store after the first `n` commands of an attempt have been applied to
/// a store that began as `init`.
pub open spec fn store_after(init: StoreModel, cmds: Seq<CmdModel>, n: int) -> StoreModel
    decreases n,
{
    if n <= 0 {
        init
    } else {
        let prev = store_after(init, cmds, n - 1);
        match cmds[n - 1] {
            CmdModel::Insert(k, v) => prev.insert(k, v),
            _ => prev,
        }
    }
}

/// The reply the command at position `i` earns: for an insert, the value its
/// key held immediately before; for a flush, an acknowledgement.
pub open spec fn reply_at(init: StoreModel, cmds: Seq<CmdModel>, i: int) -> ReplyModel {
    match cmds[i] {
        CmdModel::Insert(k, _) => ReplyModel::Previous(store_lookup(store_after(init, cmds, i), k)),
        _ => ReplyModel::FlushAck,
    }
}

/// The replies of a whole attempt, one per dispatched non-terminal command,
/// in command order.
pub open spec fn replies_of(init: StoreModel, cmds: Seq<CmdModel>) -> Seq<ReplyModel> {
    Seq::new(relay_len(cmds) as nat, |i: int| reply_at(init, cmds, i))
}

/// How an attempt over `cmds` ends: committed on `Close`, rolled back on
/// `Abort`, and rolled back as disconnected when the stream of commands runs
/// out with no terminal command.
pub open spec fn outcome_of(cmds: Seq<CmdModel>) -> Outcome {
    let n = relay_len(cmds);
    if n == cmds.len() {
        Outcome::Aborted(AbortReason::Disconnected)
    } else if cmds[n] is Close {
        Outcome::Committed
    } else {
        Outcome::Aborted(AbortReason::UserAbort)
    }
}

/// The store the attempt leaves behind: the applied inserts when it commits,
/// the untouched initial store otherwise.
pub open spec fn post_store(init: StoreModel, cmds: Seq<CmdModel>) -> StoreModel {
    if outcome_of(cmds) is Committed {
        store_after(init, cmds, relay_len(cmds))
    } else {
        init
    }
}

/// Run one whole transaction attempt against a model store.
///
/// The commands are dispatched in order until the first `Close` or `Abort`;
/// running out of commands models the caller dropping its channel endpoint.
/// The returned store is the committed post-state on `Close` and a copy of
/// the untouched initial store otherwise; the replies answer the dispatched
/// non-terminal commands one-for-one, in order.
pub fn run_attempt(store: &TreeModel, cmds: &Vec<Command>) -> (res: (TreeModel, Vec<Reply>, Outcome))
    requires
        store.wf(),
    ensures
        res.0.wf(),
        res.0@ == post_store(store@, cmd_views(cmds@)),
        reply_views(res.1@) == replies_of(store@, cmd_views(cmds@)),
        res.2 == outcome_of(cmd_views(cmds@)),
{
    let ghost cv = cmd_views(cmds@);
    let ghost init = store@;
    let mut work = store.duplicate();
    let mut replies: Vec<Reply> = Vec::new();
    let n = cmds.len();
    for idx in 0..n
        invariant
            n == cmds@.len(),
            cv == cmd_views(cmds@),
            init == store@,
            store.wf(),
            work.wf(),
            work@ == store_after(init, cv, idx as int),
            forall|j: int| 0 <= j < idx ==> !is_terminal(cv[j]),
            replies@.len() == idx,
            forall|j: int| 0 <= j < idx ==> replies@[j]@ == reply_at(init, cv, j),
    {
        let cmd = &cmds[idx];
        match action_of(cmd) {
            SledTransactionalTreeAction::Close => {
                proof {
                    lemma_relay_len_at(cv, idx as int);
                    assert(reply_views(replies@) =~= replies_of(init, cv));
                }
                return (work, replies, Outcome::Committed);
            }
            SledTransactionalTreeAction::Abort => {
                proof {
                    lemma_relay_len_at(cv, idx as int);
                    assert(reply_views(replies@) =~= replies_of(init, cv));
                }
                return (store.duplicate(), replies, Outcome::Aborted(AbortReason::UserAbort));
            }
            SledTransactionalTreeAction::Continue => {
                match cmd {
                    Command::Insert { key, value } => {
                        let k = key.clone();
                        let v = value.clone();
                        assert(k@ =~= key@);
                        assert(v@ =~= value@);
                        let prev = work.insert(k, v);
                        let reply = Reply::Previous(prev);
                        proof {
                            assert(reply@ == reply_at(init, cv, idx as int));
                        }
                        replies.push(reply);
                    }
                    _ => {
                        replies.push(Reply::FlushAck);
                    }
                }
            }
        }
    }
    proof {
        lemma_relay_len_at(cv, n as int);
        assert(reply_views(replies@) =~= replies_of(init, cv));
    }
    (store.duplicate(), replies, Outcome::Aborted(AbortReason::Disconnected))
}

} // verus!
