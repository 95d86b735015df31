//! The guarantees the coordinator gives, proved against the relay semantics
//! of `model`: atomicity of a closed attempt, rollback of an aborted one,
//! reply correctness and ordering, and disconnection safety.

use vstd::prelude::*;

use crate::protocol::AbortReason;
use crate::protocol::CmdModel;
use crate::protocol::Outcome;
use crate::protocol::ReplyModel;
use crate::protocol::is_terminal;
use crate::model::insert_key;
use crate::model::insert_val;
use crate::model::lemma_relay_len_at;
use crate::model::lemma_relay_len_bounds;
use crate::model::relay_len;
use crate::model::replies_of;
use crate::model::reply_at;
use crate::model::store_after;
use crate::model::outcome_of;
use crate::model::post_store;
use crate::store::StoreModel;
use crate::store::store_lookup;

verus! {

/// After `n` commands, a key whose last write among them was the insert at
/// position `i` holds exactly the value that insert wrote.
pub proof fn lemma_store_after_last_write(init: StoreModel, cmds: Seq<CmdModel>, n: int, i: int)
    requires
        0 <= i < n <= cmds.len(),
        cmds[i] is Insert,
        forall|j: int| i < j < n
            ==> !(cmds[j] is Insert && insert_key(cmds[j]) == insert_key(cmds[i])),
    ensures
        store_after(init, cmds, n).dom().contains(insert_key(cmds[i])),
        store_after(init, cmds, n)[insert_key(cmds[i])] == insert_val(cmds[i]),
    decreases n,
{
    if i < n - 1 {
        lemma_store_after_last_write(init, cmds, n - 1, i);
    }
}

/// A key no command among the first `n` writes reads back unchanged.
pub proof fn lemma_store_after_untouched(init: StoreModel, cmds: Seq<CmdModel>, n: int, k: Seq<u8>)
    requires
        0 <= n <= cmds.len(),
        forall|j: int| 0 <= j < n ==> !(cmds[j] is Insert && insert_key(cmds[j]) == k),
    ensures
        store_lookup(store_after(init, cmds, n), k) == store_lookup(init, k),
    decreases n,
{
    if n > 0 {
        lemma_store_after_untouched(init, cmds, n - 1, k);
    }
}

/// Atomicity: a sequence of inserts ended by `Close` commits, and afterwards
/// every inserted key holds the last value inserted for it in the attempt.
///
/// `i` names an insert whose key no later insert of the attempt writes
/// again; the committed store holds that insert's value at that key.
pub proof fn lemma_atomicity(init: StoreModel, cmds: Seq<CmdModel>, i: int)
    requires
        cmds.len() > 0,
        cmds.last() is Close,
        forall|j: int| 0 <= j < cmds.len() - 1 ==> cmds[j] is Insert,
        0 <= i < cmds.len() - 1,
        forall|j: int| i < j < cmds.len() - 1 ==> insert_key(cmds[j]) != insert_key(cmds[i]),
    ensures
        outcome_of(cmds) is Committed,
        post_store(init, cmds).dom().contains(insert_key(cmds[i])),
        post_store(init, cmds)[insert_key(cmds[i])] == insert_val(cmds[i]),
{
    lemma_relay_len_at(cmds, cmds.len() - 1);
    lemma_store_after_last_write(init, cmds, cmds.len() - 1, i);
}

/// Atomicity, continued: a committed attempt changes nothing else — a key
/// that no insert of the attempt wrote reads back exactly as it did before
/// the transaction.
pub proof fn lemma_atomicity_untouched(init: StoreModel, cmds: Seq<CmdModel>, k: Seq<u8>)
    requires
        cmds.len() > 0,
        cmds.last() is Close,
        forall|j: int| 0 <= j < cmds.len() - 1 ==> cmds[j] is Insert,
        forall|j: int| 0 <= j < cmds.len() - 1 ==> insert_key(cmds[j]) != k,
    ensures
        outcome_of(cmds) is Committed,
        store_lookup(post_store(init, cmds), k) == store_lookup(init, k),
{
    lemma_relay_len_at(cmds, cmds.len() - 1);
    lemma_store_after_untouched(init, cmds, cmds.len() - 1, k);
}

/// Rollback: a sequence of inserts ended by `Abort` ends as a user abort and
/// leaves the store exactly as it was before the transaction.
pub proof fn lemma_rollback(init: StoreModel, cmds: Seq<CmdModel>)
    requires
        cmds.len() > 0,
        cmds.last() is Abort,
        forall|j: int| 0 <= j < cmds.len() - 1 ==> cmds[j] is Insert,
    ensures
        outcome_of(cmds) == Outcome::Aborted(AbortReason::UserAbort),
        post_store(init, cmds) == init,
{
    lemma_relay_len_at(cmds, cmds.len() - 1);
}

/// Reply correctness: the reply to an insert carries exactly the value its
/// key held immediately before that insert was applied, and the store then
/// advances exactly as a single-shot insert of that key would advance it.
pub proof fn lemma_reply_correctness(init: StoreModel, cmds: Seq<CmdModel>, i: int)
    requires
        0 <= i < relay_len(cmds),
        cmds[i] is Insert,
    ensures
        replies_of(init, cmds)[i] == ReplyModel::Previous(
            store_lookup(store_after(init, cmds, i), insert_key(cmds[i])),
        ),
        store_after(init, cmds, i + 1) == store_after(init, cmds, i).insert(
            insert_key(cmds[i]),
            insert_val(cmds[i]),
        ),
{
    lemma_relay_len_bounds(cmds);
}

/// Ordering: there is one reply per dispatched non-terminal command, and the
/// reply at position `i` answers the command at position `i`.
pub proof fn lemma_reply_ordering(init: StoreModel, cmds: Seq<CmdModel>)
    ensures
        replies_of(init, cmds).len() == relay_len(cmds),
        forall|i: int| 0 <= i < relay_len(cmds)
            ==> replies_of(init, cmds)[i] == reply_at(init, cmds, i),
{
    lemma_relay_len_bounds(cmds);
}

/// The store after `n` commands depends only on those commands.
proof fn lemma_store_after_congruent(init: StoreModel, a: Seq<CmdModel>, b: Seq<CmdModel>, n: int)
    requires
        0 <= n <= a.len(),
        n <= b.len(),
        forall|j: int| 0 <= j < n ==> a[j] == b[j],
    ensures
        store_after(init, a, n) == store_after(init, b, n),
    decreases n,
{
    if n > 0 {
        lemma_store_after_congruent(init, a, b, n - 1);
    }
}

/// Ordering, continued: the reply at position `i` is determined by the
/// commands up to and through position `i` alone — no reply can depend on a
/// command that was not yet applied.
pub proof fn lemma_reply_depends_on_prefix(
    init: StoreModel,
    a: Seq<CmdModel>,
    b: Seq<CmdModel>,
    i: int,
)
    requires
        0 <= i < relay_len(a),
        i < relay_len(b),
        a.subrange(0, i + 1) == b.subrange(0, i + 1),
    ensures
        reply_at(init, a, i) == reply_at(init, b, i),
{
    lemma_relay_len_bounds(a);
    lemma_relay_len_bounds(b);
    assert forall|j: int| 0 <= j < i + 1 implies a[j] == b[j] by {
        assert(a.subrange(0, i + 1)[j] == a[j]);
        assert(b.subrange(0, i + 1)[j] == b[j]);
    }
    lemma_store_after_congruent(init, a, b, i);
    assert(a[i] == b[i]);
}

/// Disconnection safety: a command stream that runs out without a `Close`
/// or `Abort` — the caller dropped its channel endpoint — ends the
/// transaction as `Aborted(Disconnected)` and leaves the store untouched.
pub proof fn lemma_disconnection(init: StoreModel, cmds: Seq<CmdModel>)
    requires
        forall|j: int| 0 <= j < cmds.len() ==> !is_terminal(cmds[j]),
    ensures
        outcome_of(cmds) == Outcome::Aborted(AbortReason::Disconnected),
        post_store(init, cmds) == init,
{
    lemma_relay_len_at(cmds, cmds.len() as int);
}

} // verus!
