//! The caller's side of a transaction: handles on the engine's trees, and
//! the caller-facing object wrapping a live worker.

use vstd::prelude::*;

use crate::channel::message_channel;
use crate::channel::request_channel;
use crate::channel::send_request;
use crate::engine::clone_tree;
use crate::engine::tree_of_db;
use crate::pool::ThreadPoolSpawner;
use crate::protocol::CmdModel;
use crate::protocol::Command;
use crate::protocol::Message;
use crate::protocol::Request;

verus! {

/// A database handle together with the path it was opened at.
pub struct SledDb {
    pub db: sled::Db,
    pub path: String,
}

impl SledDb {
    /// Pair an open database with its path.
    pub fn with_db_and_path(db: sled::Db, path: String) -> (r: SledDb)
        ensures
            r.db == db,
            r.path == path,
    {
        SledDb { db, path }
    }
}

/// A named tree of a database.
pub struct SledTree {
    pub tree: sled::Tree,
    pub db: SledDb,
    pub name: String,
}

impl SledTree {
    /// Pair an open tree with its database and name.
    pub fn with_tree_db_and_name(tree: sled::Tree, db: SledDb, name: String) -> (r: SledTree)
        ensures
            r.tree == tree,
            r.db == db,
            r.name == name,
    {
        SledTree { tree, db, name }
    }
}

/// Either a database's default tree or one of its named trees.
pub enum SledDbTree {
    Default(SledDb),
    Tenant(SledTree),
}

impl SledDbTree {
    /// The engine tree this handle stands for.
    pub fn as_tree(&self) -> &sled::Tree {
        match self {
            SledDbTree::Default(d) => tree_of_db(&d.db),
            SledDbTree::Tenant(t) => &t.tree,
        }
    }
}

/// The caller's reference to an in-flight transaction: the tree it runs
/// over and the send side of the command channel. The caller never touches
/// the transactional handle itself — only the worker does.
pub struct SledTransactionalTree {
    pub tree: SledDbTree,
    pub sender: crossbeam_channel::Sender<Request>,
}

impl SledTransactionalTree {
    /// Pair a tree with the command channel of its worker.
    pub fn with_tree_and_sender(
        tree: SledDbTree,
        sender: crossbeam_channel::Sender<Request>,
    ) -> (r: SledTransactionalTree)
        ensures
            r.tree == tree,
            r.sender == sender,
    {
        SledTransactionalTree { tree, sender }
    }

    /// Hand a request to the worker, blocking until it accepts; a request
    /// comes back unchanged when the worker is gone.
    pub fn send(&self, req: Request) -> (r: Result<(), Request>)
        ensures
            r matches Err(q) ==> q == req,
    {
        send_request(&self.sender, req)
    }
}

/// Open a transaction over `tree`: spawn its worker, bound to a fresh
/// rendezvous command channel and a fresh reply channel, and hand back the
/// caller-facing handle together with the receive side of the replies.
///
/// The caller must eventually send `Close` or `Abort`, or drop the handle;
/// a worker whose command channel stays open and silent waits forever.
pub fn transaction_new(spawner: &ThreadPoolSpawner, tree: SledDbTree) -> (r: (
    SledTransactionalTree,
    crossbeam_channel::Receiver<Message>,
))
    ensures
        r.0.tree == tree,
{
    let (cmd_s, cmd_r) = request_channel();
    let (msg_s, msg_r) = message_channel();
    let worker_tree = clone_tree(tree.as_tree());
    spawner.spawn_server(worker_tree, cmd_r, msg_s);
    (SledTransactionalTree::with_tree_and_sender(tree, cmd_s), msg_r)
}

/// Ask the worker to close the transaction, letting the engine commit.
pub fn transaction_close(tx_tree: &SledTransactionalTree, caller: u64, token: u64) -> (r: Result<
    (),
    Request,
>)
    ensures
        r matches Err(q) ==> q.caller == caller && q.token == token && q.command@ is Close,
{
    tx_tree.send(Request { caller, token, command: Command::Close })
}

/// Ask the worker to abort the transaction, rolling every mutation back.
pub fn transaction_abort(tx_tree: &SledTransactionalTree, caller: u64, token: u64) -> (r: Result<
    (),
    Request,
>)
    ensures
        r matches Err(q) ==> q.caller == caller && q.token == token && q.command@ is Abort,
{
    tx_tree.send(Request { caller, token, command: Command::Abort })
}

/// Ask the worker to set `key` to `value` inside the transaction; the reply
/// carrying the key's previous value arrives tagged with `caller` and
/// `token`.
pub fn transaction_insert(
    tx_tree: &SledTransactionalTree,
    caller: u64,
    token: u64,
    key: Vec<u8>,
    value: Vec<u8>,
) -> (r: Result<(), Request>)
    ensures
        r matches Err(q) ==> q.caller == caller && q.token == token && q.command@
            == CmdModel::Insert(key@, value@),
{
    tx_tree.send(Request { caller, token, command: Command::Insert { key, value } })
}

/// Ask the worker to flush the transaction's effects on commit; the reply is
/// an acknowledgement tagged with `caller` and `token`.
pub fn transaction_flush(tx_tree: &SledTransactionalTree, caller: u64, token: u64) -> (r: Result<
    (),
    Request,
>)
    ensures
        r matches Err(q) ==> q.caller == caller && q.token == token && q.command@ is Flush,
{
    tx_tree.send(Request { caller, token, command: Command::Flush })
}

} // verus!
