//! The storage engine's types and the calls the worker makes on a live
//! transactional handle, behind trusted declarations and wrappers.
//!
//! The engine's trees, handles and errors are opaque to the verifier; the
//! wrappers here say only what the engine's own source shows of each call.

use vstd::prelude::*;

verus! {

#[verifier::external_type_specification]
#[verifier::external_body]
pub struct ExTree(sled::Tree);

#[verifier::external_type_specification]
#[verifier::external_body]
pub struct ExDb(sled::Db);

#[verifier::external_type_specification]
#[verifier::external_body]
pub struct ExTransactionalTree(sled::transaction::TransactionalTree);

#[verifier::external_type_specification]
#[verifier::external_body]
pub struct ExUnabortableTransactionError(sled::transaction::UnabortableTransactionError);

/// Relies on `sled::Db`'s deref to `sled::Tree`: a database handle is also a
/// handle to its default tree.
#[verifier::external_body]
pub fn tree_of_db(db: &sled::Db) -> (t: &sled::Tree) {
    db
}

/// Relies on `sled::Tree::clone`: a tree handle is a shared, cloneable
/// reference to one tree.
#[verifier::external_body]
pub fn clone_tree(t: &sled::Tree) -> (r: sled::Tree) {
    t.clone()
}

/// Relies on `sled::transaction::TransactionalTree::insert`: sets the key to
/// the value within this attempt and returns the value the key held just
/// before, through the attempt's own writes; a conflict or storage failure
/// comes back as the engine's unabortable error.
#[verifier::external_body]
pub fn tx_insert(
    t: &sled::transaction::TransactionalTree,
    key: &Vec<u8>,
    value: &Vec<u8>,
) -> (r: Result<Option<Vec<u8>>, sled::transaction::UnabortableTransactionError>) {
    match t.insert(key.as_slice(), value.as_slice()) {
        Ok(prev) => Ok(prev.map(|v| v.to_vec())),
        Err(e) => Err(e),
    }
}

/// Relies on `sled::transaction::TransactionalTree::flush`: marks the
/// transaction to flush the database on commit; it cannot fail.
#[verifier::external_body]
pub fn tx_flush(t: &sled::transaction::TransactionalTree) {
    t.flush()
}

} // verus!
