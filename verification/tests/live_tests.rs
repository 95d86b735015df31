//! End-to-end tests against a real temporary sled database: a worker thread
//! relays commands inside the engine's transaction closure while the test
//! plays the caller.

use std::time::Duration;

use crossbeam_channel::Receiver;

use sled_bridge::handle::SledDb;
use sled_bridge::handle::SledDbTree;
use sled_bridge::handle::transaction_abort;
use sled_bridge::handle::transaction_close;
use sled_bridge::handle::transaction_flush;
use sled_bridge::handle::transaction_insert;
use sled_bridge::handle::transaction_new;
use sled_bridge::pool::ThreadPoolSpawner;
use sled_bridge::protocol::AbortReason;
use sled_bridge::protocol::Message;
use sled_bridge::protocol::Outcome;
use sled_bridge::protocol::Reply;

const CALLER: u64 = 7;

fn open_temp() -> sled::Db {
    sled::Config::new().temporary(true).open().expect("temporary database")
}

fn spawner() -> ThreadPoolSpawner {
    ThreadPoolSpawner::new(2).expect("thread pool")
}

fn next_message(rx: &Receiver<Message>) -> Message {
    rx.recv_timeout(Duration::from_secs(10)).expect("worker message")
}

fn expect_started(rx: &Receiver<Message>) {
    assert_eq!(next_message(rx), Message::Started);
}

fn expect_reply(rx: &Receiver<Message>, token: u64) -> Reply {
    match next_message(rx) {
        Message::Reply { caller, token: t, reply } => {
            assert_eq!(caller, CALLER);
            assert_eq!(t, token);
            reply
        }
        other => panic!("expected a reply, got {:?}", other),
    }
}

fn expect_completion(rx: &Receiver<Message>) -> Outcome {
    match next_message(rx) {
        Message::Completion(outcome) => outcome,
        other => panic!("expected the completion, got {:?}", other),
    }
}

#[test]
fn live_insert_insert_close_commits() {
    let db = open_temp();
    let handle = SledDbTree::Default(SledDb::with_db_and_path(db.clone(), String::new()));
    let (tx, rx) = transaction_new(&spawner(), handle);

    expect_started(&rx);
    transaction_insert(&tx, CALLER, 1, b"a".to_vec(), vec![1]).unwrap();
    assert_eq!(expect_reply(&rx, 1), Reply::Previous(None));
    transaction_insert(&tx, CALLER, 2, b"b".to_vec(), vec![2]).unwrap();
    assert_eq!(expect_reply(&rx, 2), Reply::Previous(None));
    transaction_close(&tx, CALLER, 3).unwrap();
    assert_eq!(expect_completion(&rx), Outcome::Committed);

    assert_eq!(db.get(b"a").unwrap().unwrap().to_vec(), vec![1]);
    assert_eq!(db.get(b"b").unwrap().unwrap().to_vec(), vec![2]);
}

#[test]
fn live_abort_rolls_back() {
    let db = open_temp();
    db.insert(b"a", vec![1]).unwrap();

    let handle = SledDbTree::Default(SledDb::with_db_and_path(db.clone(), String::new()));
    let (tx, rx) = transaction_new(&spawner(), handle);

    expect_started(&rx);
    transaction_insert(&tx, CALLER, 1, b"a".to_vec(), vec![2]).unwrap();
    assert_eq!(expect_reply(&rx, 1), Reply::Previous(Some(vec![1])));
    transaction_abort(&tx, CALLER, 2).unwrap();
    assert_eq!(expect_completion(&rx), Outcome::Aborted(AbortReason::UserAbort));

    assert_eq!(db.get(b"a").unwrap().unwrap().to_vec(), vec![1]);
}

#[test]
fn live_dropped_handle_disconnects() {
    let db = open_temp();
    db.insert(b"a", vec![9]).unwrap();

    let handle = SledDbTree::Default(SledDb::with_db_and_path(db.clone(), String::new()));
    let (tx, rx) = transaction_new(&spawner(), handle);

    expect_started(&rx);
    transaction_insert(&tx, CALLER, 1, b"a".to_vec(), vec![1]).unwrap();
    assert_eq!(expect_reply(&rx, 1), Reply::Previous(Some(vec![9])));
    drop(tx);
    assert_eq!(expect_completion(&rx), Outcome::Aborted(AbortReason::Disconnected));

    assert_eq!(db.get(b"a").unwrap().unwrap().to_vec(), vec![9]);
}

#[test]
fn live_reply_reads_own_write() {
    let db = open_temp();
    let handle = SledDbTree::Default(SledDb::with_db_and_path(db.clone(), String::new()));
    let (tx, rx) = transaction_new(&spawner(), handle);

    expect_started(&rx);
    transaction_insert(&tx, CALLER, 1, b"k".to_vec(), vec![1]).unwrap();
    assert_eq!(expect_reply(&rx, 1), Reply::Previous(None));
    transaction_insert(&tx, CALLER, 2, b"k".to_vec(), vec![2]).unwrap();
    assert_eq!(expect_reply(&rx, 2), Reply::Previous(Some(vec![1])));
    transaction_close(&tx, CALLER, 3).unwrap();
    assert_eq!(expect_completion(&rx), Outcome::Committed);

    assert_eq!(db.get(b"k").unwrap().unwrap().to_vec(), vec![2]);
}

#[test]
fn live_flush_is_acknowledged() {
    let db = open_temp();
    let handle = SledDbTree::Default(SledDb::with_db_and_path(db.clone(), String::new()));
    let (tx, rx) = transaction_new(&spawner(), handle);

    expect_started(&rx);
    transaction_insert(&tx, CALLER, 1, b"a".to_vec(), vec![1]).unwrap();
    assert_eq!(expect_reply(&rx, 1), Reply::Previous(None));
    transaction_flush(&tx, CALLER, 2).unwrap();
    assert_eq!(expect_reply(&rx, 2), Reply::FlushAck);
    transaction_close(&tx, CALLER, 3).unwrap();
    assert_eq!(expect_completion(&rx), Outcome::Committed);
}

#[test]
fn live_replies_arrive_in_command_order() {
    let db = open_temp();
    let handle = SledDbTree::Default(SledDb::with_db_and_path(db.clone(), String::new()));
    let (tx, rx) = transaction_new(&spawner(), handle);

    expect_started(&rx);
    for token in 1..=8u64 {
        let key = vec![token as u8];
        transaction_insert(&tx, CALLER, token, key, vec![token as u8]).unwrap();
        assert_eq!(expect_reply(&rx, token), Reply::Previous(None));
    }
    transaction_close(&tx, CALLER, 9).unwrap();
    assert_eq!(expect_completion(&rx), Outcome::Committed);
}

#[test]
fn live_send_after_completion_fails() {
    let db = open_temp();
    let handle = SledDbTree::Default(SledDb::with_db_and_path(db.clone(), String::new()));
    let (tx, rx) = transaction_new(&spawner(), handle);

    expect_started(&rx);
    transaction_close(&tx, CALLER, 1).unwrap();
    assert_eq!(expect_completion(&rx), Outcome::Committed);

    // The worker is gone; the rejected request comes back unchanged.
    let rejected = transaction_insert(&tx, CALLER, 2, b"a".to_vec(), vec![1]);
    let req = rejected.unwrap_err();
    assert_eq!(req.caller, CALLER);
    assert_eq!(req.token, 2);
}

#[test]
fn live_named_tree_commits() {
    let db = open_temp();
    let tree = db.open_tree(b"tenant").unwrap();

    let sled_db = SledDb::with_db_and_path(db.clone(), String::new());
    let named = sled_bridge::handle::SledTree::with_tree_db_and_name(
        tree.clone(),
        sled_db,
        String::from("tenant"),
    );
    let (tx, rx) = transaction_new(&spawner(), SledDbTree::Tenant(named));

    expect_started(&rx);
    transaction_insert(&tx, CALLER, 1, b"a".to_vec(), vec![5]).unwrap();
    assert_eq!(expect_reply(&rx, 1), Reply::Previous(None));
    transaction_close(&tx, CALLER, 2).unwrap();
    assert_eq!(expect_completion(&rx), Outcome::Committed);

    assert_eq!(tree.get(b"a").unwrap().unwrap().to_vec(), vec![5]);
    assert_eq!(db.get(b"a").unwrap(), None);
}

#[test]
fn default_spawner_builds() {
    assert!(ThreadPoolSpawner::with_default_threads().is_ok());
}
