//! Scenario tests for the model store and the reference interpreter.

use sled_bridge::protocol::AbortReason;
use sled_bridge::protocol::Command;
use sled_bridge::protocol::Outcome;
use sled_bridge::protocol::Reply;
use sled_bridge::protocol::SledTransactionalTreeAction;
use sled_bridge::protocol::action_of;
use sled_bridge::model::run_attempt;
use sled_bridge::store::TreeModel;
use sled_bridge::config::SledConfigOptions;

fn insert(key: &[u8], value: &[u8]) -> Command {
    Command::Insert { key: key.to_vec(), value: value.to_vec() }
}

#[test]
fn model_empty_store_get() {
    let store = TreeModel::new();
    assert_eq!(store.get(&b"a".to_vec()), None);
}

#[test]
fn model_insert_returns_previous() {
    let mut store = TreeModel::new();
    assert_eq!(store.insert(b"a".to_vec(), vec![1]), None);
    assert_eq!(store.insert(b"a".to_vec(), vec![2]), Some(vec![1]));
    assert_eq!(store.get(&b"a".to_vec()), Some(&vec![2]));
}

#[test]
fn model_insert_keeps_other_keys() {
    let mut store = TreeModel::new();
    store.insert(b"a".to_vec(), vec![1]);
    store.insert(b"b".to_vec(), vec![2]);
    assert_eq!(store.get(&b"a".to_vec()), Some(&vec![1]));
    assert_eq!(store.get(&b"b".to_vec()), Some(&vec![2]));
    assert_eq!(store.get(&b"c".to_vec()), None);
}

#[test]
fn model_scenario_close_commits() {
    let store = TreeModel::new();
    let cmds = vec![insert(b"a", &[1]), insert(b"b", &[2]), Command::Close];
    let (post, replies, outcome) = run_attempt(&store, &cmds);
    assert_eq!(replies, vec![Reply::Previous(None), Reply::Previous(None)]);
    assert_eq!(outcome, Outcome::Committed);
    assert_eq!(post.get(&b"a".to_vec()), Some(&vec![1]));
    assert_eq!(post.get(&b"b".to_vec()), Some(&vec![2]));
}

#[test]
fn model_scenario_abort_rolls_back() {
    let mut store = TreeModel::new();
    store.insert(b"a".to_vec(), vec![1]);
    let cmds = vec![insert(b"a", &[2]), Command::Abort];
    let (post, replies, outcome) = run_attempt(&store, &cmds);
    assert_eq!(replies, vec![Reply::Previous(Some(vec![1]))]);
    assert_eq!(outcome, Outcome::Aborted(AbortReason::UserAbort));
    assert_eq!(post.get(&b"a".to_vec()), Some(&vec![1]));
}

#[test]
fn model_scenario_dropped_stream_disconnects() {
    let mut store = TreeModel::new();
    store.insert(b"a".to_vec(), vec![9]);
    let cmds = vec![insert(b"a", &[1])];
    let (post, replies, outcome) = run_attempt(&store, &cmds);
    assert_eq!(replies, vec![Reply::Previous(Some(vec![9]))]);
    assert_eq!(outcome, Outcome::Aborted(AbortReason::Disconnected));
    assert_eq!(post.get(&b"a".to_vec()), Some(&vec![9]));
}

#[test]
fn model_empty_stream_disconnects() {
    let store = TreeModel::new();
    let cmds: Vec<Command> = vec![];
    let (_, replies, outcome) = run_attempt(&store, &cmds);
    assert!(replies.is_empty());
    assert_eq!(outcome, Outcome::Aborted(AbortReason::Disconnected));
}

#[test]
fn model_last_insert_wins() {
    let store = TreeModel::new();
    let cmds = vec![insert(b"k", &[1]), insert(b"k", &[2]), insert(b"k", &[3]), Command::Close];
    let (post, replies, outcome) = run_attempt(&store, &cmds);
    assert_eq!(outcome, Outcome::Committed);
    assert_eq!(
        replies,
        vec![
            Reply::Previous(None),
            Reply::Previous(Some(vec![1])),
            Reply::Previous(Some(vec![2])),
        ]
    );
    assert_eq!(post.get(&b"k".to_vec()), Some(&vec![3]));
}

#[test]
fn model_flush_is_acknowledged_in_order() {
    let store = TreeModel::new();
    let cmds = vec![insert(b"a", &[1]), Command::Flush, insert(b"b", &[2]), Command::Close];
    let (_, replies, outcome) = run_attempt(&store, &cmds);
    assert_eq!(outcome, Outcome::Committed);
    assert_eq!(
        replies,
        vec![Reply::Previous(None), Reply::FlushAck, Reply::Previous(None)]
    );
}

#[test]
fn model_commands_after_close_are_not_dispatched() {
    let store = TreeModel::new();
    let cmds = vec![insert(b"a", &[1]), Command::Close, insert(b"b", &[2])];
    let (post, replies, outcome) = run_attempt(&store, &cmds);
    assert_eq!(outcome, Outcome::Committed);
    assert_eq!(replies.len(), 1);
    assert_eq!(post.get(&b"b".to_vec()), None);
}

#[test]
fn model_abort_before_any_insert() {
    let store = TreeModel::new();
    let cmds = vec![Command::Abort];
    let (post, replies, outcome) = run_attempt(&store, &cmds);
    assert!(replies.is_empty());
    assert_eq!(outcome, Outcome::Aborted(AbortReason::UserAbort));
    assert_eq!(post.get(&b"a".to_vec()), None);
}

#[test]
fn action_classifies_commands() {
    assert_eq!(action_of(&insert(b"a", &[1])), SledTransactionalTreeAction::Continue);
    assert_eq!(action_of(&Command::Flush), SledTransactionalTreeAction::Continue);
    assert_eq!(action_of(&Command::Close), SledTransactionalTreeAction::Close);
    assert_eq!(action_of(&Command::Abort), SledTransactionalTreeAction::Abort);
}

#[test]
fn config_options_default_is_all_none() {
    let opts = SledConfigOptions::default();
    assert!(opts.path.is_none());
    assert!(opts.cache_capacity.is_none());
    assert!(opts.mode.is_none());
    assert!(opts.use_compression.is_none());
    assert!(opts.compression_factor.is_none());
    assert!(opts.temporary.is_none());
    assert!(opts.create_new.is_none());
    assert!(opts.print_profile_on_drop.is_none());
}
