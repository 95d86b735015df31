//! A transaction coordination bridge over the `sled` storage engine.
//!
//! `sled` offers closure-scoped transactions: a transactional handle is valid
//! only inside one callback invocation, which must return a commit or abort
//! decision synchronously. A caller, however, often wants to issue commands
//! one at a time, reading each reply before choosing the next command. This
//! crate bridges the two worlds: a dedicated worker enters the engine's
//! transaction closure and, for the closure's whole lifetime, relays commands
//! arriving over a rendezvous channel to the live transactional handle,
//! answering each with a reply message, until told to close or abort, or
//! until the channel is disconnected.
//!
//! The relay protocol itself — which command sequences commit, what each
//! reply carries, and how the store changes — is stated over a mathematical
//! model of the store and proved in `model` and `laws`. The live worker loop
//! in `worker` is verified against the same command model, calling the
//! engine and the channels through a small set of trusted wrappers.

pub mod channel;
pub mod config;
pub mod engine;
pub mod handle;
pub mod laws;
pub mod model;
pub mod pool;
pub mod protocol;
pub mod store;
pub mod worker;

pub use config::Mode;
pub use config::SledConfigOptions;
pub use handle::SledDb;
pub use handle::SledDbTree;
pub use handle::SledTransactionalTree;
pub use handle::SledTree;
pub use handle::transaction_abort;
pub use handle::transaction_close;
pub use handle::transaction_flush;
pub use handle::transaction_insert;
pub use handle::transaction_new;
pub use pool::ThreadPoolSpawner;
pub use worker::transaction_server;
pub use protocol::AbortReason;
pub use protocol::Command;
pub use protocol::Message;
pub use protocol::Outcome;
pub use protocol::Reply;
pub use protocol::Request;
pub use protocol::SledTransactionalTreeAction;
