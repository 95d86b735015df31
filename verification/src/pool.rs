//! The worker-spawning dependency: an owned thread pool handed to the
//! coordinator, so tests can size it deterministically.

use vstd::prelude::*;

use crate::protocol::Message;
use crate::protocol::Request;

verus! {

#[verifier::external_type_specification]
#[verifier::external_body]
pub struct ExThreadPool(rayon_core::ThreadPool);

/// Relies on `rayon_core::ThreadPoolBuilder::{new, num_threads, build}`:
/// builds a pool of the given number of threads (zero asks for the
/// default), or reports why it could not.
#[verifier::external_body]
fn build_pool(threads: usize) -> (r: Result<rayon_core::ThreadPool, String>) {
    rayon_core::ThreadPoolBuilder::new().num_threads(threads).build().map_err(
        |e| format!("rayon_core::{:?}", e),
    )
}

/// Relies on `num_cpus::get`: the number of logical processors, at least one.
#[verifier::external_body]
fn logical_cpus() -> (n: usize)
    ensures
        n >= 1,
{
    num_cpus::get()
}

/// Spawns transaction workers onto an owned thread pool.
pub struct ThreadPoolSpawner {
    pool: rayon_core::ThreadPool,
}

impl ThreadPoolSpawner {
    /// A spawner whose pool has `threads` threads.
    pub fn new(threads: usize) -> (r: Result<ThreadPoolSpawner, String>) {
        match build_pool(threads) {
            Ok(pool) => Ok(ThreadPoolSpawner { pool }),
            Err(e) => Err(e),
        }
    }

    /// A spawner sized for a workload that blocks on storage and on the
    /// channels: twice the logical processors.
    pub fn with_default_threads() -> (r: Result<ThreadPoolSpawner, String>) {
        let n = logical_cpus();
        let threads: usize = if n > usize::MAX / 2 {
            usize::MAX
        } else {
            n * 2
        };
        ThreadPoolSpawner::new(threads)
    }

    /// Relies on `rayon_core::ThreadPool::spawn`: runs the job on a pool
    /// thread. The job is the transaction worker bound to the given tree
    /// and channel endpoints.
    #[verifier::external_body]
    pub fn spawn_server(
        &self,
        tree: sled::Tree,
        rx: crossbeam_channel::Receiver<Request>,
        out: crossbeam_channel::Sender<Message>,
    ) {
        self.pool.spawn(move || {
            let _ = crate::worker::transaction_server(&tree, &rx, &out);
        })
    }
}

} // verus!
