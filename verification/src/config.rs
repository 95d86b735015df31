//! Plain configuration data for opening a database. Turning these options
//! into an engine configuration, and opening it, happens outside the
//! library: only the data lives here.

use vstd::prelude::*;

verus! {

/// How the engine trades space against throughput.
#[derive(Clone, Copy, PartialEq, Eq, Structural, Debug)]
pub enum Mode {
    LowSpace,
    HighThroughput,
}

/// The options a database may be opened with; `None` leaves the engine's
/// default in place.
pub struct SledConfigOptions {
    pub path: Option<String>,
    pub cache_capacity: Option<u64>,
    pub mode: Option<Mode>,
    pub use_compression: Option<bool>,
    pub compression_factor: Option<i32>,
    pub temporary: Option<bool>,
    pub create_new: Option<bool>,
    pub print_profile_on_drop: Option<bool>,
}

impl Default for SledConfigOptions {
    /// Every option left at the engine's default.
    fn default() -> (r: SledConfigOptions)
        ensures
            r.path is None,
            r.cache_capacity is None,
            r.mode is None,
            r.use_compression is None,
            r.compression_factor is None,
            r.temporary is None,
            r.create_new is None,
            r.print_profile_on_drop is None,
    {
        SledConfigOptions {
            path: None,
            cache_capacity: None,
            mode: None,
            use_compression: None,
            compression_factor: None,
            temporary: None,
            create_new: None,
            print_profile_on_drop: None,
        }
    }
}

} // verus!
