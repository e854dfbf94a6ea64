//! Engine configuration.
use vstd::prelude::*;

verus! {

/// Default listening port.
pub const PORT: u16 = 49111;

pub struct Config {
    pub drop: DropConfig,
    pub moose: MooseConfig,
}

pub struct DropConfig {
    /// Deepest directory nesting a transfer may hold.
    pub dir_depth_limit: usize,
    /// Most files a transfer may hold.
    pub transfer_file_limit: usize,
    pub connection_max_retry_interval_ms: u64,
    /// A session with no frame received for this long fails.
    pub transfer_idle_lifetime_ms: u64,
    pub storage_path: String,
    pub max_uploads_in_flight: usize,
    pub connection_retries: u32,
    pub checksum_events_size_threshold: Option<usize>,
}

pub struct MooseConfig {
    pub event_path: String,
    pub prod: bool,
}

impl Default for DropConfig {
    fn default() -> (r: Self)
        ensures
            r.dir_depth_limit == 5,
            r.transfer_file_limit == 1000,
            r.connection_max_retry_interval_ms == 10000,
            r.transfer_idle_lifetime_ms == 60000,
            r.storage_path@ == "libdrop.sqlite"@,
            r.max_uploads_in_flight == 4,
            r.connection_retries == 5,
            r.checksum_events_size_threshold is None,
    {
        DropConfig {
            dir_depth_limit: 5,
            transfer_file_limit: 1000,
            connection_max_retry_interval_ms: 10000,
            transfer_idle_lifetime_ms: 60000,
            storage_path: "libdrop.sqlite".to_owned(),
            max_uploads_in_flight: 4,
            connection_retries: 5,
            checksum_events_size_threshold: None,
        }
    }
}

impl Default for MooseConfig {
    fn default() -> (r: Self)
        ensures
            r.event_path@ == Seq::<char>::empty(),
            !r.prod,
    {
        MooseConfig { event_path: String::new(), prod: false }
    }
}

impl Default for Config {
    fn default() -> (r: Self)
        ensures
            r.drop.dir_depth_limit == 5,
            r.drop.transfer_file_limit == 1000,
            r.drop.connection_max_retry_interval_ms == 10000,
            r.drop.transfer_idle_lifetime_ms == 60000,
            r.drop.storage_path@ == "libdrop.sqlite"@,
            r.drop.max_uploads_in_flight == 4,
            r.drop.connection_retries == 5,
            r.drop.checksum_events_size_threshold is None,
            r.moose.event_path@ == Seq::<char>::empty(),
            !r.moose.prod,
    {
        Config { drop: DropConfig::default(), moose: MooseConfig::default() }
    }
}

impl DropConfig {
    /// Liveness pings go out every half idle lifetime.
    pub fn ping_interval(&self) -> (r: u64)
        ensures
            r == self.transfer_idle_lifetime_ms / 2,
    {
        self.transfer_idle_lifetime_ms / 2
    }
}

} // verus!
