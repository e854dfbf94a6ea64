//! Configuration as the embedding application gives it.
use vstd::prelude::*;
use crate::config::{DropConfig, MooseConfig};

verus! {

pub struct Config {
    pub dir_depth_limit: u64,
    pub transfer_file_limit: u64,
    pub moose_event_path: String,
    pub moose_prod: bool,
    pub storage_path: String,
    pub checksum_events_size_threshold: Option<u64>,
    pub connection_retries: Option<u32>,
    pub connection_max_retry_interval_ms: Option<u64>,
    pub transfer_idle_lifetime_ms: Option<u64>,
}

impl Config {
    /// Reconnection attempts when none are configured.
    pub fn default_connection_retries() -> (r: u32)
        ensures
            r == 5,
    {
        5
    }
}

pub open spec fn or_default<T>(o: Option<T>, d: T) -> T {
    match o {
        Some(v) => v,
        None => d,
    }
}

pub open spec fn opt_usize(o: Option<u64>) -> Option<usize> {
    match o {
        Some(v) => Some(v as usize),
        None => None,
    }
}

impl vstd::std_specs::convert::FromSpecImpl<Config> for crate::config::Config {
    open spec fn obeys_from_spec() -> bool {
        true
    }

    open spec fn from_spec(val: Config) -> crate::config::Config {
        crate::config::Config {
            drop: DropConfig {
                dir_depth_limit: val.dir_depth_limit as usize,
                transfer_file_limit: val.transfer_file_limit as usize,
                connection_max_retry_interval_ms: or_default(val.connection_max_retry_interval_ms, 10000u64),
                transfer_idle_lifetime_ms: or_default(val.transfer_idle_lifetime_ms, 60000u64),
                storage_path: val.storage_path,
                max_uploads_in_flight: 4,
                connection_retries: or_default(val.connection_retries, 5u32),
                checksum_events_size_threshold: opt_usize(val.checksum_events_size_threshold),
            },
            moose: MooseConfig { event_path: val.moose_event_path, prod: val.moose_prod },
        }
    }
}

impl From<Config> for crate::config::Config {
    fn from(val: Config) -> (r: crate::config::Config) {
        let Config {
            dir_depth_limit,
            transfer_file_limit,
            moose_event_path,
            moose_prod,
            storage_path,
            checksum_events_size_threshold,
            connection_retries,
            connection_max_retry_interval_ms,
            transfer_idle_lifetime_ms,
        } = val;
        let checksum_events_size_threshold = match checksum_events_size_threshold {
            Some(x) => Some(x as usize),
            None => None,
        };
        let connection_retries = match connection_retries {
            Some(n) => n,
            None => Config::default_connection_retries(),
        };
        let connection_max_retry_interval_ms = match connection_max_retry_interval_ms {
            Some(ms) => ms,
            None => 10000,
        };
        let transfer_idle_lifetime_ms = match transfer_idle_lifetime_ms {
            Some(ms) => ms,
            None => 60000,
        };
        crate::config::Config {
            drop: DropConfig {
                dir_depth_limit: dir_depth_limit as usize,
                transfer_file_limit: transfer_file_limit as usize,
                connection_max_retry_interval_ms,
                transfer_idle_lifetime_ms,
                storage_path,
                max_uploads_in_flight: 4,
                connection_retries,
                checksum_events_size_threshold,
            },
            moose: MooseConfig { event_path: moose_event_path, prod: moose_prod },
        }
    }
}

} // verus!
