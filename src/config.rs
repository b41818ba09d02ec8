use crate::rotation::{RotationPolicy, timeout_ms_of, timeout_ms_spec};
use vstd::prelude::*;
use vstd::string::StringExecFns;

verus! {

/// Bytes in a mebibyte.
pub const BYTES_PER_MB: usize = 1_048_576;

/// The settings of a set of topic pipelines.
#[derive(Clone, Debug)]
pub struct Config {
    pub log_dir: String,
    pub max_file_size_mb: usize,
    pub topics: Vec<String>,
    pub timeout_secs: u64,
    pub log_retention_hours: i64,
    pub host: String,
    pub port: u16,
}

impl Default for Config {
    fn default() -> (r: Config)
        ensures
            r.log_dir@ == "logs"@,
            r.max_file_size_mb == 100,
            r.topics@.len() == 1,
            r.topics@[0]@ == "subscribe001"@,
            r.timeout_secs == 1,
            r.log_retention_hours == 0,
            r.host@ == "192.168.1.13"@,
            r.port == 41883,
    {
        Config {
            log_dir: String::from_str("logs"),
            max_file_size_mb: 100,
            topics: vec![String::from_str("subscribe001")],
            timeout_secs: 1,
            log_retention_hours: 0,
            host: String::from_str("192.168.1.13"),
            port: 41883,
        }
    }
}

impl Config {
    /// The size limit in bytes; `None` where it does not fit in `usize`.
    pub fn max_file_size_bytes(&self) -> (r: Option<usize>)
        ensures
            self.max_file_size_mb * BYTES_PER_MB <= usize::MAX ==> r == Some(
                (self.max_file_size_mb * BYTES_PER_MB) as usize,
            ),
            self.max_file_size_mb * BYTES_PER_MB > usize::MAX ==> r is None,
    {
        if self.max_file_size_mb > usize::MAX / BYTES_PER_MB {
            None
        } else {
            Some(self.max_file_size_mb * BYTES_PER_MB)
        }
    }

    /// The idle timeout in milliseconds.
    pub fn idle_timeout_ms(&self) -> (r: u64)
        ensures
            r == timeout_ms_spec(self.timeout_secs as int),
    {
        timeout_ms_of(self.timeout_secs)
    }

    /// Whether the retention sweeper runs.
    pub fn retention_enabled(&self) -> (r: bool)
        ensures
            r == (self.log_retention_hours > 0),
    {
        self.log_retention_hours > 0
    }

    /// The rotation policy of each pipeline; `None` where the size limit does
    /// not fit in `usize`.
    pub fn rotation_policy(&self) -> (r: Option<RotationPolicy>)
        ensures
            self.max_file_size_mb * BYTES_PER_MB <= usize::MAX ==> r == Some(
                RotationPolicy {
                    max_file_size: (self.max_file_size_mb * BYTES_PER_MB) as usize,
                    idle_timeout_ms: timeout_ms_spec(self.timeout_secs as int) as u64,
                },
            ),
            self.max_file_size_mb * BYTES_PER_MB > usize::MAX ==> r is None,
    {
        match self.max_file_size_bytes() {
            Some(max_file_size) => Some(
                RotationPolicy::from_limits(max_file_size, self.timeout_secs),
            ),
            None => None,
        }
    }
}

} // verus!
