//! Connection options.

use vstd::prelude::*;

verus! {

/// How the client connects and when it gives up. Durations are whole
/// milliseconds.
#[derive(Debug, PartialEq, Eq)]
pub struct WSOption {
    /// Where to connect, for example `wss://host/path`.
    pub url: String,
    /// A session with no ping for longer than this is taken for dead.
    pub close_after: u64,
    /// The pause between the end of one attempt and the next.
    pub retry_interval: u64,
    /// How many retries to spend before giving up; `None` retries for ever.
    pub retry_max_count: Option<u32>,
}

impl Clone for WSOption {
    fn clone(&self) -> (r: Self)
        ensures
            r.url@ == self.url@,
            r.close_after == self.close_after,
            r.retry_interval == self.retry_interval,
            r.retry_max_count == self.retry_max_count,
    {
        WSOption {
            url: self.url.clone(),
            close_after: self.close_after,
            retry_interval: self.retry_interval,
            retry_max_count: self.retry_max_count,
        }
    }
}

} // verus!
