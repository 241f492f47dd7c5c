use vstd::prelude::*;

verus! {

/// The largest read timeout, in milliseconds, that the OS time value
/// accepts: its seconds part (the count divided by 1000) must stay below
/// `i64::MAX / 1_000_000`, so this is `9_223_372_036_853 * 1000 + 999`.
/// A larger count has no OS representation; the constructors leave it
/// out by `requires`.
pub const MAX_READ_TIMEOUT_MILLIS: u64 = 9_223_372_036_853_999;

/// Configuration for a `MulticastSocket`.
///
/// `read_timeout_millis` is how long one `receive` call may block, in
/// milliseconds, before it fails with `MulticastError::Timeout`; zero
/// lets a receive block without limit.
/// `loopback` says whether multicast datagrams sent from this host are
/// delivered back to its own sockets. `buffer_size` is the most payload
/// bytes one `receive` captures; a longer datagram is truncated to it.
#[derive(Clone, Copy, Debug, PartialEq, Eq)]
pub struct MulticastOptions {
    pub read_timeout_millis: u64,
    pub loopback: bool,
    pub buffer_size: usize,
}

impl Default for MulticastOptions {
    /// A 100 ms read timeout, loopback off, and a 512 byte buffer.
    fn default() -> (r: MulticastOptions)
        ensures
            r.read_timeout_millis == 100,
            !r.loopback,
            r.buffer_size == 512,
    {
        MulticastOptions { read_timeout_millis: 100, loopback: false, buffer_size: 512 }
    }
}

} // verus!
