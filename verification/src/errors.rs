use vstd::prelude::*;

verus! {

/// The one error type of this library. Every operation that can fail
/// reports either the receive timeout, or the raw OS error number of the
/// call that failed, preserved as the OS gave it.
#[derive(Clone, Copy, Debug, PartialEq, Eq)]
pub enum MulticastError {
    /// No datagram arrived within the configured read timeout. The caller
    /// may simply call `receive` again.
    Timeout,
    /// An OS call failed with this `errno` value.
    Os(i32),
}

} // verus!
