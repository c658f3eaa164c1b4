use vstd::prelude::*;

verus! {

/// The faults the locking protocol can surface to its caller.
///
/// `Io` stands for any failure of the underlying file operations (open, seek,
/// read, write, or a file shorter than a full header). `SystemTimeError` means
/// the clock reported a time earlier than the lock file's last-modified time;
/// the protocol refuses to resolve that ambiguity silently in either direction.
#[derive(Clone, Copy, Debug, PartialEq, Eq, Structural)]
pub enum Error {
    Io,
    SystemTimeError,
}

} // verus!
