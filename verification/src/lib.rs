//! Advisory mutual exclusion between unrelated processes through one shared
//! lock file.
//!
//! The lock state lives entirely in the file: a fixed 48-byte header (see
//! [`header`]) at offset 0 marks a claim, the all-zero header marks "unlocked",
//! and the file's last-modified time drives expiration. This crate holds the
//! verified core of the protocol — the header codec and every decision the
//! acquisition algorithm makes — as functions from plain values to plain
//! values; the thin shell that opens files, reads clocks and sleeps drives
//! these decisions from outside.

use vstd::prelude::*;

pub mod error;
pub mod header;

pub use error::Error;

verus! {

/// Nanoseconds a lock file may go untouched before any claim in it is
/// considered abandoned and reclaimable (120 seconds). A protocol constant,
/// not a tunable.
pub const EXPIRATION_TIMEOUT_NANOS: u128 = 120_000_000_000;

/// The fixed quiescence pause, in nanoseconds, between writing a claim header
/// and re-reading it to detect a competing writer (1 second). A protocol
/// constant, not a tunable.
pub const HEADER_WRITE_SLEEP_NANOS: u128 = 1_000_000_000;

/// The elapsed time from the file's last write to `now` has reached the
/// expiration timeout. Only meaningful when the clock did not run backwards.
pub open spec fn expired_spec(now_nanos: u128, modified_nanos: u128) -> bool {
    now_nanos - modified_nanos >= EXPIRATION_TIMEOUT_NANOS
}

/// The file counts as locked: its claim has not expired, and its header is a
/// well-formed, non-clear claim. Everything else — clear header, corrupt
/// header, expired claim — counts as unlocked and reclaimable.
pub open spec fn locked_spec(now_nanos: u128, modified_nanos: u128, h: Seq<u8>) -> bool {
    &&& !expired_spec(now_nanos, modified_nanos)
    &&& !header::is_clear(h)
    &&& header::header_valid(h)
}

/// A handle on one lock, identified by the path of its lock file. Pure data:
/// all lock state lives in the file itself.
#[derive(Debug)]
pub struct Mutex {
    path: String,
}

impl Mutex {
    /// The path of the lock file this handle coordinates on.
    pub closed spec fn path_spec(&self) -> Seq<char> {
        self.path@
    }

    /// Build a handle for the lock file at `path`. No file is touched.
    pub fn new(path: &str) -> (r: Mutex)
        ensures
            r.path_spec() == path@,
    {
        Mutex { path: path.to_owned() }
    }

    /// The lock file's path, for the shell that performs the file operations.
    pub fn path(&self) -> (r: &str)
        ensures
            r@ == self.path_spec(),
    {
        self.path.as_str()
    }

    /// Decide expiration from the two clock readings. A clock that reports
    /// `now` earlier than the file's last write is a hard error, never a
    /// silent "expired" or "not expired": either silent answer could mask an
    /// abandoned lock or cause a false takeover.
    pub fn is_expired(now_nanos: u128, modified_nanos: u128) -> (r: Result<bool, Error>)
        ensures
            now_nanos >= modified_nanos ==> r == Ok::<bool, Error>(
                expired_spec(now_nanos, modified_nanos),
            ),
            now_nanos < modified_nanos ==> r == Err::<bool, Error>(Error::SystemTimeError),
    {
        if now_nanos < modified_nanos {
            Err(Error::SystemTimeError)
        } else {
            Ok(now_nanos - modified_nanos >= EXPIRATION_TIMEOUT_NANOS)
        }
    }

    /// The header holds a live claim: it is not the clear sentinel and its
    /// integrity tag matches its token.
    pub fn check_header_integrity(header: &header::Header) -> (r: bool)
        ensures
            r == (!header::is_clear(header@) && header::header_valid(header@)),
    {
        !header::check_clear(header) && header::check_integrity(header)
    }

    /// Combine the two observations exactly as the protocol defines "locked";
    /// when this returns true an acquisition attempt must yield no guard.
    pub fn is_locked(expired: bool, header: &header::Header) -> (r: bool)
        ensures
            r == (!expired && !header::is_clear(header@) && header::header_valid(header@)),
    {
        !expired && Mutex::check_header_integrity(header)
    }

    /// Decide the race after the quiescence pause: the claim stands only if
    /// the header read back is byte-identical to the one this attempt wrote.
    /// Anything else means another writer landed inside the window and owns
    /// the file now.
    pub fn confirm_claim(written: &header::Header, observed: &header::Header) -> (r: bool)
        ensures
            r == (written@ == observed@),
    {
        if written.len() != observed.len() {
            return false;
        }
        let mut i: usize = 0;
        while i < written.len()
            invariant
                i <= written@.len(),
                written@.len() == observed@.len(),
                forall|k: int| 0 <= k < i ==> written@[k] == observed@[k],
            decreases written@.len() - i,
        {
            if written[i] != observed[i] {
                return false;
            }
            i = i + 1;
        }
        proof {
            assert(written@ =~= observed@);
        }
        true
    }
}

/// A well-formed, non-clear header that has not yet expired keeps the lock
/// held: an attempt that observes it gets no guard.
pub proof fn lemma_live_claim_blocks(now_nanos: u128, modified_nanos: u128, h: Seq<u8>)
    requires
        modified_nanos <= now_nanos,
        !expired_spec(now_nanos, modified_nanos),
        header::header_valid(h),
        !header::is_clear(h),
    ensures
        locked_spec(now_nanos, modified_nanos, h),
{
}

/// Once the expiration timeout has elapsed the file is reclaimable no matter
/// what its header holds: even a well-formed claim no longer counts as locked.
pub proof fn lemma_expired_lock_reclaimable(now_nanos: u128, modified_nanos: u128, h: Seq<u8>)
    requires
        expired_spec(now_nanos, modified_nanos),
    ensures
        !locked_spec(now_nanos, modified_nanos, h),
{
}

/// A corrupt header — anything that is not integrity-valid, such as one torn
/// by a crash mid-write — never counts as locked, at any point in time: it
/// cannot stem from a completed claim, so the file is treated as unlocked.
pub proof fn lemma_corrupt_header_unlocked(now_nanos: u128, modified_nanos: u128, h: Seq<u8>)
    requires
        !header::header_valid(h),
    ensures
        !locked_spec(now_nanos, modified_nanos, h),
{
}

/// The clear header means unlocked at every point in time: once a release has
/// cleared the file, the next attempt needs no expiration wait.
pub proof fn lemma_clear_header_unlocked(now_nanos: u128, modified_nanos: u128, h: Seq<u8>)
    requires
        header::is_clear(h),
    ensures
        !locked_spec(now_nanos, modified_nanos, h),
{
}

/// Two attempts that wrote different claim headers can never both confirm
/// against the same observed header: at most one of them wins the race. (That
/// at least one wins is not guaranteed — a third writer, or any later touch
/// of the file, can defeat both.)
pub proof fn lemma_at_most_one_winner(a: Seq<u8>, b: Seq<u8>, observed: Seq<u8>)
    requires
        a != b,
    ensures
        !(a == observed && b == observed),
{
}

} // verus!
