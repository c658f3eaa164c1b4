//! The fixed-size on-disk token that marks a lock file as claimed.
//!
//! A header is `GUID_SIZE` random token bytes followed by the `HASH_SIZE`-byte
//! SHA-256 digest of the token. The all-zero header is the distinguished
//! "unlocked" sentinel; the generator can never produce it because the token's
//! version nibble is always non-zero.

use vstd::prelude::*;

verus! {

/// Number of bytes in the random token half of a header.
pub const GUID_SIZE: usize = 16;

/// Number of bytes in the integrity-tag half of a header (a SHA-256 digest).
pub const HASH_SIZE: usize = 32;

/// Total size of the on-disk header: token followed by tag.
pub const HEADER_SIZE: usize = 48;

/// A lock header, always `HEADER_SIZE` bytes once generated; bytes read back
/// from disk are checked rather than trusted to have that shape.
pub type Header = Vec<u8>;

/// The SHA-256 digest of a byte sequence, as the hashing primitive computes it.
pub uninterp spec fn sha256_of(data: Seq<u8>) -> Seq<u8>;

/// These bytes are exactly the clear (all-zero, full-size) header, the
/// sentinel meaning "unlocked".
pub open spec fn is_clear(h: Seq<u8>) -> bool {
    h.len() == HEADER_SIZE && forall|i: int| 0 <= i < h.len() ==> h[i] == 0
}

/// The header is well formed: full-size, and its tag half really is the
/// digest of its token half. A torn or forged header fails this.
pub open spec fn header_valid(h: Seq<u8>) -> bool {
    &&& h.len() == HEADER_SIZE
    &&& h.subrange(GUID_SIZE as int, HEADER_SIZE as int) == sha256_of(
        h.subrange(0, GUID_SIZE as int),
    )
}

/// Relies on `ring::digest::digest` with `ring::digest::SHA256`: the digest is
/// a pure function of the input bytes and is always `SHA256_OUTPUT_LEN`
/// (32) bytes long. The length bound keeps the input below the SHA-256 limit,
/// past which ring panics.
#[verifier::external_body]
fn sha256(data: &Vec<u8>) -> (r: Vec<u8>)
    requires
        data@.len() < 0x2000000000000000,
    ensures
        r@ == sha256_of(data@),
        r@.len() == HASH_SIZE,
{
    ring::digest::digest(&ring::digest::SHA256, data.as_slice()).as_ref().to_vec()
}

/// Relies on `uuid::Uuid::new_v4`: 16 bytes drawn from the operating system's
/// random source, with the version nibble (the high nibble of byte 6) forced
/// to 4, so the token never comes back all zero. Nothing more is assumed of
/// the random bytes: two calls may return anything the shape allows.
#[verifier::external_body]
fn random_token() -> (r: Vec<u8>)
    ensures
        r@.len() == GUID_SIZE,
        r@[6] & 0xf0 == 0x40,
{
    uuid::Uuid::new_v4().into_bytes().to_vec()
}

/// Produce a fresh claim header: a new random token packed with its digest.
/// The result is always well formed and never the clear sentinel.
pub fn new() -> (r: Header)
    ensures
        r@.len() == HEADER_SIZE,
        header_valid(r@),
        !is_clear(r@),
        r@.subrange(GUID_SIZE as int, HEADER_SIZE as int) == sha256_of(
            r@.subrange(0, GUID_SIZE as int),
        ),
{
    let token = random_token();
    let tag = sha256(&token);
    let mut header = token;
    let mut i: usize = 0;
    while i < tag.len()
        invariant
            i <= tag@.len(),
            header@ == token@ + tag@.subrange(0, i as int),
        decreases tag@.len() - i,
    {
        header.push(tag[i]);
        proof {
            assert(header@ =~= token@ + tag@.subrange(0, i + 1));
        }
        i = i + 1;
    }
    proof {
        assert(tag@.subrange(0, tag@.len() as int) =~= tag@);
        assert(header@.subrange(0, GUID_SIZE as int) =~= token@);
        assert(header@.subrange(GUID_SIZE as int, HEADER_SIZE as int) =~= tag@);
        let b = token@[6];
        assert(b & 0xf0 == 0x40 ==> b != 0) by (bit_vector);
        assert(header@[6] != 0);
    }
    header
}

/// Recompute the digest of the token half and compare it to the stored tag
/// half; true exactly when the bytes form a well-formed header. Any other
/// pattern — wrong length, torn write, forged tag — yields false.
pub fn check_integrity(header: &Header) -> (r: bool)
    ensures
        r == header_valid(header@),
{
    if header.len() != HEADER_SIZE {
        return false;
    }
    let mut token: Vec<u8> = Vec::new();
    let mut i: usize = 0;
    while i < GUID_SIZE
        invariant
            i <= GUID_SIZE,
            header@.len() == HEADER_SIZE,
            token@ == header@.subrange(0, i as int),
        decreases GUID_SIZE - i,
    {
        token.push(header[i]);
        proof {
            assert(token@ =~= header@.subrange(0, i + 1));
        }
        i = i + 1;
    }
    let tag = sha256(&token);
    let mut j: usize = 0;
    while j < HASH_SIZE
        invariant
            j <= HASH_SIZE,
            header@.len() == HEADER_SIZE,
            tag@.len() == HASH_SIZE,
            tag@ == sha256_of(header@.subrange(0, GUID_SIZE as int)),
            forall|k: int| 0 <= k < j ==> tag@[k] == header@[GUID_SIZE + k],
        decreases HASH_SIZE - j,
    {
        if tag[j] != header[GUID_SIZE + j] {
            proof {
                assert(header@.subrange(GUID_SIZE as int, HEADER_SIZE as int)[j as int]
                    != sha256_of(header@.subrange(0, GUID_SIZE as int))[j as int]);
            }
            return false;
        }
        j = j + 1;
    }
    proof {
        assert(header@.subrange(GUID_SIZE as int, HEADER_SIZE as int) =~= tag@);
    }
    true
}

/// Whether these bytes are exactly the clear header.
pub fn check_clear(header: &Header) -> (r: bool)
    ensures
        r == is_clear(header@),
{
    if header.len() != HEADER_SIZE {
        return false;
    }
    let mut i: usize = 0;
    while i < HEADER_SIZE
        invariant
            i <= HEADER_SIZE,
            header@.len() == HEADER_SIZE,
            forall|k: int| 0 <= k < i ==> header@[k] == 0,
        decreases HEADER_SIZE - i,
    {
        if header[i] != 0 {
            return false;
        }
        i = i + 1;
    }
    true
}

/// Build the clear header, written to the file on release to mark it unlocked.
pub fn clear_header() -> (r: Header)
    ensures
        is_clear(r@),
{
    let mut h: Vec<u8> = Vec::new();
    let mut i: usize = 0;
    while i < HEADER_SIZE
        invariant
            i <= HEADER_SIZE,
            h@.len() == i,
            forall|k: int| 0 <= k < i ==> h@[k] == 0,
        decreases HEADER_SIZE - i,
    {
        h.push(0);
        i = i + 1;
    }
    h
}

/// Altering the tag half of a well-formed header in any way — in particular
/// flipping a single bit, which changes the byte at the flipped position —
/// leaves a header that fails the integrity check: the stored tag no longer
/// matches the digest of the unchanged token.
pub proof fn lemma_tag_change_breaks_integrity(h: Seq<u8>, h2: Seq<u8>, i: int)
    requires
        header_valid(h),
        h2.len() == h.len(),
        GUID_SIZE <= i < HEADER_SIZE,
        h2[i] != h[i],
        forall|k: int| 0 <= k < h.len() && k != i ==> h2[k] == h[k],
    ensures
        !header_valid(h2),
{
    assert(h2.subrange(0, GUID_SIZE as int) =~= h.subrange(0, GUID_SIZE as int));
    if header_valid(h2) {
        assert(h2.subrange(GUID_SIZE as int, HEADER_SIZE as int)[i - GUID_SIZE] == h2[i]);
        assert(h.subrange(GUID_SIZE as int, HEADER_SIZE as int)[i - GUID_SIZE] == h[i]);
    }
}

/// The mirror statement for the token half: a header whose token was altered
/// but whose tag was kept can pass the integrity check only if the two
/// tokens collide under the digest. The codec itself cannot
/// rule such a collision out — rejecting these headers in practice rests on
/// the collision resistance of SHA-256, of which nothing is stated here.
pub proof fn lemma_token_change_needs_collision(h: Seq<u8>, h2: Seq<u8>)
    requires
        header_valid(h),
        h2.len() == h.len(),
        h2.subrange(GUID_SIZE as int, HEADER_SIZE as int) == h.subrange(
            GUID_SIZE as int,
            HEADER_SIZE as int,
        ),
        header_valid(h2),
    ensures
        sha256_of(h2.subrange(0, GUID_SIZE as int)) == sha256_of(h.subrange(0, GUID_SIZE as int)),
{
}

} // verus!
