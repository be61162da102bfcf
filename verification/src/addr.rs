//! Encoding and decoding of local-socket addresses.
//!
//! A local-domain socket is addressed by a filesystem path. The kernel-facing
//! form is a fixed-size structure: a family tag and a path field of
//! `PATH_CAPACITY` bytes, NUL-terminated and NUL-padded. `encode` builds that
//! structure from path bytes, rejecting paths that cannot fit together with
//! their terminator; `decode` recovers the path, stopping at the first NUL,
//! so an unbound (all-zero) address decodes to the empty path.

use vstd::prelude::*;

verus! {

/// Size in bytes of the path field of the kernel address structure.
pub const PATH_CAPACITY: usize = 108;

/// Address-family tag for local-domain (filesystem path) sockets.
pub const FAMILY_LOCAL: u16 = 1;

/// Why a path could not be encoded.
#[derive(Debug, PartialEq, Eq, Structural, Clone, Copy)]
pub enum AddressError {
    /// The path plus its NUL terminator exceeds `PATH_CAPACITY`.
    PathTooLong,
}

/// The fixed-size address structure handed to and received from the kernel.
#[derive(Debug, Clone, PartialEq, Eq)]
pub struct RawAddress {
    pub family: u16,
    pub path: Vec<u8>,
}

impl RawAddress {
    /// A well-formed raw address carries a full-capacity path field.
    pub open spec fn wf(&self) -> bool {
        self.path@.len() == PATH_CAPACITY
    }
}

/// The path field that `encode` produces: the path bytes, NUL-padded out to
/// `PATH_CAPACITY`.
pub open spec fn encoded_path(p: Seq<u8>) -> Seq<u8> {
    p + Seq::new((PATH_CAPACITY - p.len()) as nat, |i: int| 0u8)
}

/// Index of the first NUL byte of `s`, or `s.len()` if there is none.
pub open spec fn first_nul(s: Seq<u8>) -> nat
    decreases s.len(),
{
    if s.len() == 0 {
        0
    } else if s[0] == 0 {
        0
    } else {
        1 + first_nul(s.drop_first())
    }
}

/// The path that `decode` recovers: everything before the first NUL.
pub open spec fn decoded_path(s: Seq<u8>) -> Seq<u8> {
    s.take(first_nul(s) as int)
}

/// A scan that saw no NUL before `i` and a NUL at `i` (or the end) has found
/// `first_nul`.
proof fn lemma_first_nul_from_scan(s: Seq<u8>, i: int)
    requires
        0 <= i <= s.len(),
        forall|j: int| 0 <= j < i ==> s[j] != 0,
        i < s.len() ==> s[i] == 0,
    ensures
        first_nul(s) == i,
    decreases s.len(),
{
    if i == 0 {
        assert(s.len() == 0 || s[0] == 0);
    } else {
        assert(s[0] != 0);
        let t = s.drop_first();
        assert forall|j: int| 0 <= j < i - 1 implies t[j] != 0 by {
            assert(t[j] == s[j + 1]);
        }
        assert(i - 1 < t.len() ==> t[i - 1] == s[i]);
        lemma_first_nul_from_scan(t, i - 1);
    }
}

/// Convert path bytes into the fixed-size address structure.
///
/// Succeeds exactly when the path and its terminator fit in the path field;
/// a longer path is rejected before any syscall would see it.
pub fn encode(path: &Vec<u8>) -> (r: Result<RawAddress, AddressError>)
    ensures
        path@.len() < PATH_CAPACITY ==> {
            &&& r is Ok
            &&& r->Ok_0.wf()
            &&& r->Ok_0.family == FAMILY_LOCAL
            &&& r->Ok_0.path@ == encoded_path(path@)
        },
        path@.len() >= PATH_CAPACITY ==> r == Result::<RawAddress, AddressError>::Err(
            AddressError::PathTooLong,
        ),
{
    if path.len() >= PATH_CAPACITY {
        return Err(AddressError::PathTooLong);
    }
    let mut buf: Vec<u8> = Vec::new();
    let mut i: usize = 0;
    while i < path.len()
        invariant
            i <= path@.len(),
            buf@ == path@.take(i as int),
        decreases path@.len() - i,
    {
        buf.push(path[i]);
        i = i + 1;
        proof {
            assert(buf@ =~= path@.take(i as int));
        }
    }
    assert(buf@ == path@);
    while buf.len() < PATH_CAPACITY
        invariant
            path@.len() <= buf@.len() <= PATH_CAPACITY,
            buf@.take(path@.len() as int) == path@,
            forall|j: int| path@.len() <= j < buf@.len() ==> buf@[j] == 0,
        decreases PATH_CAPACITY - buf@.len(),
    {
        buf.push(0);
        proof {
            assert(buf@.take(path@.len() as int) =~= path@);
        }
    }
    proof {
        assert(buf@ =~= encoded_path(path@));
    }
    Ok(RawAddress { family: FAMILY_LOCAL, path: buf })
}

/// Recover the path from a raw address: the bytes before the first NUL of the
/// path field. An unbound (all-zero) address yields the empty path.
pub fn decode(raw: &RawAddress) -> (r: Vec<u8>)
    ensures
        r@ == decoded_path(raw.path@),
{
    let n = raw.path.len();
    let mut i: usize = 0;
    while i < n && raw.path[i] != 0
        invariant
            n == raw.path@.len(),
            i <= n,
            forall|j: int| 0 <= j < i ==> raw.path@[j] != 0,
        decreases n - i,
    {
        i = i + 1;
    }
    proof {
        lemma_first_nul_from_scan(raw.path@, i as int);
    }
    let mut out: Vec<u8> = Vec::new();
    let mut k: usize = 0;
    while k < i
        invariant
            i <= raw.path@.len(),
            k <= i,
            out@ == raw.path@.take(k as int),
        decreases i - k,
    {
        out.push(raw.path[k]);
        k = k + 1;
        proof {
            assert(out@ =~= raw.path@.take(k as int));
        }
    }
    out
}

/// Round-trip law: a path that fits and contains no NUL byte survives
/// encoding and decoding unchanged. (A path with an interior NUL would be
/// truncated at it, as the kernel itself would.)
pub proof fn lemma_encode_decode_roundtrip(p: Seq<u8>)
    requires
        p.len() < PATH_CAPACITY,
        forall|i: int| 0 <= i < p.len() ==> p[i] != 0,
    ensures
        decoded_path(encoded_path(p)) == p,
{
    let e = encoded_path(p);
    assert(e.len() == PATH_CAPACITY);
    assert forall|j: int| 0 <= j < p.len() implies e[j] != 0 by {
        assert(e[j] == p[j]);
    }
    assert(e[p.len() as int] == 0);
    lemma_first_nul_from_scan(e, p.len() as int);
    assert(e.take(p.len() as int) =~= p);
}

} // verus!
