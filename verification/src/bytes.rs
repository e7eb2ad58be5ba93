//! Big-endian and little-endian integer codecs over byte sequences.
//!
//! Inbound payload fields are big-endian; instruction-data blobs for
//! downstream programs are little-endian. Both directions are verified
//! against the byte-level specifications from `vstd::bytes`.
use vstd::prelude::*;
use vstd::bytes::*;

verus! {

/// Big-endian encoding of a `u16`, as the reversal of its little-endian form.
pub open spec fn spec_u16_to_be_bytes(x: u16) -> Seq<u8> {
    spec_u16_to_le_bytes(x).reverse()
}

/// The `u16` read from two big-endian bytes.
pub open spec fn spec_u16_from_be_bytes(s: Seq<u8>) -> u16
    recommends
        s.len() == 2,
{
    spec_u16_from_le_bytes(s.reverse())
}

/// Big-endian encoding of a `u32`.
pub open spec fn spec_u32_to_be_bytes(x: u32) -> Seq<u8> {
    spec_u32_to_le_bytes(x).reverse()
}

/// Big-endian encoding of a `u64`.
pub open spec fn spec_u64_to_be_bytes(x: u64) -> Seq<u8> {
    spec_u64_to_le_bytes(x).reverse()
}

/// The `u64` read from eight big-endian bytes.
pub open spec fn spec_u64_from_be_bytes(s: Seq<u8>) -> u64
    recommends
        s.len() == 8,
{
    spec_u64_from_le_bytes(s.reverse())
}

/// Round trip: decoding the big-endian encoding of a `u64` gives it back,
/// and encoding the value read from eight bytes gives the bytes back.
pub proof fn lemma_u64_be_bytes_round_trip(x: u64, s: Seq<u8>)
    requires
        s.len() == 8,
    ensures
        spec_u64_to_be_bytes(x).len() == 8,
        spec_u64_from_be_bytes(spec_u64_to_be_bytes(x)) == x,
        spec_u64_to_be_bytes(spec_u64_from_be_bytes(s)) == s,
{
    lemma_auto_spec_u64_to_from_le_bytes();
    assert(spec_u64_to_be_bytes(x).reverse() =~= spec_u64_to_le_bytes(x));
    assert(s.reverse().len() == 8);
    assert(spec_u64_to_le_bytes(spec_u64_from_le_bytes(s.reverse())).reverse() =~= s);
}

/// Encode a `u16` as two big-endian bytes.
pub fn u16_to_be_bytes_vec(x: u16) -> (r: Vec<u8>)
    ensures
        r@ == spec_u16_to_be_bytes(x),
        r@.len() == 2,
{
    proof {
        lemma_auto_spec_u16_to_from_le_bytes();
    }
    let le = u16_to_le_bytes(x);
    let mut r: Vec<u8> = Vec::new();
    r.push(le[1]);
    r.push(le[0]);
    proof {
        assert(r@ =~= spec_u16_to_le_bytes(x).reverse());
    }
    r
}

/// Encode a `u32` as four big-endian bytes.
pub fn u32_to_be_bytes_vec(x: u32) -> (r: Vec<u8>)
    ensures
        r@ == spec_u32_to_be_bytes(x),
        r@.len() == 4,
{
    proof {
        lemma_auto_spec_u32_to_from_le_bytes();
    }
    let le = u32_to_le_bytes(x);
    let mut r: Vec<u8> = Vec::new();
    r.push(le[3]);
    r.push(le[2]);
    r.push(le[1]);
    r.push(le[0]);
    proof {
        assert(r@ =~= spec_u32_to_le_bytes(x).reverse());
    }
    r
}

/// Encode a `u64` as eight big-endian bytes.
pub fn u64_to_be_bytes_vec(x: u64) -> (r: Vec<u8>)
    ensures
        r@ == spec_u64_to_be_bytes(x),
        r@.len() == 8,
{
    proof {
        lemma_auto_spec_u64_to_from_le_bytes();
    }
    let le = u64_to_le_bytes(x);
    let mut r: Vec<u8> = Vec::new();
    r.push(le[7]);
    r.push(le[6]);
    r.push(le[5]);
    r.push(le[4]);
    r.push(le[3]);
    r.push(le[2]);
    r.push(le[1]);
    r.push(le[0]);
    proof {
        assert(r@ =~= spec_u64_to_le_bytes(x).reverse());
    }
    r
}

/// Read a big-endian `u64` from `bytes` at offset `off`.
pub fn read_u64_be(bytes: &Vec<u8>, off: usize) -> (x: u64)
    requires
        off + 8 <= bytes.len(),
    ensures
        x == spec_u64_from_be_bytes(bytes@.subrange(off as int, off + 8)),
{
    let mut le: Vec<u8> = Vec::new();
    le.push(bytes[off + 7]);
    le.push(bytes[off + 6]);
    le.push(bytes[off + 5]);
    le.push(bytes[off + 4]);
    le.push(bytes[off + 3]);
    le.push(bytes[off + 2]);
    le.push(bytes[off + 1]);
    le.push(bytes[off]);
    proof {
        assert(le@ =~= bytes@.subrange(off as int, off + 8).reverse());
    }
    u64_from_le_bytes(le.as_slice())
}

/// Read a little-endian `u64` from `bytes` at offset `off`.
pub fn read_u64_le(bytes: &Vec<u8>, off: usize) -> (x: u64)
    requires
        off + 8 <= bytes.len(),
    ensures
        x == spec_u64_from_le_bytes(bytes@.subrange(off as int, off + 8)),
{
    let mut le: Vec<u8> = Vec::new();
    le.push(bytes[off]);
    le.push(bytes[off + 1]);
    le.push(bytes[off + 2]);
    le.push(bytes[off + 3]);
    le.push(bytes[off + 4]);
    le.push(bytes[off + 5]);
    le.push(bytes[off + 6]);
    le.push(bytes[off + 7]);
    proof {
        assert(le@ =~= bytes@.subrange(off as int, off + 8));
    }
    u64_from_le_bytes(le.as_slice())
}

/// Read 32 raw bytes from `bytes` at offset `off`.
#[verifier::loop_isolation(false)]
pub fn read_bytes32(bytes: &Vec<u8>, off: usize) -> (r: [u8; 32])
    requires
        off + 32 <= bytes.len(),
    ensures
        r@ == bytes@.subrange(off as int, off + 32),
{
    let mut r: [u8; 32] = [0u8; 32];
    let mut i: usize = 0;
    while i < 32
        invariant
            i <= 32,
            r@.len() == 32,
            forall|j: int| 0 <= j < i ==> r@[j] == bytes@[off + j],
        decreases 32 - i,
    {
        r[i] = bytes[off + i];
        i = i + 1;
    }
    proof {
        assert(r@ =~= bytes@.subrange(off as int, off + 32));
    }
    r
}

/// Whether two 32-byte addresses hold the same bytes.
#[verifier::loop_isolation(false)]
pub fn addr_eq(a: &[u8; 32], b: &[u8; 32]) -> (r: bool)
    ensures
        r == (a@ == b@),
{
    let mut i: usize = 0;
    while i < 32
        invariant
            i <= 32,
            forall|j: int| 0 <= j < i ==> a@[j] == b@[j],
        decreases 32 - i,
    {
        if a[i] != b[i] {
            return false;
        }
        i = i + 1;
    }
    proof {
        assert(a@ =~= b@);
    }
    true
}

/// The 32 bytes of a big-endian 256-bit integer whose value is exactly 1:
/// a final byte of 1 under 31 leading zero bytes.
pub open spec fn spec_be256_is_one(s: Seq<u8>) -> bool {
    &&& s.len() == 32
    &&& s[31] == 1u8
    &&& forall|i: int| 0 <= i < 31 ==> s[i] == 0u8
}

/// Whether the 32 bytes at offset `off` encode the 256-bit integer 1.
#[verifier::loop_isolation(false)]
pub fn be256_is_one(bytes: &Vec<u8>, off: usize) -> (r: bool)
    requires
        off + 32 <= bytes.len(),
    ensures
        r == spec_be256_is_one(bytes@.subrange(off as int, off + 32)),
{
    let ghost s = bytes@.subrange(off as int, off + 32);
    proof {
        assert(s[31] == bytes@[off + 31]);
    }
    if bytes[off + 31] != 1 {
        return false;
    }
    let mut i: usize = 0;
    while i < 31
        invariant
            i <= 31,
            forall|j: int| 0 <= j < i ==> #[trigger] bytes@[off + j] == 0u8,
        decreases 31 - i,
    {
        if bytes[off + i] != 0 {
            proof {
                assert(s[i as int] == bytes@[off + i]);
            }
            return false;
        }
        i = i + 1;
    }
    proof {
        assert forall|j: int| 0 <= j < 31 implies s[j] == 0u8 by {
            assert(bytes@[off + j] == 0u8);
        }
    }
    true
}

/// Whether a byte vector holds exactly the bytes of a 32-byte address.
#[verifier::loop_isolation(false)]
pub fn bytes32_matches(v: &Vec<u8>, a: &[u8; 32]) -> (r: bool)
    ensures
        r == (v@ == a@),
{
    if v.len() != 32 {
        return false;
    }
    let mut i: usize = 0;
    while i < 32
        invariant
            i <= 32,
            forall|j: int| 0 <= j < i ==> v@[j] == a@[j],
        decreases 32 - i,
    {
        if v[i] != a[i] {
            return false;
        }
        i = i + 1;
    }
    proof {
        assert(v@ =~= a@);
    }
    true
}

} // verus!
