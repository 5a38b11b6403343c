//! Reading and writing the fields of fixed-layout records: hashes as 32 raw
//! bytes, integers in little-endian order, byte strings behind a 32-bit
//! length, optional fields behind a presence byte.
use vstd::bytes::*;
use vstd::prelude::*;
use vstd::slice::{slice_index_get, slice_subrange, slice_to_vec};

verus! {

/// The 32-bit unsigned integer stored at `pos`.
pub open spec fn spec_u32_at(s: Seq<u8>, pos: int) -> u32 {
    spec_u32_from_le_bytes(s.subrange(pos, pos + 4))
}

/// The 64-bit unsigned integer stored at `pos`.
pub open spec fn spec_u64_at(s: Seq<u8>, pos: int) -> u64 {
    spec_u64_from_le_bytes(s.subrange(pos, pos + 8))
}

/// The 128-bit unsigned integer stored at `pos`.
pub open spec fn spec_u128_at(s: Seq<u8>, pos: int) -> u128 {
    spec_u128_from_le_bytes(s.subrange(pos, pos + 16))
}

/// The 32 bytes of the hash stored at `pos`.
pub open spec fn spec_hash_at(s: Seq<u8>, pos: int) -> Seq<u8> {
    s.subrange(pos, pos + 32)
}

/// A byte string behind its 32-bit length.
pub open spec fn spec_prefixed(bytes: Seq<u8>) -> Seq<u8> {
    spec_u32_to_le_bytes(bytes.len() as u32) + bytes
}

/// Whether a length-prefixed byte string starts at `pos` and lies within `s`.
pub open spec fn spec_has_prefixed(s: Seq<u8>, pos: int) -> bool {
    &&& 0 <= pos
    &&& pos + 4 <= s.len()
    &&& pos + 4 + spec_u32_at(s, pos) <= s.len()
}

/// The content of the length-prefixed byte string that starts at `pos`.
pub open spec fn spec_prefixed_at(s: Seq<u8>, pos: int) -> Seq<u8> {
    s.subrange(pos + 4, pos + 4 + spec_u32_at(s, pos))
}

/// The position just behind the length-prefixed byte string at `pos`.
pub open spec fn spec_prefixed_end(s: Seq<u8>, pos: int) -> int {
    pos + 4 + spec_u32_at(s, pos)
}

/// Reads the 32-bit unsigned integer stored at `pos`.
pub(crate) fn read_u32(data: &[u8], pos: usize) -> (v: u32)
    requires
        pos + 4 <= data@.len(),
    ensures
        v == spec_u32_at(data@, pos as int),
{
    let len: usize = data.len();
    u32_from_le_bytes(slice_subrange(data, pos, pos + 4))
}

/// Reads the 64-bit unsigned integer stored at `pos`.
pub(crate) fn read_u64(data: &[u8], pos: usize) -> (v: u64)
    requires
        pos + 8 <= data@.len(),
    ensures
        v == spec_u64_at(data@, pos as int),
{
    let len: usize = data.len();
    u64_from_le_bytes(slice_subrange(data, pos, pos + 8))
}

/// Reads the 128-bit unsigned integer stored at `pos`.
pub(crate) fn read_u128(data: &[u8], pos: usize) -> (v: u128)
    requires
        pos + 16 <= data@.len(),
    ensures
        v == spec_u128_at(data@, pos as int),
{
    let len: usize = data.len();
    u128_from_le_bytes(slice_subrange(data, pos, pos + 16))
}

/// Reads the hash stored at `pos`.
pub(crate) fn read_hash(data: &[u8], pos: usize) -> (h: crate::hash::Hash)
    requires
        pos + 32 <= data@.len(),
    ensures
        h@ == spec_hash_at(data@, pos as int),
{
    let len: usize = data.len();
    let mut bytes = [0u8; 32];
    let mut i: usize = 0;
    while i < 32
        invariant
            pos + 32 <= data@.len(),
            data@.len() == len,
            i <= 32,
            forall|j: int| 0 <= j < i ==> bytes@[j] == data@[pos + j],
        decreases 32 - i,
    {
        bytes[i] = *slice_index_get(data, pos + i);
        i += 1;
    }
    assert(bytes@ =~= spec_hash_at(data@, pos as int));
    crate::hash::Hash(bytes)
}

/// Copies the `n` bytes stored at `pos`.
pub(crate) fn read_bytes(data: &[u8], pos: usize, n: usize) -> (v: Vec<u8>)
    requires
        pos + n <= data@.len(),
    ensures
        v@ == data@.subrange(pos as int, pos + n),
{
    let len: usize = data.len();
    slice_to_vec(slice_subrange(data, pos, pos + n))
}

/// Reads the length-prefixed byte string at `pos`, or nothing when it does
/// not lie within `data`. Also gives the position behind it.
pub(crate) fn read_prefixed(data: &[u8], pos: usize) -> (r: Option<(Vec<u8>, usize)>)
    requires
        pos <= data@.len(),
    ensures
        r is Some == spec_has_prefixed(data@, pos as int),
        r matches Some((v, end)) ==> v@ == spec_prefixed_at(data@, pos as int) && end
            == spec_prefixed_end(data@, pos as int) && end <= data@.len(),
{
    if data.len() - pos < 4 {
        return None;
    }
    let n: u32 = read_u32(data, pos);
    if data.len() - pos - 4 < n as usize {
        return None;
    }
    let v = read_bytes(data, pos + 4, n as usize);
    Some((v, pos + 4 + n as usize))
}

/// Appends a 32-bit unsigned integer.
pub(crate) fn push_u32(out: &mut Vec<u8>, v: u32)
    ensures
        final(out)@ == old(out)@ + spec_u32_to_le_bytes(v),
{
    let b = u32_to_le_bytes(v);
    out.extend_from_slice(b.as_slice());
}

/// Appends a 64-bit unsigned integer.
pub(crate) fn push_u64(out: &mut Vec<u8>, v: u64)
    ensures
        final(out)@ == old(out)@ + spec_u64_to_le_bytes(v),
{
    let b = u64_to_le_bytes(v);
    out.extend_from_slice(b.as_slice());
}

/// Appends a 128-bit unsigned integer.
pub(crate) fn push_u128(out: &mut Vec<u8>, v: u128)
    ensures
        final(out)@ == old(out)@ + spec_u128_to_le_bytes(v),
{
    let b = u128_to_le_bytes(v);
    out.extend_from_slice(b.as_slice());
}

/// Appends the 32 bytes of a hash.
pub(crate) fn push_hash(out: &mut Vec<u8>, h: &crate::hash::Hash)
    ensures
        final(out)@ == old(out)@ + h@,
{
    out.extend_from_slice(h.as_slice());
}

/// Appends a byte string behind its 32-bit length.
pub(crate) fn push_prefixed(out: &mut Vec<u8>, bytes: &[u8])
    requires
        bytes@.len() <= u32::MAX,
    ensures
        final(out)@ == old(out)@ + spec_prefixed(bytes@),
{
    push_u32(out, bytes.len() as u32);
    out.extend_from_slice(bytes);
    assert(out@ =~= old(out)@ + spec_prefixed(bytes@));
}

/// A length-prefixed byte string is read back as it was written, wherever it
/// stands in a longer string.
pub proof fn lemma_prefixed_round_trip(head: Seq<u8>, bytes: Seq<u8>, tail: Seq<u8>)
    requires
        bytes.len() <= u32::MAX,
    ensures
        spec_has_prefixed(head + spec_prefixed(bytes) + tail, head.len() as int),
        spec_prefixed_at(head + spec_prefixed(bytes) + tail, head.len() as int) == bytes,
        spec_prefixed_end(head + spec_prefixed(bytes) + tail, head.len() as int) == head.len() + 4
            + bytes.len(),
{
    lemma_auto_spec_u32_to_from_le_bytes();
    let s = head + spec_prefixed(bytes) + tail;
    let p = head.len() as int;
    let len_bytes = spec_u32_to_le_bytes(bytes.len() as u32);
    assert(s.subrange(p, p + 4) =~= len_bytes);
    assert(spec_u32_at(s, p) == bytes.len());
    assert(s.subrange(p + 4, p + 4 + bytes.len()) =~= bytes);
}

/// Whatever is read as a length-prefixed byte string is what writing its
/// content would put there.
pub proof fn lemma_prefixed_canonical(s: Seq<u8>, pos: int)
    requires
        spec_has_prefixed(s, pos),
    ensures
        s.subrange(pos, spec_prefixed_end(s, pos)) == spec_prefixed(spec_prefixed_at(s, pos)),
{
    lemma_auto_spec_u32_to_from_le_bytes();
    let n = spec_u32_at(s, pos);
    let content = spec_prefixed_at(s, pos);
    assert(content.len() == n);
    assert(spec_u32_to_le_bytes(n) == s.subrange(pos, pos + 4));
    assert(s.subrange(pos, pos + 4 + n) =~= s.subrange(pos, pos + 4) + content);
}

} // verus!
