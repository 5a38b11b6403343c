//! The 32-byte hash value and the domain-separated hash function.
use crate::error::SilentBerryError;
use vstd::prelude::*;
use vstd::slice::slice_index_get;
use vstd::std_specs::cmp::PartialEqSpecImpl;
use vstd::std_specs::convert::FromSpecImpl;

verus! {

/// Number of bytes in a hash.
pub const HASH_SIZE: usize = 32;

/// Personalisation of the hash function: the ASCII text `ckb-default-hash`.
pub const CKB_HASH_PERSONALIZATION: [u8; 16] = [
    0x63, 0x6b, 0x62, 0x2d, 0x64, 0x65, 0x66, 0x61, 0x75, 0x6c, 0x74, 0x2d, 0x68, 0x61, 0x73, 0x68,
];

/// The hasher state of `blake2b_ref`, carried through as an opaque value.
#[verifier::external_type_specification]
#[verifier::external_body]
pub struct ExBlake2b(blake2b_ref::Blake2b);

/// The bytes that a hasher has been fed so far, in order.
pub uninterp spec fn blake2b_absorbed(state: blake2b_ref::Blake2b) -> Seq<u8>;

/// The personalisation that a hasher was built with.
pub uninterp spec fn blake2b_personal(state: blake2b_ref::Blake2b) -> Seq<u8>;

/// The BLAKE2b digest of 32 bytes of `data` under the personalisation
/// `personal`, with no key and no salt.
pub uninterp spec fn blake2b_256_spec(personal: Seq<u8>, data: Seq<u8>) -> Seq<u8>;

/// The domain-separated hash of `data`.
pub open spec fn ckb_hash_spec(data: Seq<u8>) -> Seq<u8> {
    blake2b_256_spec(CKB_HASH_PERSONALIZATION@, data)
}

/// A BLAKE2b hasher for digests of 32 bytes, with no key and no salt. Only
/// [`blake2b_256_new`] makes one.
pub struct Blake2b256(pub(crate) blake2b_ref::Blake2b);

/// Calls `blake2b_ref::Blake2bBuilder`: `new(32)`, `personal` and `build`
/// give a hasher for digests of 32 bytes under that personalisation, which
/// has been fed nothing yet. The builder refuses a personalisation of more
/// than 16 bytes.
#[verifier::external_body]
pub(crate) fn blake2b_256_new(personal: &[u8]) -> (hasher: Blake2b256)
    requires
        personal@.len() <= 16,
    ensures
        blake2b_absorbed(hasher.0) == Seq::<u8>::empty(),
        blake2b_personal(hasher.0) == personal@,
{
    Blake2b256(blake2b_ref::Blake2bBuilder::new(32).personal(personal).build())
}

/// Calls `blake2b_ref::Blake2b::update`, which feeds `data` to the hasher
/// behind what it was fed before.
#[verifier::external_body]
pub(crate) fn blake2b_update(hasher: &mut Blake2b256, data: &[u8])
    ensures
        blake2b_absorbed(final(hasher).0) == blake2b_absorbed(old(hasher).0) + data@,
        blake2b_personal(final(hasher).0) == blake2b_personal(old(hasher).0),
{
    hasher.0.update(data);
}

/// Calls `blake2b_ref::Blake2b::finalize` with room for the 32 bytes that
/// the hasher was built for. The digest depends on the personalisation and
/// on the bytes fed, not on how they were split over the calls that fed
/// them.
#[verifier::external_body]
pub(crate) fn blake2b_256_finalize(hasher: Blake2b256) -> (digest: [u8; 32])
    ensures
        digest@ == blake2b_256_spec(blake2b_personal(hasher.0), blake2b_absorbed(hasher.0)),
{
    let mut digest = [0u8; 32];
    hasher.0.finalize(&mut digest);
    digest
}

/// A 32-byte hash: an identity of a script, a record or a leaf.
#[derive(Clone, Copy, Debug)]
pub struct Hash(pub [u8; 32]);

impl View for Hash {
    type V = Seq<u8>;

    open spec fn view(&self) -> Seq<u8> {
        self.0@
    }
}

/// Whether two byte strings are equal.
pub fn bytes_eq(a: &[u8], b: &[u8]) -> (same: bool)
    ensures
        same == (a@ == b@),
{
    if a.len() != b.len() {
        return false;
    }
    let mut i: usize = 0;
    while i < a.len()
        invariant
            a@.len() == b@.len(),
            i <= a@.len(),
            forall|j: int| 0 <= j < i ==> a@[j] == b@[j],
        decreases a@.len() - i,
    {
        if *slice_index_get(a, i) != *slice_index_get(b, i) {
            return false;
        }
        i += 1;
    }
    assert(a@ =~= b@);
    true
}

impl PartialEq for Hash {
    fn eq(&self, other: &Hash) -> (same: bool) {
        bytes_eq(self.0.as_slice(), other.0.as_slice())
    }
}

impl PartialEqSpecImpl for Hash {
    open spec fn obeys_eq_spec() -> bool {
        true
    }

    open spec fn eq_spec(&self, other: &Hash) -> bool {
        self@ == other@
    }
}

impl Eq for Hash {

}

impl From<[u8; 32]> for Hash {
    fn from(value: [u8; 32]) -> (h: Self) {
        Hash(value)
    }
}

impl FromSpecImpl<[u8; 32]> for Hash {
    open spec fn obeys_from_spec() -> bool {
        true
    }

    open spec fn from_spec(value: [u8; 32]) -> Self {
        Hash(value)
    }
}

impl From<Hash> for [u8; 32] {
    fn from(value: Hash) -> (bytes: [u8; 32]) {
        value.0
    }
}

impl FromSpecImpl<Hash> for [u8; 32] {
    open spec fn obeys_from_spec() -> bool {
        true
    }

    open spec fn from_spec(value: Hash) -> [u8; 32] {
        value.0
    }
}

impl Hash {
    /// The hash whose bytes are `value`, which must be exactly 32 bytes long;
    /// any other length is a `TypeConversion` failure.
    pub fn try_from_slice(value: &[u8]) -> (r: Result<Hash, SilentBerryError>)
        ensures
            value@.len() == 32 ==> r.is_ok() && r.unwrap()@ == value@,
            value@.len() != 32 ==> r == Err::<Hash, SilentBerryError>(
                SilentBerryError::TypeConversion,
            ),
    {
        if value.len() != 32 {
            return Err(SilentBerryError::TypeConversion);
        }
        let mut bytes = [0u8; 32];
        let mut i: usize = 0;
        while i < 32
            invariant
                value@.len() == 32,
                i <= 32,
                forall|j: int| 0 <= j < i ==> bytes@[j] == value@[j],
            decreases 32 - i,
        {
            bytes[i] = *slice_index_get(value, i);
            i += 1;
        }
        assert(bytes@ =~= value@);
        Ok(Hash(bytes))
    }

    /// The domain-separated hash of `data`.
    pub fn ckb_hash(data: &[u8]) -> (h: Hash)
        ensures
            h@ == ckb_hash_spec(data@),
    {
        let mut state = blake2b_256_new(CKB_HASH_PERSONALIZATION.as_slice());
        blake2b_update(&mut state, data);
        assert(blake2b_absorbed(state.0) =~= data@);
        Hash(blake2b_256_finalize(state))
    }

    /// The bytes of the hash.
    pub fn as_slice(&self) -> (bytes: &[u8])
        ensures
            bytes@ == self@,
            bytes@.len() == 32,
    {
        self.0.as_slice()
    }

    /// Whether the hash has exactly the bytes `other`.
    pub fn eq_bytes(&self, other: &[u8]) -> (same: bool)
        ensures
            same == (self@ == other@),
    {
        bytes_eq(self.0.as_slice(), other)
    }

    /// Whether `other` is present and equal to this hash; an absent hash
    /// equals none.
    pub fn eq_opt(&self, other: &Option<Hash>) -> (same: bool)
        ensures
            same == (other matches Some(h) && h@ == self@),
    {
        match other {
            Some(h) => *self == *h,
            None => false,
        }
    }
}

} // verus!
