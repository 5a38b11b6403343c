//! Verification of sparse-Merkle proofs against a committed root.
use crate::error::SilentBerryError;
use vstd::bytes::{spec_u128_to_le_bytes, u128_to_le_bytes};
use vstd::prelude::*;
use vstd::string::StringSliceAdditionalSpecFns;

verus! {

/// The 32-byte node value of `sparse_merkle_tree`, carried through as an
/// opaque value.
#[verifier::external_type_specification]
#[verifier::external_body]
pub struct ExH256(sparse_merkle_tree::H256);

/// The error of `sparse_merkle_tree`, carried through as an opaque value.
#[verifier::external_type_specification]
#[verifier::external_body]
pub struct ExSmtError(sparse_merkle_tree::error::Error);

/// The 32 bytes that a node value holds.
pub uninterp spec fn h256_bytes(h: sparse_merkle_tree::H256) -> Seq<u8>;

/// Calls `From<H256> for [u8; 32]`, which hands out the bytes of the node
/// value.
#[verifier::external_body]
fn h256_to_array(h: &sparse_merkle_tree::H256) -> (bytes: [u8; 32])
    ensures
        bytes@ == h256_bytes(*h),
{
    (*h).into()
}

/// Calls `From<[u8; 32]> for H256`, which makes the node value of these
/// bytes.
#[verifier::external_body]
fn h256_from_array(bytes: [u8; 32]) -> (h: sparse_merkle_tree::H256)
    ensures
        h256_bytes(h) == bytes@,
{
    bytes.into()
}

/// The hasher that merges the nodes of the tree: BLAKE2b with the same
/// personalisation as every other hash of the ledger.
pub struct SmtHasher(crate::hash::Blake2b256);

impl SmtHasher {
    /// The bytes that the hasher has been fed so far.
    pub closed spec fn fed(&self) -> Seq<u8> {
        crate::hash::blake2b_absorbed(self.0.0)
    }

    /// Whether the hasher was made by [`Default::default`].
    pub closed spec fn well_formed(&self) -> bool {
        crate::hash::blake2b_personal(self.0.0) == crate::hash::CKB_HASH_PERSONALIZATION@
    }
}

impl Default for SmtHasher {
    /// A hasher that has been fed nothing.
    fn default() -> (hasher: Self)
        ensures
            hasher.well_formed(),
            hasher.fed() == Seq::<u8>::empty(),
    {
        SmtHasher(crate::hash::blake2b_256_new(crate::hash::CKB_HASH_PERSONALIZATION.as_slice()))
    }
}

impl sparse_merkle_tree::traits::Hasher for SmtHasher {
    /// Feeds the 32 bytes of a node value.
    fn write_h256(&mut self, h: &sparse_merkle_tree::H256)
        ensures
            final(self).fed() == old(self).fed() + h256_bytes(*h),
            final(self).well_formed() == old(self).well_formed(),
    {
        let bytes = h256_to_array(h);
        crate::hash::blake2b_update(&mut self.0, bytes.as_slice());
    }

    /// Feeds one byte.
    fn write_byte(&mut self, b: u8)
        ensures
            final(self).fed() == old(self).fed() + seq![b],
            final(self).well_formed() == old(self).well_formed(),
    {
        let one = [b];
        assert(one@ =~= seq![b]);
        crate::hash::blake2b_update(&mut self.0, one.as_slice());
    }

    /// The hash of what was fed, as a node value.
    fn finish(self) -> (node: sparse_merkle_tree::H256)
        ensures
            self.well_formed() ==> h256_bytes(node) == crate::hash::ckb_hash_spec(self.fed()),
    {
        h256_from_array(crate::hash::blake2b_256_finalize(self.0))
    }
}

/// What `CompiledMerkleProof::verify` answers for a compiled proof, a root
/// and a list of (key, leaf value) pairs when nodes are merged by
/// [`SmtHasher`]: `Some(true)` when the proof rebuilds exactly that root from
/// exactly those leaves, `Some(false)` when it rebuilds another root, and
/// `None` when the proof is malformed.
pub uninterp spec fn smt_verify_spec(
    proof: Seq<u8>,
    root: Seq<u8>,
    leaves: Seq<(Seq<u8>, Seq<u8>)>,
) -> Option<bool>;

/// The (key, leaf value) pairs that a list of pairs of node values stands
/// for.
pub open spec fn leaves_view(leaves: Seq<(sparse_merkle_tree::H256, sparse_merkle_tree::H256)>) -> Seq<
    (Seq<u8>, Seq<u8>),
> {
    leaves.map_values(
        |l: (sparse_merkle_tree::H256, sparse_merkle_tree::H256)| (h256_bytes(l.0), h256_bytes(l.1)),
    )
}

/// Calls `sparse_merkle_tree::CompiledMerkleProof::verify` with [`SmtHasher`]
/// on a copy of the proof bytes. The answer depends on the proof bytes, the
/// root and the leaves alone. The stack of the proof machine grows by one
/// per leaf, so few leaves keep it within the bound that the crate asserts.
#[verifier::external_body]
fn compiled_proof_verify(
    proof: &Vec<u8>,
    root: &sparse_merkle_tree::H256,
    leaves: Vec<(sparse_merkle_tree::H256, sparse_merkle_tree::H256)>,
) -> (r: Result<bool, sparse_merkle_tree::error::Error>)
    requires
        leaves@.len() <= 256,
    ensures
        match r {
            Ok(b) => smt_verify_spec(proof@, h256_bytes(*root), leaves_view(leaves@)) == Some(b),
            Err(_) => smt_verify_spec(proof@, h256_bytes(*root), leaves_view(leaves@)) is None,
        },
{
    sparse_merkle_tree::CompiledMerkleProof(proof.clone()).verify::<SmtHasher>(root, leaves)
}

/// The verdict on a proof once the proof machine has answered: its answer
/// when it ran to the end, and an `Smt` failure when the proof was malformed.
pub open spec fn spec_smt_outcome(answer: Option<bool>) -> Result<bool, SilentBerryError> {
    match answer {
        Some(b) => Ok(b),
        None => Err(SilentBerryError::Smt),
    }
}

/// Turns the answer of the proof machine into a verdict. Any error of the
/// machine is the one failure `Smt`.
pub fn smt_outcome(answer: Result<bool, sparse_merkle_tree::error::Error>) -> (r: Result<
    bool,
    SilentBerryError,
>)
    ensures
        r == spec_smt_outcome(
            match answer {
                Ok(b) => Some(b),
                Err(_) => None,
            },
        ),
{
    match answer {
        Ok(b) => Ok(b),
        Err(_) => Err(SilentBerryError::Smt),
    }
}

/// Root of the tree in which the income and the balance are zero and no
/// party has a leaf: the root every account book starts from.
pub const SMT_ROOT_HASH_INITIAL: [u8; 32] = [
    0x00, 0x06, 0xc4, 0x85, 0x4a, 0x56, 0x99, 0x02, 0xd8, 0x76, 0x0c, 0x07, 0xd5, 0x42, 0x6e, 0x5f,
    0x20, 0xa0, 0xc0, 0x4c, 0x9b, 0x51, 0x16, 0xa1, 0xdb, 0x45, 0x35, 0x62, 0x5e, 0x26, 0xe7, 0x4e,
];

/// A key of the tree: one of the four reserved keys, or a buyer by the
/// identity of the digital object bought.
#[derive(Clone, Copy, Debug)]
pub enum SmtKey {
    AccountBalance,
    TotalIncome,
    Platform,
    Auther,
    Buyer(crate::hash::Hash),
}

impl SmtKey {
    /// The bytes that are hashed into the key: the name of a reserved key,
    /// the identity of a buyer.
    pub open spec fn spec_label(self) -> Seq<u8> {
        match self {
            SmtKey::AccountBalance => "AccountBalance".spec_bytes(),
            SmtKey::TotalIncome => "TotalIncome".spec_bytes(),
            SmtKey::Platform => "Platform".spec_bytes(),
            SmtKey::Auther => "Auther".spec_bytes(),
            SmtKey::Buyer(hash) => hash@,
        }
    }

    /// The key: the hash of the label.
    pub open spec fn spec_key(self) -> Seq<u8> {
        crate::hash::ckb_hash_spec(self.spec_label())
    }

    /// The position of this key in the tree.
    pub fn get_key(&self) -> (key: crate::hash::Hash)
        ensures
            key@ == self.spec_key(),
    {
        match self {
            SmtKey::AccountBalance => crate::hash::Hash::ckb_hash("AccountBalance".as_bytes()),
            SmtKey::TotalIncome => crate::hash::Hash::ckb_hash("TotalIncome".as_bytes()),
            SmtKey::Platform => crate::hash::Hash::ckb_hash("Platform".as_bytes()),
            SmtKey::Auther => crate::hash::Hash::ckb_hash("Auther".as_bytes()),
            SmtKey::Buyer(hash) => crate::hash::Hash::ckb_hash(hash.as_slice()),
        }
    }
}

/// A leaf of the tree: an amount, a running balance or a payout.
#[derive(Clone, Copy, Debug, PartialEq, Eq, Structural)]
pub struct SmtValue {
    pub price: u128,
}

/// The leaf value that commits to `amount`: the hash of its 16 little-endian
/// bytes.
pub open spec fn spec_leaf_hash(amount: u128) -> Seq<u8> {
    crate::hash::ckb_hash_spec(spec_u128_to_le_bytes(amount))
}

/// The leaf value the tree holds for a key: that of the amount, or 32 zero
/// bytes where the key is absent.
pub open spec fn spec_leaf(amount: Option<u128>) -> Seq<u8> {
    match amount {
        Some(a) => spec_leaf_hash(a),
        None => Seq::new(32, |i: int| 0u8),
    }
}

impl SmtValue {
    /// The leaf of an amount.
    pub fn new(a: u128) -> (v: Self)
        ensures
            v.price == a,
    {
        SmtValue { price: a }
    }

    /// The leaf value that commits to this amount, as a hash.
    pub fn to_hash(&self) -> (leaf: crate::hash::Hash)
        ensures
            leaf@ == spec_leaf_hash(self.price),
    {
        let bytes = u128_to_le_bytes(self.price);
        crate::hash::Hash::ckb_hash(bytes.as_slice())
    }
}

impl sparse_merkle_tree::traits::Value for SmtValue {
    /// The leaf value that commits to this amount, as a node value of the
    /// tree.
    fn to_h256(&self) -> (leaf: sparse_merkle_tree::H256)
        ensures
            h256_bytes(leaf) == spec_leaf_hash(self.price),
    {
        h256_from_array(self.to_hash().0)
    }

    /// The value that the tree hands out for a key it does not hold.
    fn zero() -> (v: Self)
        ensures
            v.price == 0,
    {
        SmtValue { price: 0 }
    }
}

impl Default for SmtValue {
    fn default() -> (v: Self)
        ensures
            v.price == 0,
    {
        SmtValue { price: 0 }
    }
}

/// The three leaves every proof is checked against: the total income, the
/// account balance, and the party whose key is the hash of `label`, with its
/// amount or its absence.
pub open spec fn spec_proof_leaves(
    total_income: u128,
    account_balance: u128,
    label: Seq<u8>,
    amount: Option<u128>,
) -> Seq<(Seq<u8>, Seq<u8>)> {
    seq![
        (SmtKey::TotalIncome.spec_key(), spec_leaf_hash(total_income)),
        (SmtKey::AccountBalance.spec_key(), spec_leaf_hash(account_balance)),
        (crate::hash::ckb_hash_spec(label), spec_leaf(amount)),
    ]
}

/// Whether `proof` ties the three leaves to `root`: the verdict of
/// [`AccountBookProof::verify`].
pub open spec fn spec_verify(
    proof: Seq<u8>,
    root: Seq<u8>,
    total_income: u128,
    account_balance: u128,
    label: Seq<u8>,
    amount: Option<u128>,
) -> Result<bool, SilentBerryError> {
    spec_smt_outcome(
        smt_verify_spec(
            proof,
            root,
            spec_proof_leaves(total_income, account_balance, label, amount),
        ),
    )
}

/// A compiled Merkle proof, opaque outside the verifier.
#[derive(Clone, Debug)]
pub struct AccountBookProof {
    proof: Vec<u8>,
}

impl View for AccountBookProof {
    type V = Seq<u8>;

    closed spec fn view(&self) -> Seq<u8> {
        self.proof@
    }
}

impl AccountBookProof {
    /// Takes the bytes of a compiled proof as they are.
    pub fn new(proof: Vec<u8>) -> (p: Self)
        ensures
            p@ == proof@,
    {
        AccountBookProof { proof }
    }

    /// Checks the total income, the account balance and one party against
    /// `root` with this one proof. The party's leaf is that of its amount, or
    /// the absent leaf where no amount is given. `Ok(true)` when the proof
    /// rebuilds `root` from exactly these three leaves, `Ok(false)` when it
    /// rebuilds another root, an `Smt` failure when it is malformed.
    pub fn verify(
        &self,
        root: crate::hash::Hash,
        total_income: u128,
        account_balance: u128,
        buyer: (SmtKey, Option<u128>),
    ) -> (r: Result<bool, SilentBerryError>)
        ensures
            r == spec_verify(
                self@,
                root@,
                total_income,
                account_balance,
                buyer.0.spec_label(),
                buyer.1,
            ),
    {
        let party_leaf = match buyer.1 {
            Some(a) => SmtValue::new(a).to_hash(),
            None => crate::hash::Hash([0u8; 32]),
        };
        assert(party_leaf@ =~= spec_leaf(buyer.1));
        let mut leaves: Vec<(sparse_merkle_tree::H256, sparse_merkle_tree::H256)> = Vec::new();
        leaves.push(
            (
                h256_from_array(SmtKey::TotalIncome.get_key().0),
                h256_from_array(SmtValue::new(total_income).to_hash().0),
            ),
        );
        leaves.push(
            (
                h256_from_array(SmtKey::AccountBalance.get_key().0),
                h256_from_array(SmtValue::new(account_balance).to_hash().0),
            ),
        );
        leaves.push((h256_from_array(buyer.0.get_key().0), h256_from_array(party_leaf.0)));
        assert(leaves_view(leaves@) =~= spec_proof_leaves(
            total_income,
            account_balance,
            buyer.0.spec_label(),
            buyer.1,
        ));
        let root = h256_from_array(root.0);
        smt_outcome(compiled_proof_verify(&self.proof, &root, leaves))
    }
}

} // verus!
