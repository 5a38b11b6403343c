use silentberry::account_book_proof::{
    AccountBookProof, SmtHasher, SmtKey, SmtValue, SMT_ROOT_HASH_INITIAL,
};
use silentberry::error::SilentBerryError;
use sparse_merkle_tree::default_store::DefaultStore;
use sparse_merkle_tree::traits::Value;
use sparse_merkle_tree::{SparseMerkleTree, H256};
use std::collections::HashMap;

type H = silentberry::hash::Hash;

type SMTTree = SparseMerkleTree<SmtHasher, SmtValue, DefaultStore<SmtValue>>;

fn key_of(key: &SmtKey) -> H256 {
    key.get_key().0.into()
}

#[derive(Default)]
struct AccountBook {
    tree: SMTTree,
    bk_items: HashMap<[u8; 32], u128>,
}

impl AccountBook {
    fn update(&mut self, key: SmtKey, value: u128) {
        self.bk_items.insert(key.get_key().0, value);
        self.tree
            .update(key_of(&key), SmtValue::new(value))
            .expect("Update SMT Failed");
    }
    fn root_hash(&self) -> H {
        let root: [u8; 32] = (*self.tree.root()).into();
        silentberry::hash::Hash(root)
    }
    fn compiled_proof(&self, k: SmtKey) -> Vec<u8> {
        let ks: Vec<H256> = [SmtKey::TotalIncome, SmtKey::AccountBalance, k]
            .iter()
            .map(key_of)
            .collect();
        self.tree
            .merkle_proof(ks.clone())
            .unwrap()
            .compile(ks)
            .unwrap()
            .0
    }
    fn new_empty() -> Self {
        let mut smt: AccountBook = Default::default();
        smt.update(SmtKey::TotalIncome, 0);
        smt.update(SmtKey::AccountBalance, 0);
        smt
    }
    fn new_test() -> Self {
        let mut smt: AccountBook = Default::default();

        smt.update(SmtKey::TotalIncome, 30000);
        smt.update(SmtKey::AccountBalance, 10000);

        let mut c: u8 = 0;
        fn new_hash(count: &mut u8) -> H {
            *count += 1;
            silentberry::hash::Hash([*count; 32])
        }

        smt.update(SmtKey::Auther, 122);
        smt.update(SmtKey::Platform, 0);

        for _ in 0..100 {
            smt.update(SmtKey::Buyer(new_hash(&mut c)), 0);
        }

        smt.update(SmtKey::Buyer(new_hash(&mut 2)), 21313);
        smt.update(SmtKey::Buyer(new_hash(&mut 3)), 4324);
        smt.update(SmtKey::Buyer(new_hash(&mut 4)), 4444);
        smt.update(SmtKey::Buyer(new_hash(&mut 5)), 555);

        smt
    }
    fn get_item(&self, k: SmtKey) -> u128 {
        *self.bk_items.get(&k.get_key().0).unwrap()
    }
    fn get_total(&self) -> u128 {
        self.get_item(SmtKey::AccountBalance)
    }
}

#[test]
fn test_smt() {
    let mut smt = AccountBook::new_test();

    let mut c: u8 = 200;
    fn new_hash(count: &mut u8) -> H {
        *count += 1;
        silentberry::hash::Hash([*count; 32])
    }

    let total_income = 400000;

    smt.update(SmtKey::AccountBalance, 80000);
    smt.update(SmtKey::Auther, 2001);
    smt.update(SmtKey::Platform, 0);
    smt.update(SmtKey::Buyer(new_hash(&mut c)), 123);
    smt.update(SmtKey::Buyer(new_hash(&mut c)), 4324);
    smt.update(SmtKey::Buyer(new_hash(&mut c)), 4444);
    smt.update(SmtKey::Buyer(new_hash(&mut c)), 555);
    smt.update(SmtKey::Buyer(new_hash(&mut c)), 0);
    smt.update(SmtKey::TotalIncome, total_income);

    println!("c it: {}", c);
    let k = SmtKey::Buyer(new_hash(&mut c));

    let proof = smt.compiled_proof(k.clone());
    let root_hash_1 = smt.root_hash();
    let total_1 = smt.get_total();

    smt.update(k.clone(), 200);
    let root_hash_2 = smt.root_hash();

    smt.update(SmtKey::AccountBalance, 79800);
    let root_hash_3 = smt.root_hash();
    let total_3 = smt.get_total();

    let cproof = AccountBookProof::new(proof);

    assert!(cproof
        .verify(
            root_hash_1,
            total_income,
            total_1.clone(),
            (k.clone(), None)
        )
        .unwrap());
    assert!(cproof
        .verify(root_hash_2, total_income, total_1, (k.clone(), Some(200)))
        .unwrap());
    assert!(cproof
        .verify(root_hash_3, total_income, total_3, (k.clone(), Some(200)))
        .unwrap());
}

#[test]
fn proof_rejects_other_amounts() {
    let mut smt = AccountBook::new_test();
    let k = SmtKey::Buyer(silentberry::hash::Hash([0xC9; 32]));
    let proof = AccountBookProof::new(smt.compiled_proof(k));
    let root = smt.root_hash();
    assert_eq!(proof.verify(root, 30000, 10000, (k, None)), Ok(true));
    assert_eq!(proof.verify(root, 30001, 10000, (k, None)), Ok(false));
    assert_eq!(proof.verify(root, 30000, 9999, (k, None)), Ok(false));
    // An absent key is not a key with amount zero.
    assert_eq!(proof.verify(root, 30000, 10000, (k, Some(0))), Ok(false));
    smt.update(k, 0);
    assert_eq!(
        proof.verify(smt.root_hash(), 30000, 10000, (k, Some(0))),
        Ok(true)
    );
    assert_eq!(
        proof.verify(smt.root_hash(), 30000, 10000, (k, None)),
        Ok(false)
    );
}

#[test]
fn proof_round_trip_over_updates() {
    // A proof made before an update holds for the roots before and after it.
    let mut smt = AccountBook::new_test();
    let mut seen: u8 = 120;
    for step in 0..5u128 {
        seen += 1;
        let k = SmtKey::Buyer(silentberry::hash::Hash([seen; 32]));
        let before = AccountBookProof::new(smt.compiled_proof(k));
        let root_before = smt.root_hash();
        let income = 30000 + 200 * step;
        let balance = 10000 + 200 * step;
        assert_eq!(before.verify(root_before, income, balance, (k, None)), Ok(true));
        smt.update(SmtKey::TotalIncome, income + 200);
        smt.update(SmtKey::AccountBalance, balance + 200);
        smt.update(k, 0);
        let root_after = smt.root_hash();
        assert_eq!(
            before.verify(root_after, income + 200, balance + 200, (k, Some(0))),
            Ok(true)
        );
        let after = AccountBookProof::new(smt.compiled_proof(k));
        assert_eq!(
            after.verify(root_after, income + 200, balance + 200, (k, Some(0))),
            Ok(true)
        );
        assert_eq!(
            after.verify(root_before, income + 200, balance + 200, (k, Some(0))),
            Ok(false)
        );
    }
}

#[test]
fn malformed_proof_is_an_smt_failure() {
    let smt = AccountBook::new_test();
    let k = SmtKey::Auther;
    let root = smt.root_hash();
    assert_eq!(
        AccountBookProof::new(vec![]).verify(root, 30000, 10000, (k, Some(122))),
        Err(SilentBerryError::Smt)
    );
    assert_eq!(
        AccountBookProof::new(vec![0x4C, 0x99]).verify(root, 30000, 10000, (k, Some(122))),
        Err(SilentBerryError::Smt)
    );
    let mut good = smt.compiled_proof(k);
    assert_eq!(
        AccountBookProof::new(good.clone()).verify(root, 30000, 10000, (k, Some(122))),
        Ok(true)
    );
    good.pop();
    assert!(AccountBookProof::new(good)
        .verify(root, 30000, 10000, (k, Some(122)))
        .is_err());
}

#[test]
fn initial_root_is_the_tree_of_zero_income_and_balance() {
    let smt = AccountBook::new_empty();
    assert_eq!(smt.root_hash().0, SMT_ROOT_HASH_INITIAL);
    let proof = AccountBookProof::new(smt.compiled_proof(SmtKey::Auther));
    assert_eq!(
        proof.verify(
            silentberry::hash::Hash(SMT_ROOT_HASH_INITIAL),
            0,
            0,
            (SmtKey::Auther, None)
        ),
        Ok(true)
    );
}

#[test]
fn keys_are_hashes_of_their_labels() {
    assert_eq!(
        SmtKey::AccountBalance.get_key().0,
        silentberry::hash::Hash::ckb_hash(b"AccountBalance").0
    );
    assert_eq!(
        SmtKey::TotalIncome.get_key().0,
        silentberry::hash::Hash::ckb_hash(b"TotalIncome").0
    );
    assert_eq!(
        SmtKey::Platform.get_key().0,
        silentberry::hash::Hash::ckb_hash(b"Platform").0
    );
    assert_eq!(
        SmtKey::Auther.get_key().0,
        silentberry::hash::Hash::ckb_hash(b"Auther").0
    );
    let id = silentberry::hash::Hash([7u8; 32]);
    assert_eq!(
        SmtKey::Buyer(id).get_key().0,
        silentberry::hash::Hash::ckb_hash(&[7u8; 32]).0
    );
    assert_ne!(SmtKey::Buyer(id).get_key().0, id.0);
}

#[test]
fn leaf_value_is_the_hash_of_the_amount() {
    assert_eq!(
        SmtValue::new(200).to_hash().0,
        silentberry::hash::Hash::ckb_hash(&200u128.to_le_bytes()).0
    );
    let node: [u8; 32] = SmtValue::new(200).to_h256().into();
    assert_eq!(node, SmtValue::new(200).to_hash().0);
    assert_eq!(SmtValue::zero().price, 0);
    assert_eq!(SmtValue::default().price, 0);
    assert_ne!(SmtValue::new(0).to_hash().0, [0u8; 32]);
    assert!(!SmtValue::zero().to_h256().is_zero());
}

#[test]
fn hash_matches_known_digest() {
    // blake2b-256 of the empty input under the personalisation "ckb-default-hash".
    let expected: [u8; 32] = [
        0x44, 0xf4, 0xc6, 0x97, 0x44, 0xd5, 0xf8, 0xc5, 0x5d, 0x64, 0x20, 0x62, 0x94, 0x9d, 0xca,
        0xe4, 0x9b, 0xc4, 0xe7, 0xef, 0x43, 0xd3, 0x88, 0xc5, 0xa1, 0x2f, 0x42, 0xb5, 0x63, 0x3d,
        0x16, 0x3e,
    ];
    assert_eq!(silentberry::hash::Hash::ckb_hash(&[]).0, expected);
    assert_eq!(
        silentberry::hash::CKB_HASH_PERSONALIZATION,
        *b"ckb-default-hash"
    );
}
