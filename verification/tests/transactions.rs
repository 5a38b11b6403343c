use silentberry::account_book::withdrawal::{entitlement, get_total_withdrawn};
use silentberry::account_book_proof::{SmtHasher, SmtKey, SmtValue};
use silentberry::error::SilentBerryError;
use silentberry::spore::SporeData;
use silentberry::tx::{Cell, Script, Transaction, Witness, WitnessArgs};
use silentberry::types::account_book::{AccountBookCellData, AccountBookData};
use silentberry::types::intent::{
    BuyIntentData, DobSellingData, WithdrawalBuyer, WithdrawalIntentData, WithdrawalSporeInfo,
};
use sparse_merkle_tree::default_store::DefaultStore;
use sparse_merkle_tree::{SparseMerkleTree, H256};
use std::collections::HashMap;

type H = silentberry::hash::Hash;

const DATA_ASSET_AMOUNT: u128 = 200;
const DATA_MIN_CAPACITY: u64 = 1000;

const ALWAYS_SUC_CODE: [u8; 32] = [0xA5; 32];
const XUDT_CODE: [u8; 32] = [0x0D; 32];
const SPORE_CODE: [u8; 32] = [0x50; 32];
const BUY_INTENT_CODE: [u8; 32] = [0xB1; 32];
const DOB_SELLING_CODE: [u8; 32] = [0xD0; 32];
const ACCOUNT_BOOK_CODE: [u8; 32] = [0xAB; 32];
const WITHDRAWAL_INTENT_CODE: [u8; 32] = [0xE1; 32];
const INPUT_TYPE_PROXY_LOCK_CODE: [u8; 32] = [0x10; 32];
const XUDT_OWNER_SCRIPT_HASH: [u8; 32] = [0xAA; 32];

fn hash_of(bytes: [u8; 32]) -> H {
    silentberry::hash::Hash(bytes)
}

fn ckb_hash(data: &[u8]) -> [u8; 32] {
    silentberry::hash::Hash::ckb_hash(data).0
}

// ---- the tree of balances -------------------------------------------------

type SMTTree = SparseMerkleTree<SmtHasher, SmtValue, DefaultStore<SmtValue>>;

fn key_of(key: &SmtKey) -> H256 {
    key.get_key().0.into()
}

#[derive(Default)]
struct AccountBook {
    tree: SMTTree,
    bk_items: HashMap<[u8; 32], u128>,
}

impl AccountBook {
    fn update(&mut self, key: SmtKey, value: u128) {
        self.bk_items.insert(key.get_key().0, value);
        self.tree
            .update(key_of(&key), SmtValue::new(value))
            .expect("Update SMT Failed");
    }
    fn root_hash(&self) -> H {
        let root: [u8; 32] = (*self.tree.root()).into();
        hash_of(root)
    }
    fn compiled_proof(&self, k: SmtKey) -> Vec<u8> {
        let ks: Vec<H256> = [SmtKey::TotalIncome, SmtKey::AccountBalance, k]
            .iter()
            .map(key_of)
            .collect();
        self.tree
            .merkle_proof(ks.clone())
            .unwrap()
            .compile(ks)
            .unwrap()
            .0
    }
    fn new_empty() -> Self {
        let mut smt: AccountBook = Default::default();
        smt.update(SmtKey::TotalIncome, 0);
        smt.update(SmtKey::AccountBalance, 0);
        smt
    }
    fn new_test() -> Self {
        let mut smt: AccountBook = Default::default();
        smt.update(SmtKey::TotalIncome, 30000);
        smt.update(SmtKey::AccountBalance, 10000);
        let mut c: u8 = 0;
        fn new_hash(count: &mut u8) -> H {
            *count += 1;
            silentberry::hash::Hash([*count; 32])
        }
        smt.update(SmtKey::Auther, 122);
        smt.update(SmtKey::Platform, 0);
        for _ in 0..100 {
            smt.update(SmtKey::Buyer(new_hash(&mut c)), 0);
        }
        smt.update(SmtKey::Buyer(new_hash(&mut 2)), 21313);
        smt.update(SmtKey::Buyer(new_hash(&mut 3)), 4324);
        smt.update(SmtKey::Buyer(new_hash(&mut 4)), 4444);
        smt.update(SmtKey::Buyer(new_hash(&mut 5)), 555);
        smt
    }
    fn get_item(&self, k: SmtKey) -> u128 {
        *self.bk_items.get(&k.get_key().0).unwrap()
    }
    fn get_total(&self) -> u128 {
        self.get_item(SmtKey::AccountBalance)
    }
    fn get_total_income(&self) -> u128 {
        self.get_item(SmtKey::TotalIncome)
    }
}

// ---- scripts and cells ----------------------------------------------------

fn build_script(code_hash: [u8; 32], args: &[u8]) -> Script {
    let mut preimage = code_hash.to_vec();
    preimage.push(1);
    preimage.extend_from_slice(args);
    Script {
        code_hash: hash_of(code_hash),
        hash_type: 1,
        args: args.to_vec(),
        hash: hash_of(ckb_hash(&preimage)),
    }
}

fn build_always_suc_script(args: &[u8]) -> Script {
    build_script(ALWAYS_SUC_CODE, args)
}

fn build_user1_script() -> Script {
    build_always_suc_script(&[1u8; 32])
}

fn build_xudt_script() -> Script {
    build_script(XUDT_CODE, &XUDT_OWNER_SCRIPT_HASH)
}

fn build_proxy_lock_script(account_book_script_hash: H) -> Script {
    build_script(INPUT_TYPE_PROXY_LOCK_CODE, &account_book_script_hash.0)
}

fn build_dob_selling_script(dob_selling_data: &DobSellingData) -> Script {
    build_script(DOB_SELLING_CODE, &ckb_hash(&dob_selling_data.as_bytes()))
}

fn build_buy_intent_script(args: &[u8]) -> Script {
    build_script(BUY_INTENT_CODE, args)
}

fn build_account_book_script(type_id: [u8; 32]) -> Script {
    build_script(ACCOUNT_BOOK_CODE, &type_id)
}

fn build_withdrawal_intent_script(
    data: &WithdrawalIntentData,
    account_book_script_hash: [u8; 32],
) -> Script {
    let hash = ckb_hash(&data.as_bytes());
    build_script(
        WITHDRAWAL_INTENT_CODE,
        &[account_book_script_hash, hash].concat(),
    )
}

fn build_spore_type_script(spore_id: [u8; 32]) -> Script {
    build_script(SPORE_CODE, &spore_id)
}

fn build_cell(capacity: u64, lock: Script, type_script: Option<Script>, data: Vec<u8>) -> Cell {
    let data_hash = hash_of(ckb_hash(&data));
    Cell {
        capacity,
        lock,
        type_script,
        data,
        data_hash,
        since: 0,
        witness: Witness::Absent,
    }
}

fn build_xudt_cell(lock: Script, amount: u128) -> Cell {
    build_cell(
        16,
        lock,
        Some(build_xudt_script()),
        amount.to_le_bytes().to_vec(),
    )
}

fn no_args() -> Witness {
    Witness::Args(WitnessArgs {
        lock: None,
        input_type: None,
        output_type: None,
    })
}

fn lock_witness(bytes: Vec<u8>) -> Witness {
    Witness::Args(WitnessArgs {
        lock: Some(bytes),
        input_type: None,
        output_type: None,
    })
}

fn input_type_witness(bytes: Vec<u8>) -> Witness {
    Witness::Args(WitnessArgs {
        lock: None,
        input_type: Some(bytes),
        output_type: None,
    })
}

fn output_type_witness(bytes: Vec<u8>) -> Witness {
    Witness::Args(WitnessArgs {
        lock: None,
        input_type: None,
        output_type: Some(bytes),
    })
}

/// A transaction under construction: the cells of both sides and the
/// payloads by position.
#[derive(Clone, Default)]
struct Tx {
    inputs: Vec<Cell>,
    outputs: Vec<Cell>,
    witnesses: Vec<Witness>,
}

impl Tx {
    fn input(mut self, cell: Cell) -> Self {
        self.inputs.push(cell);
        self
    }
    fn output(mut self, cell: Cell) -> Self {
        self.outputs.push(cell);
        self
    }
    fn witness(mut self, witness: Witness) -> Self {
        self.witnesses.push(witness);
        self
    }
    fn witness_at(&self, index: usize) -> Witness {
        self.witnesses.get(index).cloned().unwrap_or(Witness::Absent)
    }
    fn cells(&self) -> (Vec<Cell>, Vec<Cell>) {
        let mut inputs = self.inputs.clone();
        for (i, c) in inputs.iter_mut().enumerate() {
            c.witness = self.witness_at(i);
        }
        let mut outputs = self.outputs.clone();
        for (i, c) in outputs.iter_mut().enumerate() {
            c.witness = self.witness_at(i);
        }
        (inputs, outputs)
    }
    /// The transaction as the type script `script` sees it.
    fn as_type(&self, script: &Script) -> Transaction {
        let (inputs, outputs) = self.cells();
        let of_group = |c: &&Cell| {
            c.type_script
                .as_ref()
                .map(|t| t.hash.0 == script.hash.0)
                .unwrap_or(false)
        };
        Transaction {
            script: script.clone(),
            group_inputs: inputs.iter().filter(of_group).cloned().collect(),
            group_outputs: outputs.iter().filter(of_group).cloned().collect(),
            inputs,
            outputs,
        }
    }
    /// The transaction as the lock script `script` sees it.
    fn as_lock(&self, script: &Script) -> Transaction {
        let (inputs, outputs) = self.cells();
        Transaction {
            script: script.clone(),
            group_inputs: inputs
                .iter()
                .filter(|c| c.lock.hash.0 == script.hash.0)
                .cloned()
                .collect(),
            group_outputs: vec![],
            inputs,
            outputs,
        }
    }
    /// The verdict of every program of the protocol that the transaction
    /// runs, or the first failure.
    fn verify(&self) -> Result<(), SilentBerryError> {
        let mut seen: Vec<[u8; 32]> = vec![];
        let mut scripts: Vec<(Script, bool)> = vec![];
        for c in self.inputs.iter() {
            scripts.push((c.lock.clone(), true));
            if let Some(t) = &c.type_script {
                scripts.push((t.clone(), false));
            }
        }
        for c in self.outputs.iter() {
            if let Some(t) = &c.type_script {
                scripts.push((t.clone(), false));
            }
        }
        for (script, is_lock) in scripts {
            if seen.contains(&script.hash.0) {
                continue;
            }
            seen.push(script.hash.0);
            let code = script.code_hash.0;
            if is_lock {
                if code == DOB_SELLING_CODE {
                    silentberry::dob_selling::program_entry2(&self.as_lock(&script))?;
                }
            } else if code == ACCOUNT_BOOK_CODE {
                silentberry::account_book::program_entry2(&self.as_type(&script), Ok(()))?;
            } else if code == BUY_INTENT_CODE {
                silentberry::buy_intent::program_entry2(&self.as_type(&script))?;
            } else if code == WITHDRAWAL_INTENT_CODE {
                silentberry::withdrawal_intent::program_entry2(&self.as_type(&script))?;
            }
        }
        Ok(())
    }
}

// ---- default records ------------------------------------------------------

fn def_spore_lock() -> Script {
    build_always_suc_script(&[4; 32])
}

fn def_spore() -> SporeData {
    SporeData {
        content_type: "dob/1".as_bytes().to_vec(),
        content: "{\"dna\":\"4000000000002\"}".as_bytes().to_vec(),
        cluster_id: Some(vec![0x1C; 32]),
    }
}

fn get_cluster_id(d: &SporeData) -> [u8; 32] {
    d.cluster_id.clone().unwrap().try_into().unwrap()
}

fn def_dob_selling_data(spore_data: &SporeData) -> DobSellingData {
    DobSellingData {
        spore_code_hash: hash_of(SPORE_CODE),
        spore_data_hash: hash_of(ckb_hash(&spore_data.as_bytes())),
        buy_intent_code_hash: hash_of(BUY_INTENT_CODE),
        account_book_script_hash: hash_of([0u8; 32]),
        owner_script_hash: hash_of([0u8; 32]),
        spore_lock_script_hash: def_spore_lock().hash,
    }
}

fn def_buy_intent_data(dob_data: &DobSellingData) -> BuyIntentData {
    BuyIntentData {
        xudt_script_hash: build_xudt_script().hash,
        dob_selling_script_hash: build_dob_selling_script(dob_data).hash,
        price: DATA_ASSET_AMOUNT,
        min_capacity: DATA_MIN_CAPACITY,
        expire_since: 1000u64,
        owner_script_hash: hash_of([0u8; 32]),
    }
}

fn def_withdrawal_intent_data() -> WithdrawalIntentData {
    WithdrawalIntentData {
        xudt_script_hash: build_xudt_script().hash,
        xudt_lock_script_hash: hash_of([0u8; 32]),
        expire_since: 1000u64,
        owner_script_hash: hash_of([0u8; 32]),
        buyer: WithdrawalBuyer::Byte32(hash_of([0u8; 32])),
    }
}

fn def_account_book_cell_data() -> AccountBookCellData {
    AccountBookCellData {
        auther_id: hash_of([1u8; 32]),
        platform_id: hash_of([2u8; 32]),
        price: DATA_ASSET_AMOUNT,
        profit_distribution_ratio: vec![10, 20, 30, 40],
        profit_distribution_number: vec![7, 15],
        smt_root_hash: hash_of([0u8; 32]),
        buyer_count: 0,
    }
}

fn def_account_book_data() -> AccountBookData {
    AccountBookData {
        dob_selling_code_hash: hash_of(DOB_SELLING_CODE),
        buy_intent_code_hash: hash_of(BUY_INTENT_CODE),
        withdrawal_intent_code_hash: hash_of(WITHDRAWAL_INTENT_CODE),
        xudt_script_hash: build_xudt_script().hash,
        input_type_proxy_lock_code_hash: hash_of(INPUT_TYPE_PROXY_LOCK_CODE),
        cluster_id: hash_of([3u8; 32]),
        level: 0,
        proof: vec![],
        total_income_udt: 0,
        withdrawn_udt: None,
    }
}

// ---- the buy intent -------------------------------------------------------

fn simple_buy_intent(paid: u128, change: u128, capacity: u64) -> Tx {
    let lock_script = build_user1_script();
    let spore_data = def_spore();
    let dob_selling_data = def_dob_selling_data(&spore_data);
    let dob_selling = build_dob_selling_script(&dob_selling_data);
    let buy_intent_data = def_buy_intent_data(&dob_selling_data);
    let buy_intent_cell = build_cell(
        capacity,
        lock_script.clone(),
        Some(build_buy_intent_script(
            &[[0u8; 32], ckb_hash(&buy_intent_data.as_bytes())].concat(),
        )),
        vec![],
    );
    Tx::default()
        .input(build_xudt_cell(lock_script.clone(), 1000))
        .input(build_cell(1000, lock_script.clone(), None, vec![]))
        .output(build_xudt_cell(lock_script.clone(), change))
        .output(build_xudt_cell(dob_selling, paid))
        .output(buy_intent_cell)
        .witness(no_args())
        .witness(no_args())
        .witness(output_type_witness(buy_intent_data.as_bytes()))
}

#[test]
fn test_simple_buy_intent() {
    let tx = simple_buy_intent(DATA_ASSET_AMOUNT, 800, 1000);
    tx.verify().expect("pass");
}

#[test]
fn buy_intent_must_pay_the_price() {
    let tx = simple_buy_intent(199, 801, 1000);
    assert_eq!(tx.verify(), Err(SilentBerryError::CheckXUDT));
}

#[test]
fn buy_intent_must_conserve_the_token() {
    let tx = simple_buy_intent(DATA_ASSET_AMOUNT, 801, 1000);
    assert_eq!(tx.verify(), Err(SilentBerryError::CheckXUDT));
}

#[test]
fn buy_intent_capacity_is_capped() {
    let tx = simple_buy_intent(DATA_ASSET_AMOUNT, 800, 1001);
    assert_eq!(tx.verify(), Err(SilentBerryError::CapacityError));
}

#[test]
fn buy_intent_record_must_match_its_hash() {
    let mut tx = simple_buy_intent(DATA_ASSET_AMOUNT, 800, 1000);
    let mut other = def_buy_intent_data(&def_dob_selling_data(&def_spore()));
    other.price = 201;
    tx.witnesses[2] = output_type_witness(other.as_bytes());
    assert_eq!(tx.verify(), Err(SilentBerryError::VerifiedData));
    tx.witnesses[2] = output_type_witness(vec![1, 2, 3]);
    assert_eq!(tx.verify(), Err(SilentBerryError::MolVerification));
    tx.witnesses[2] = no_args();
    assert_eq!(tx.verify(), Err(SilentBerryError::ParseWitness));
    tx.witnesses.pop();
    assert_eq!(tx.verify(), Err(SilentBerryError::SysError));
}

#[test]
fn buy_intent_must_stand_on_one_side() {
    let tx = simple_buy_intent(DATA_ASSET_AMOUNT, 800, 1000);
    let intent = tx.outputs[2].clone();
    let both = tx.clone().input(intent.clone());
    assert_eq!(both.verify(), Err(SilentBerryError::TxStructure));
    let twice = tx.clone().output(intent);
    assert_eq!(twice.verify(), Err(SilentBerryError::TxStructure));
}

fn revocation_buy_intent(since: u64) -> Tx {
    let def_lock_script = build_always_suc_script(&[]);
    let spore_data = def_spore();
    let account_book_script_hash = [0u8; 32];

    let mut dob_selling_data = def_dob_selling_data(&spore_data);
    dob_selling_data.owner_script_hash = def_lock_script.hash;
    let dob_selling = build_dob_selling_script(&dob_selling_data);
    let dob_selling_udt = build_xudt_cell(dob_selling, DATA_ASSET_AMOUNT);

    let mut buy_intent_data = def_buy_intent_data(&dob_selling_data);
    buy_intent_data.owner_script_hash = def_lock_script.hash;
    let mut buy_intent_cell = build_cell(
        1000,
        def_lock_script.clone(),
        Some(build_buy_intent_script(
            &[
                account_book_script_hash,
                ckb_hash(&buy_intent_data.as_bytes()),
            ]
            .concat(),
        )),
        vec![],
    );
    buy_intent_cell.since = since;

    Tx::default()
        .input(dob_selling_udt)
        .output(build_xudt_cell(def_lock_script.clone(), DATA_ASSET_AMOUNT))
        .witness(lock_witness(dob_selling_data.as_bytes()))
        .input(buy_intent_cell)
        .output(build_cell(1000, def_lock_script.clone(), None, vec![]))
        .witness(input_type_witness(buy_intent_data.as_bytes()))
}

#[test]
fn test_revocation_buy_intent() {
    let tx = revocation_buy_intent(10000);
    tx.verify().expect("pass");
}

#[test]
fn buy_intent_cannot_be_revoked_before_expiry() {
    let tx = revocation_buy_intent(999);
    assert_eq!(tx.verify(), Err(SilentBerryError::ExpireSince));
    revocation_buy_intent(1000).verify().expect("pass at the threshold");
    // A relative elapsed time cannot be held against an absolute threshold.
    let relative = revocation_buy_intent(0x8000_0000_0000_0000 | 10000);
    assert_eq!(relative.verify(), Err(SilentBerryError::ExpireSince));
    // Before the expiry nothing else is looked at.
    let mut tx = revocation_buy_intent(999);
    tx.outputs[1].lock = build_user1_script();
    assert_eq!(tx.verify(), Err(SilentBerryError::ExpireSince));
}

#[test]
fn revoked_buy_intent_returns_to_its_owner() {
    let mut tx = revocation_buy_intent(10000);
    tx.outputs[1].lock = build_user1_script();
    assert_eq!(tx.verify(), Err(SilentBerryError::CheckScript));
    let mut tx = revocation_buy_intent(10000);
    tx.outputs[1].type_script = Some(build_always_suc_script(&[9]));
    assert_eq!(tx.verify(), Err(SilentBerryError::CheckScript));
    let mut tx = revocation_buy_intent(10000);
    tx.outputs.pop();
    assert_eq!(tx.verify(), Err(SilentBerryError::SysError));
}

#[test]
fn revoked_listing_allows_no_third_input() {
    let tx = revocation_buy_intent(10000)
        .input(build_xudt_cell(build_user1_script(), 0))
        .witness(no_args());
    assert_eq!(tx.verify(), Err(SilentBerryError::TxStructure));
}

#[test]
fn fulfilled_buy_intent_judges_every_input_by_its_type() {
    // Whether the account book is among the inputs is decided by the type
    // script of every input; one without a type script cannot be judged.
    let tx = revocation_buy_intent(10000);
    let mut untyped = tx.clone();
    untyped.inputs[0].type_script = None;
    let buy_intent = tx.inputs[1].type_script.clone().unwrap();
    assert_eq!(
        silentberry::buy_intent::program_entry2(&untyped.as_type(&buy_intent)),
        Err(SilentBerryError::CheckXUDT)
    );
    let mut untyped = tx.clone();
    untyped.inputs[0].type_script = None;
    untyped.outputs[0].type_script = None;
    assert_eq!(
        silentberry::buy_intent::program_entry2(&untyped.as_type(&buy_intent)),
        Err(SilentBerryError::Unknow)
    );
}

// ---- the account book: sale -----------------------------------------------

struct Sale {
    tx: Tx,
    account_book: Script,
}

fn simple_selling(
    old_buyer_count: u32,
    new_buyer_count: u32,
    new_balance: u128,
    already_bought: bool,
) -> Sale {
    let def_lock_script = build_always_suc_script(&[]);
    let account_book_type_id = [14u8; 32];
    let account_book_script = build_account_book_script(account_book_type_id);
    let lock_proxy_script = build_proxy_lock_script(account_book_script.hash);
    let spore_data = def_spore();
    let spore_id = [0xD5; 32];

    // The tree before and after the sale, and the proof for both.
    let mut smt = AccountBook::new_test();
    if already_bought {
        smt.update(SmtKey::Buyer(hash_of(spore_id)), 0);
    }
    let old_smt_hash = smt.root_hash();
    let account_balance = smt.get_total();
    let total_income = smt.get_total_income();
    smt.update(SmtKey::AccountBalance, account_balance + DATA_ASSET_AMOUNT);
    smt.update(SmtKey::TotalIncome, total_income + DATA_ASSET_AMOUNT);
    smt.update(SmtKey::Buyer(hash_of(spore_id)), 0);
    let new_smt_hash = smt.root_hash();
    let smt_proof = smt.compiled_proof(SmtKey::Buyer(hash_of(spore_id)));

    let mut account_book_data = def_account_book_data();
    account_book_data.level = 2;
    account_book_data.cluster_id = hash_of(get_cluster_id(&spore_data));
    account_book_data.proof = smt_proof;
    account_book_data.total_income_udt = total_income;

    let mut ab_cell_data = def_account_book_cell_data();
    ab_cell_data.buyer_count = old_buyer_count;
    ab_cell_data.smt_root_hash = old_smt_hash;
    let mut ab_cell_data_new = ab_cell_data.clone();
    ab_cell_data_new.buyer_count = new_buyer_count;
    ab_cell_data_new.smt_root_hash = new_smt_hash;

    let tx = Tx::default()
        .input(build_xudt_cell(lock_proxy_script.clone(), 10000))
        .input(build_cell(
            16,
            def_lock_script.clone(),
            Some(account_book_script.clone()),
            ab_cell_data.as_bytes(),
        ))
        .output(build_xudt_cell(lock_proxy_script, new_balance))
        .output(build_cell(
            16,
            def_lock_script.clone(),
            Some(account_book_script.clone()),
            ab_cell_data_new.as_bytes(),
        ))
        .witness(no_args())
        .witness(output_type_witness(account_book_data.as_bytes()));

    // The listing.
    let mut dob_selling_data = def_dob_selling_data(&spore_data);
    dob_selling_data.account_book_script_hash = account_book_script.hash;
    let dob_selling = build_dob_selling_script(&dob_selling_data);
    let tx = tx
        .input(build_xudt_cell(dob_selling, DATA_ASSET_AMOUNT))
        .output(build_cell(1000, def_lock_script.clone(), None, vec![]))
        .witness(lock_witness(dob_selling_data.as_bytes()));

    // The buy intent.
    let buy_intent_data = def_buy_intent_data(&dob_selling_data);
    let buy_intent_cell = build_cell(
        1000,
        def_lock_script.clone(),
        Some(build_buy_intent_script(
            &[
                account_book_script.hash.0,
                ckb_hash(&buy_intent_data.as_bytes()),
            ]
            .concat(),
        )),
        vec![],
    );
    let tx = tx
        .input(buy_intent_cell)
        .witness(input_type_witness(buy_intent_data.as_bytes()));

    // The digital object.
    let tx = tx.output(build_cell(
        1000,
        def_spore_lock(),
        Some(build_spore_type_script(spore_id)),
        spore_data.as_bytes(),
    ));

    Sale {
        tx,
        account_book: account_book_script,
    }
}

impl Sale {
    fn account_book_verdict(&self) -> Result<(), SilentBerryError> {
        silentberry::account_book::program_entry2(&self.tx.as_type(&self.account_book), Ok(()))
    }
    fn new_cell(&self) -> AccountBookCellData {
        AccountBookCellData::from_slice(&self.tx.outputs[1].data).unwrap()
    }
    fn set_new_cell(&mut self, cell: AccountBookCellData) {
        self.tx.outputs[1] = build_cell(
            16,
            self.tx.outputs[1].lock.clone(),
            self.tx.outputs[1].type_script.clone(),
            cell.as_bytes(),
        );
    }
    fn set_old_cell(&mut self, cell: AccountBookCellData) {
        self.tx.inputs[1] = build_cell(
            16,
            self.tx.inputs[1].lock.clone(),
            self.tx.inputs[1].type_script.clone(),
            cell.as_bytes(),
        );
    }
    fn witness(&self) -> AccountBookData {
        AccountBookData::from_slice(match &self.tx.witnesses[1] {
            Witness::Args(w) => w.output_type.as_ref().unwrap(),
            _ => unreachable!(),
        })
        .unwrap()
    }
    fn set_witness(&mut self, witness: AccountBookData) {
        self.tx.witnesses[1] = output_type_witness(witness.as_bytes());
    }
    /// Moves the ledger cell that is produced behind the next output, so
    /// that the ledger cells of the two sides stand at different positions
    /// and each has a witness of its own: `after` for the cell produced, the
    /// witness so far for the cell consumed.
    fn with_witness_after(mut self, after: AccountBookData) -> Self {
        self.tx.outputs.swap(1, 2);
        let listing = match &self.tx.witnesses[2] {
            Witness::Args(w) => w.lock.clone(),
            _ => unreachable!(),
        };
        self.tx.witnesses[2] = Witness::Args(WitnessArgs {
            lock: listing,
            input_type: None,
            output_type: Some(after.as_bytes()),
        });
        self
    }
}

#[test]
fn test_simple_selling() {
    let sale = simple_selling(15, 16, 10000 + DATA_ASSET_AMOUNT, false);
    sale.tx.verify().expect("pass");
    assert_eq!(
        silentberry::account_book::program_entry(&sale.tx.as_type(&sale.account_book), Ok(())),
        0
    );
}

#[test]
fn a_sale_adds_the_price_to_income_and_escrow() {
    // price 200, income 30000 and balance 10000 before: income 30200 and
    // balance 10200 after, the buyer's leaf from absent to 0, counter 15 to 16.
    assert_eq!(
        silentberry::account_book::selling::sale_amounts(200, 10000, 10200, 30000),
        Ok(30200)
    );
    let sale = simple_selling(15, 16, 10200, false);
    assert_eq!(sale.account_book_verdict(), Ok(()));
    // counter 15 to 17
    let sale = simple_selling(15, 17, 10200, false);
    assert_eq!(
        sale.account_book_verdict(),
        Err(SilentBerryError::AccountBookModified)
    );
    assert_eq!(
        silentberry::account_book::program_entry(&sale.tx.as_type(&sale.account_book), Ok(())),
        16
    );
    let sale = simple_selling(15, 15, 10200, false);
    assert_eq!(
        sale.account_book_verdict(),
        Err(SilentBerryError::AccountBookModified)
    );
    let sale = simple_selling(u32::MAX, 0, 10200, false);
    assert_eq!(
        sale.account_book_verdict(),
        Err(SilentBerryError::AccountBookModified)
    );
}

#[test]
fn sale_raises_the_escrow_by_exactly_the_price() {
    // The listing pays 200 into the transaction; an escrow that takes 199 and
    // leaves 1 elsewhere conserves the token but not the price.
    let mut sale = simple_selling(15, 16, 10199, false);
    sale.tx = sale
        .tx
        .output(build_xudt_cell(build_user1_script(), 1))
        .witness(no_args());
    assert_eq!(sale.account_book_verdict(), Err(SilentBerryError::CheckXUDT));
    // Without the extra cell the token itself is not conserved.
    let sale = simple_selling(15, 16, 10199, false);
    assert_eq!(sale.account_book_verdict(), Err(SilentBerryError::CheckXUDT));
    assert_eq!(
        silentberry::account_book::selling::sale_amounts(200, 10000, 10199, 30000),
        Err(SilentBerryError::CheckXUDT)
    );
    assert_eq!(
        silentberry::account_book::selling::sale_amounts(200, u128::MAX, 199, 30000),
        Err(SilentBerryError::CheckXUDT)
    );
    assert_eq!(
        silentberry::account_book::selling::sale_amounts(200, 10000, 10200, u128::MAX - 199),
        Err(SilentBerryError::AccountBookOverflow)
    );
}

#[test]
fn sale_is_a_first_purchase_only() {
    // The buyer's key already holds a value under the old root.
    let sale = simple_selling(15, 16, 10200, true);
    assert_eq!(sale.account_book_verdict(), Err(SilentBerryError::Smt));
}

#[test]
fn sale_changes_nothing_but_root_and_counter() {
    let mut sale = simple_selling(15, 16, 10200, false);
    let mut cell = sale.new_cell();
    cell.price = 201;
    sale.set_new_cell(cell);
    assert_eq!(
        sale.account_book_verdict(),
        Err(SilentBerryError::VerifiedData)
    );

    let mut sale = simple_selling(15, 16, 10200, false);
    let mut cell = sale.new_cell();
    cell.profit_distribution_ratio = vec![10, 20, 40, 30];
    sale.set_new_cell(cell);
    assert_eq!(
        sale.account_book_verdict(),
        Err(SilentBerryError::VerifiedData)
    );

    let mut sale = simple_selling(15, 16, 10200, false);
    let mut cell = sale.new_cell();
    cell.auther_id = hash_of([9; 32]);
    sale.set_new_cell(cell);
    assert_eq!(
        sale.account_book_verdict(),
        Err(SilentBerryError::VerifiedData)
    );

    let mut sale = simple_selling(15, 16, 10200, false);
    let mut cell = sale.new_cell();
    cell.platform_id = hash_of([9; 32]);
    sale.set_new_cell(cell);
    assert_eq!(
        sale.account_book_verdict(),
        Err(SilentBerryError::VerifiedData)
    );

    let mut sale = simple_selling(15, 16, 10200, false);
    let mut cell = sale.new_cell();
    cell.profit_distribution_number = vec![7, 16];
    sale.set_new_cell(cell);
    assert_eq!(
        sale.account_book_verdict(),
        Err(SilentBerryError::VerifiedData)
    );
}

#[test]
fn sale_changes_no_term_of_the_witness() {
    // The ledger cells of the two sides stand at different positions, each
    // with a witness of its own.
    let sale = simple_selling(15, 16, 10200, false);
    let witness = sale.witness();
    let apart = sale.with_witness_after(witness.clone());
    assert_eq!(apart.account_book_verdict(), Ok(()));
    apart.tx.verify().expect("pass");

    // What a transition updates may differ between the two witnesses.
    let sale = simple_selling(15, 16, 10200, false);
    let mut before = witness.clone();
    before.proof = vec![1, 2, 3];
    before.total_income_udt = 5;
    before.withdrawn_udt = Some(9);
    let mut apart = sale.with_witness_after(witness.clone());
    apart.set_witness(before);
    assert_eq!(apart.account_book_verdict(), Ok(()));

    let changes: Vec<fn(&mut AccountBookData)> = vec![
        |w| w.dob_selling_code_hash.0[0] ^= 1,
        |w| w.buy_intent_code_hash.0[1] ^= 1,
        |w| w.withdrawal_intent_code_hash.0[2] ^= 1,
        |w| w.xudt_script_hash.0[3] ^= 1,
        |w| w.input_type_proxy_lock_code_hash.0[4] ^= 1,
        |w| w.cluster_id.0[5] ^= 1,
        |w| w.level += 1,
    ];
    for change in changes {
        let sale = simple_selling(15, 16, 10200, false);
        let mut before = witness.clone();
        change(&mut before);
        let mut apart = sale.with_witness_after(witness.clone());
        apart.set_witness(before);
        assert_eq!(
            apart.account_book_verdict(),
            Err(SilentBerryError::AccountBookModified)
        );
    }

    // The ledger cell that is consumed has no witness.
    let sale = simple_selling(15, 16, 10200, false);
    let mut apart = sale.with_witness_after(witness.clone());
    apart.tx.witnesses[1] = no_args();
    assert_eq!(
        apart.account_book_verdict(),
        Err(SilentBerryError::ParseWitness)
    );
    apart.tx.witnesses[1] = output_type_witness(vec![7; 9]);
    assert_eq!(
        apart.account_book_verdict(),
        Err(SilentBerryError::MolVerification)
    );
}

#[test]
fn sale_needs_a_ledger_that_keeps_its_invariant() {
    let tables = |ratios: Vec<u8>, numbers: Vec<u8>| {
        let mut sale = simple_selling(15, 16, 10200, false);
        let mut old = AccountBookCellData::from_slice(&sale.tx.inputs[1].data).unwrap();
        let mut new = sale.new_cell();
        old.profit_distribution_ratio = ratios.clone();
        new.profit_distribution_ratio = ratios;
        old.profit_distribution_number = numbers.clone();
        new.profit_distribution_number = numbers;
        sale.set_old_cell(old);
        sale.set_new_cell(new);
        sale.account_book_verdict()
    };
    assert_eq!(tables(vec![10, 20, 30, 40], vec![7, 15]), Ok(()));
    assert_eq!(tables(vec![25, 25, 25, 25], vec![1, 1]), Ok(()));
    assert_eq!(tables(vec![0, 0, 0, 100], vec![0, 0]), Ok(()));
    assert_eq!(
        tables(vec![10, 20, 30, 39], vec![7, 15]),
        Err(SilentBerryError::AccountBook)
    );
    assert_eq!(
        tables(vec![10, 20, 30, 41], vec![7, 15]),
        Err(SilentBerryError::AccountBook)
    );
    assert_eq!(
        tables(vec![10, 20, 70], vec![7, 15]),
        Err(SilentBerryError::AccountBook)
    );
    assert_eq!(
        tables(vec![10, 20, 30, 40], vec![7]),
        Err(SilentBerryError::AccountBook)
    );
    assert_eq!(
        tables(vec![10, 20, 30, 40], vec![7, 15, 1]),
        Err(SilentBerryError::AccountBook)
    );
}

#[test]
fn sale_needs_the_roots_of_the_proof() {
    let mut sale = simple_selling(15, 16, 10200, false);
    let mut cell = sale.new_cell();
    cell.smt_root_hash = hash_of([9; 32]);
    sale.set_new_cell(cell);
    assert_eq!(sale.account_book_verdict(), Err(SilentBerryError::Smt));

    let mut sale = simple_selling(15, 16, 10200, false);
    let mut cell = AccountBookCellData::from_slice(&sale.tx.inputs[1].data).unwrap();
    cell.smt_root_hash = hash_of([9; 32]);
    sale.set_old_cell(cell);
    assert_eq!(sale.account_book_verdict(), Err(SilentBerryError::Smt));

    let mut sale = simple_selling(15, 16, 10200, false);
    let mut witness = sale.witness();
    witness.proof = vec![];
    sale.set_witness(witness);
    assert_eq!(sale.account_book_verdict(), Err(SilentBerryError::Smt));

    let mut sale = simple_selling(15, 16, 10200, false);
    let mut witness = sale.witness();
    witness.total_income_udt = 30001;
    sale.set_witness(witness);
    assert_eq!(sale.account_book_verdict(), Err(SilentBerryError::Smt));
}

#[test]
fn sale_checks_the_object_sold() {
    // another collection
    let mut sale = simple_selling(15, 16, 10200, false);
    let mut witness = sale.witness();
    witness.cluster_id = hash_of([3; 32]);
    sale.set_witness(witness);
    assert_eq!(
        sale.account_book_verdict(),
        Err(SilentBerryError::VerifiedData)
    );
    // another level
    let mut sale = simple_selling(15, 16, 10200, false);
    let mut old = AccountBookCellData::from_slice(&sale.tx.inputs[1].data).unwrap();
    let mut new = sale.new_cell();
    for cell in [&mut old, &mut new] {
        cell.profit_distribution_ratio = vec![10, 20, 30, 20, 20];
        cell.profit_distribution_number = vec![7, 15, 30];
    }
    sale.set_old_cell(old);
    sale.set_new_cell(new);
    let mut witness = sale.witness();
    witness.level = 3;
    sale.set_witness(witness);
    assert_eq!(sale.account_book_verdict(), Err(SilentBerryError::Spore));
    // no object among the outputs
    let mut sale = simple_selling(15, 16, 10200, false);
    sale.tx.outputs.pop();
    assert_eq!(sale.account_book_verdict(), Err(SilentBerryError::Spore));
    // an object without a collection
    let mut sale = simple_selling(15, 16, 10200, false);
    let mut spore = def_spore();
    spore.cluster_id = None;
    sale.tx.outputs[3].data = spore.as_bytes();
    assert_eq!(sale.account_book_verdict(), Err(SilentBerryError::Spore));
    // an object whose identity is no hash
    let mut sale = simple_selling(15, 16, 10200, false);
    sale.tx.outputs[3].type_script = Some(build_script(SPORE_CODE, &[1, 2, 3]));
    assert_eq!(
        sale.account_book_verdict(),
        Err(SilentBerryError::TypeConversion)
    );
}

#[test]
fn transition_needs_one_ledger_cell_on_each_side() {
    let sale = simple_selling(15, 16, 10200, false);
    let mut two = sale.tx.clone();
    two.outputs.push(sale.tx.outputs[1].clone());
    assert_eq!(
        silentberry::account_book::program_entry2(&two.as_type(&sale.account_book), Ok(())),
        Err(SilentBerryError::TxStructure)
    );
    let mut two = sale.tx.clone();
    two.inputs.push(sale.tx.inputs[1].clone());
    assert_eq!(
        silentberry::account_book::program_entry2(&two.as_type(&sale.account_book), Ok(())),
        Err(SilentBerryError::TxStructure)
    );
}

#[test]
fn transition_is_a_sale_or_a_withdrawal() {
    let sale = simple_selling(15, 16, 10200, false);
    let mut tx = sale.tx.clone();
    // Neither a listing nor a withdrawal intent among the inputs.
    tx.inputs[2].lock = build_user1_script();
    assert_eq!(
        silentberry::account_book::program_entry2(&tx.as_type(&sale.account_book), Ok(())),
        Err(SilentBerryError::CheckScript)
    );
}

#[test]
fn account_book_needs_the_type_id_rule() {
    let sale = simple_selling(15, 16, 10200, false);
    assert_eq!(
        silentberry::account_book::program_entry2(
            &sale.tx.as_type(&sale.account_book),
            Err(silentberry::error::SysError::TypeIDError)
        ),
        Err(SilentBerryError::SysError)
    );
    assert_eq!(
        silentberry::account_book::program_entry(
            &sale.tx.as_type(&sale.account_book),
            Err(silentberry::error::SysError::TypeIDError)
        ),
        2
    );
}

#[test]
fn escrow_must_be_the_only_one_of_this_account_book() {
    let sale = simple_selling(15, 16, 10200, false);
    // A second input locked by the escrow program.
    let other_book = hash_of([0x77; 32]);
    let tx = sale
        .tx
        .clone()
        .input(build_xudt_cell(build_proxy_lock_script(other_book), 5))
        .output(build_xudt_cell(build_user1_script(), 5))
        .witness(no_args());
    assert_eq!(
        silentberry::account_book::program_entry2(&tx.as_type(&sale.account_book), Ok(())),
        Err(SilentBerryError::TxStructure)
    );
    // Two outputs in escrow for this account book.
    let mut tx = sale.tx.clone();
    tx.outputs[0] = build_xudt_cell(build_proxy_lock_script(sale.account_book.hash), 10000);
    tx.outputs[2] = build_xudt_cell(build_proxy_lock_script(sale.account_book.hash), 200);
    assert_eq!(
        silentberry::account_book::program_entry2(&tx.as_type(&sale.account_book), Ok(())),
        Err(SilentBerryError::TxStructure)
    );
    // No output in escrow for this account book.
    let mut tx = sale.tx.clone();
    tx.outputs[0] = build_xudt_cell(build_proxy_lock_script(other_book), 10200);
    assert_eq!(
        silentberry::account_book::program_entry2(&tx.as_type(&sale.account_book), Ok(())),
        Err(SilentBerryError::TxStructure)
    );
    // An escrow whose argument is no hash.
    let mut tx = sale.tx.clone();
    tx.outputs[0] = build_xudt_cell(build_script(INPUT_TYPE_PROXY_LOCK_CODE, &[1, 2]), 10200);
    assert_eq!(
        silentberry::account_book::program_entry2(&tx.as_type(&sale.account_book), Ok(())),
        Err(SilentBerryError::TypeConversion)
    );
}

#[test]
fn listing_checks_the_object_and_its_partners() {
    let sale = simple_selling(15, 16, 10200, false);
    let listing = sale.tx.inputs[2].lock.clone();
    assert_eq!(
        silentberry::dob_selling::program_entry2(&sale.tx.as_lock(&listing)),
        Ok(())
    );
    assert_eq!(
        silentberry::dob_selling::program_entry(&sale.tx.as_lock(&listing)),
        0
    );
    // The content of the object changed.
    let mut tx = sale.tx.clone();
    tx.outputs[3].data_hash = hash_of([1; 32]);
    assert_eq!(
        silentberry::dob_selling::program_entry2(&tx.as_lock(&listing)),
        Err(SilentBerryError::CheckScript)
    );
    // Two objects among the outputs.
    let tx = sale.tx.clone().output(sale.tx.outputs[3].clone());
    assert_eq!(
        silentberry::dob_selling::program_entry2(&tx.as_lock(&listing)),
        Err(SilentBerryError::CheckScript)
    );
    // The account book is missing on one side.
    let mut tx = sale.tx.clone();
    tx.outputs[1].type_script = None;
    assert_eq!(
        silentberry::dob_selling::program_entry2(&tx.as_lock(&listing)),
        Err(SilentBerryError::CheckScript)
    );
    // No buy intent is consumed.
    let mut tx = sale.tx.clone();
    tx.inputs[3].type_script = Some(build_always_suc_script(&[]));
    assert_eq!(
        silentberry::dob_selling::program_entry2(&tx.as_lock(&listing)),
        Err(SilentBerryError::CheckScript)
    );
    // The record is not the one the script was made for.
    let mut tx = sale.tx.clone();
    let mut other = def_dob_selling_data(&def_spore());
    other.owner_script_hash = hash_of([8; 32]);
    tx.witnesses[2] = lock_witness(other.as_bytes());
    assert_eq!(
        silentberry::dob_selling::program_entry2(&tx.as_lock(&listing)),
        Err(SilentBerryError::VerifiedData)
    );
    tx.witnesses[2] = input_type_witness(other.as_bytes());
    assert_eq!(
        silentberry::dob_selling::program_entry2(&tx.as_lock(&listing)),
        Err(SilentBerryError::TxStructure)
    );
    tx.witnesses[2] = Witness::Malformed;
    assert_eq!(
        silentberry::dob_selling::program_entry2(&tx.as_lock(&listing)),
        Err(SilentBerryError::SysError)
    );
    assert_eq!(
        silentberry::dob_selling::program_entry(&tx.as_lock(&listing)),
        2
    );
}

#[test]
fn fulfilled_buy_intent_needs_the_account_book_at_its_price() {
    let sale = simple_selling(15, 16, 10200, false);
    let buy_intent = sale.tx.inputs[3].type_script.clone().unwrap();
    assert_eq!(
        silentberry::buy_intent::program_entry2(&sale.tx.as_type(&buy_intent)),
        Ok(())
    );
    assert_eq!(
        silentberry::buy_intent::program_entry(&sale.tx.as_type(&buy_intent)),
        0
    );
    // The ledger sells at another price.
    let mut other = Sale {
        tx: sale.tx.clone(),
        account_book: sale.account_book.clone(),
    };
    let mut cell = other.new_cell();
    cell.price = 201;
    other.set_new_cell(cell);
    assert_eq!(
        silentberry::buy_intent::program_entry2(&other.tx.as_type(&buy_intent)),
        Err(SilentBerryError::VerifiedData)
    );
    // The account book among the outputs holds no ledger cell.
    let mut tx = sale.tx.clone();
    tx.outputs[1].data = vec![0; 10];
    assert_eq!(
        silentberry::buy_intent::program_entry2(&tx.as_type(&buy_intent)),
        Err(SilentBerryError::MolVerification)
    );
    // The account book is not among the outputs.
    let mut tx = sale.tx.clone();
    tx.outputs[1].type_script = None;
    assert_eq!(
        silentberry::buy_intent::program_entry2(&tx.as_type(&buy_intent)),
        Err(SilentBerryError::CheckScript)
    );
    // Two account books among the inputs.
    let tx = sale
        .tx
        .clone()
        .input(sale.tx.inputs[1].clone())
        .witness(no_args());
    assert_eq!(
        silentberry::buy_intent::program_entry2(&tx.as_type(&buy_intent)),
        Err(SilentBerryError::CheckScript)
    );
    assert_eq!(
        silentberry::buy_intent::program_entry(&tx.as_type(&buy_intent)),
        9
    );
}

// ---- the withdrawal intent ------------------------------------------------

fn simple_withdrawal_intent(stated_level: u8) -> (Tx, Script) {
    let def_lock_script = build_always_suc_script(&[]);
    let spore_data = def_spore();
    let spore_id = [0x5E; 32];
    let spore_type = build_spore_type_script(spore_id);

    let withdrawal_spore_info = WithdrawalSporeInfo {
        spore_code_hash: hash_of(SPORE_CODE),
        spore_level: stated_level,
        spore_id: hash_of(spore_id),
        cluster_id: hash_of(get_cluster_id(&spore_data)),
    };
    let mut withdrawal_intent_data = def_withdrawal_intent_data();
    withdrawal_intent_data.buyer = WithdrawalBuyer::WithdrawalSporeInfo(withdrawal_spore_info);
    let withdrawal_intent_script =
        build_withdrawal_intent_script(&withdrawal_intent_data, [0u8; 32]);

    let tx = Tx::default()
        .input(build_cell(
            1000,
            def_spore_lock(),
            Some(spore_type.clone()),
            spore_data.as_bytes(),
        ))
        .output(build_cell(
            1000,
            def_spore_lock(),
            Some(spore_type),
            spore_data.as_bytes(),
        ))
        .witness(no_args())
        .input(build_cell(1000, def_lock_script.clone(), None, vec![]))
        .output(build_cell(
            1000,
            def_lock_script,
            Some(withdrawal_intent_script.clone()),
            vec![],
        ))
        .witness(output_type_witness(withdrawal_intent_data.as_bytes()));
    (tx, withdrawal_intent_script)
}

#[test]
fn test_simple_withdrawal_intent() {
    let (tx, script) = simple_withdrawal_intent(2);
    tx.verify().expect("pass");
    assert_eq!(
        silentberry::withdrawal_intent::program_entry(&tx.as_type(&script)),
        0
    );
}

#[test]
fn withdrawal_intent_proves_the_stated_object() {
    let (tx, _) = simple_withdrawal_intent(1);
    assert_eq!(tx.verify(), Err(SilentBerryError::Spore));
    // The object changes in the transaction.
    let (mut tx, _) = simple_withdrawal_intent(2);
    let mut spore = def_spore();
    spore.content = "{\"dna\":\"4000000000003\"}".as_bytes().to_vec();
    tx.outputs[0].data = spore.as_bytes();
    assert_eq!(tx.verify(), Err(SilentBerryError::Spore));
    // The object is not among the inputs.
    let (mut tx, _) = simple_withdrawal_intent(2);
    tx.inputs[0].type_script = Some(build_always_suc_script(&[]));
    assert_eq!(tx.verify(), Err(SilentBerryError::TxStructure));
    // The object is not first among the inputs.
    let (mut tx, _) = simple_withdrawal_intent(2);
    tx.inputs.swap(0, 1);
    assert_eq!(tx.verify(), Err(SilentBerryError::Spore));
    // The data is no content record.
    let (mut tx, _) = simple_withdrawal_intent(2);
    tx.inputs[0].data = vec![1, 2, 3];
    tx.outputs[0].data = vec![1, 2, 3];
    assert_eq!(tx.verify(), Err(SilentBerryError::MolVerification));
    // The object belongs to no collection.
    let (mut tx, _) = simple_withdrawal_intent(2);
    let mut spore = def_spore();
    spore.cluster_id = None;
    tx.inputs[0].data = spore.as_bytes();
    tx.outputs[0].data = spore.as_bytes();
    assert_eq!(tx.verify(), Err(SilentBerryError::TypeConversion));
    // The object belongs to another collection.
    let (mut tx, _) = simple_withdrawal_intent(2);
    let mut spore = def_spore();
    spore.cluster_id = Some(vec![0x1D; 32]);
    tx.inputs[0].data = spore.as_bytes();
    tx.outputs[0].data = spore.as_bytes();
    assert_eq!(tx.verify(), Err(SilentBerryError::Spore));
}

#[test]
fn withdrawal_intent_of_a_party_needs_its_lock_on_both_sides() {
    let party = build_always_suc_script(&[0x21; 4]);
    let mut data = def_withdrawal_intent_data();
    data.buyer = WithdrawalBuyer::Byte32(party.hash);
    let script = build_withdrawal_intent_script(&data, [0u8; 32]);
    let tx = Tx::default()
        .input(build_cell(1000, party.clone(), None, vec![]))
        .output(build_cell(1000, party.clone(), Some(script.clone()), vec![]))
        .witness(output_type_witness(data.as_bytes()));
    assert_eq!(tx.verify(), Ok(()));
    let mut other = tx.clone();
    other.inputs[0].lock = build_user1_script();
    assert_eq!(other.verify(), Err(SilentBerryError::CheckScript));
    let mut other = tx.clone();
    other.outputs[0].lock = build_user1_script();
    assert_eq!(other.verify(), Err(SilentBerryError::CheckScript));
    let mut other = tx.clone();
    other.witnesses[0] = no_args();
    assert_eq!(other.verify(), Err(SilentBerryError::Unknow));
    assert_eq!(
        silentberry::withdrawal_intent::program_entry(&other.as_type(&script)),
        1
    );
}

fn revocation_withdrawal(since: u64) -> Tx {
    let def_lock1 = build_always_suc_script(&[1, 1, 1]);
    let def_lock2 = build_always_suc_script(&[2, 1, 1]);
    let mut withdrawal_data = def_withdrawal_intent_data();
    withdrawal_data.expire_since = 2000u64;
    withdrawal_data.owner_script_hash = def_lock2.hash;
    let withdrawal_script = build_withdrawal_intent_script(&withdrawal_data, [0u8; 32]);

    let mut withdrawal_cell = build_cell(1000u64, def_lock1, Some(withdrawal_script), vec![]);
    withdrawal_cell.since = since;
    let output_cell = build_cell(900u64, def_lock2, None, vec![]);

    Tx::default()
        .input(withdrawal_cell)
        .output(output_cell)
        .witness(input_type_witness(withdrawal_data.as_bytes()))
}

#[test]
fn test_revocation_withdrawal() {
    let tx = revocation_withdrawal(2001u64);
    tx.verify().expect("pass");
}

#[test]
fn withdrawal_intent_cannot_be_revoked_before_expiry() {
    assert_eq!(
        revocation_withdrawal(1999).verify(),
        Err(SilentBerryError::ExpireSince)
    );
    assert_eq!(revocation_withdrawal(2000).verify(), Ok(()));
    // An elapsed time in seconds cannot be held against a block number.
    assert_eq!(
        revocation_withdrawal(0x4000_0000_0000_0000 | 5000).verify(),
        Err(SilentBerryError::ExpireSince)
    );
    // A number of seconds that does not fit 64 bits in milliseconds.
    assert_eq!(
        revocation_withdrawal(0x4000_0000_0000_0000 | 0x00ff_ffff_ffff_ffff).verify(),
        Err(SilentBerryError::ExpireSince)
    );
    let mut tx = revocation_withdrawal(2001);
    tx.outputs[0].type_script = Some(build_always_suc_script(&[]));
    assert_eq!(tx.verify(), Err(SilentBerryError::CheckScript));
    let mut tx = revocation_withdrawal(2001);
    tx.outputs[0].lock = build_user1_script();
    assert_eq!(tx.verify(), Err(SilentBerryError::CheckScript));
}

// ---- the account book: withdrawal -----------------------------------------

#[derive(Clone, Copy)]
enum Party {
    /// The holder of a digital object of this tier.
    Buyer(u8),
    Author,
    Platform,
    /// A party known by this script hash that is neither author nor platform.
    Other([u8; 32]),
}

#[derive(Clone, Copy)]
struct WithdrawalCase {
    ratios: [u8; 4],
    total_income: u128,
    old_total_udt: u128,
    party: Party,
    old_total_withdrawal: Option<u128>,
    /// The party's leaf after the withdrawal.
    new_leaf: u128,
    /// What leaves the escrow for the owner.
    paid: u128,
}

fn buyer_case(old_total_withdrawal: Option<u128>, new_leaf: u128, paid: u128) -> WithdrawalCase {
    WithdrawalCase {
        ratios: [20, 30, 30, 20],
        total_income: 300000,
        old_total_udt: 10000,
        party: Party::Buyer(1),
        old_total_withdrawal,
        new_leaf,
        paid,
    }
}

struct Withdrawal {
    tx: Tx,
    account_book: Script,
    withdrawal_intent: Script,
}

const AUTHER_ID: [u8; 32] = [1u8; 32];
const PLATFORM_ID: [u8; 32] = [2u8; 32];

fn simple_withdrawal(case: WithdrawalCase) -> Withdrawal {
    let def_lock_script = build_always_suc_script(&[0x11; 32]);
    let out_xudt_lock_script = build_always_suc_script(&[1, 2, 3, 4]);

    // A buyer that has a leaf in the tree, or one that has none yet.
    let spore_id: H = if case.old_total_withdrawal.is_some() {
        hash_of([0x1B; 32])
    } else {
        hash_of([0xDB; 32])
    };
    let cluster_id: H = hash_of([0x1A; 32]);
    let buyers = [7, 15];
    let smt_key = match case.party {
        Party::Buyer(_) => SmtKey::Buyer(spore_id),
        Party::Author | Party::Other(_) => SmtKey::Auther,
        Party::Platform => SmtKey::Platform,
    };
    let new_total_udt = case.old_total_udt - case.paid;

    let mut smt = match case.party {
        Party::Buyer(_) => AccountBook::new_test(),
        _ => AccountBook::new_empty(),
    };
    if case.old_total_withdrawal.is_some() {
        smt.update(smt_key, *(case.old_total_withdrawal.as_ref().unwrap()));
    }
    smt.update(SmtKey::TotalIncome, case.total_income);
    smt.update(SmtKey::AccountBalance, case.old_total_udt);
    let old_hash = smt.root_hash();
    let proof = smt.compiled_proof(smt_key);

    smt.update(SmtKey::AccountBalance, new_total_udt);
    smt.update(smt_key, case.new_leaf);
    let new_hash = smt.root_hash();

    let mut account_book_cell_data = def_account_book_cell_data();
    account_book_cell_data.profit_distribution_ratio = case.ratios.to_vec();
    account_book_cell_data.profit_distribution_number = buyers.to_vec();
    account_book_cell_data.smt_root_hash = old_hash;
    let account_book_data = AccountBookData {
        level: 2,
        cluster_id,
        total_income_udt: case.total_income,
        proof,
        withdrawn_udt: case.old_total_withdrawal,
        ..def_account_book_data()
    };

    let account_book_script = build_account_book_script([0x2A; 32]);
    let proxy_lock_script = build_proxy_lock_script(account_book_script.hash);

    let tx = Tx::default()
        .input(build_xudt_cell(proxy_lock_script.clone(), case.old_total_udt))
        .output(build_xudt_cell(proxy_lock_script, new_total_udt))
        .witness(no_args());

    let mut new_cell_data = account_book_cell_data.clone();
    new_cell_data.smt_root_hash = new_hash;
    let tx = tx
        .input(build_cell(
            1000,
            def_lock_script.clone(),
            Some(account_book_script.clone()),
            account_book_cell_data.as_bytes(),
        ))
        .output(build_cell(
            1000,
            def_lock_script.clone(),
            Some(account_book_script.clone()),
            new_cell_data.as_bytes(),
        ))
        .witness(output_type_witness(account_book_data.as_bytes()));

    let mut withdrawal_intent_data = def_withdrawal_intent_data();
    withdrawal_intent_data.owner_script_hash = out_xudt_lock_script.hash;
    withdrawal_intent_data.xudt_lock_script_hash = out_xudt_lock_script.hash;
    withdrawal_intent_data.buyer = match case.party {
        Party::Buyer(spore_level) => WithdrawalBuyer::WithdrawalSporeInfo(WithdrawalSporeInfo {
            spore_code_hash: hash_of(SPORE_CODE),
            spore_id,
            spore_level,
            cluster_id,
        }),
        Party::Author => WithdrawalBuyer::Byte32(hash_of(AUTHER_ID)),
        Party::Platform => WithdrawalBuyer::Byte32(hash_of(PLATFORM_ID)),
        Party::Other(id) => WithdrawalBuyer::Byte32(hash_of(id)),
    };
    let withdrawal_intent_script =
        build_withdrawal_intent_script(&withdrawal_intent_data, account_book_script.hash.0);

    let tx = tx
        .input(build_cell(
            16,
            def_lock_script,
            Some(withdrawal_intent_script.clone()),
            vec![],
        ))
        .output(build_xudt_cell(out_xudt_lock_script, case.paid))
        .witness(input_type_witness(withdrawal_intent_data.as_bytes()));

    Withdrawal {
        tx,
        account_book: account_book_script,
        withdrawal_intent: withdrawal_intent_script,
    }
}

impl Withdrawal {
    fn account_book_verdict(&self) -> Result<(), SilentBerryError> {
        silentberry::account_book::program_entry2(&self.tx.as_type(&self.account_book), Ok(()))
    }
    fn witness(&self) -> AccountBookData {
        AccountBookData::from_slice(match &self.tx.witnesses[1] {
            Witness::Args(w) => w.output_type.as_ref().unwrap(),
            _ => unreachable!(),
        })
        .unwrap()
    }
}

fn verdict_of(case: WithdrawalCase) -> Result<(), SilentBerryError> {
    simple_withdrawal(case).account_book_verdict()
}

#[test]
fn test_simple_withdrawal_suc() {
    let ratios = [20, 30, 30, 20];
    let buyers = [7, 15];
    let spore_level = 1;
    let total_income = 300000u128;
    let old_total_udt = 10000u128;
    let old_total_withdrawal = Some(10u128);

    let new_total_withdrawal: u128 = old_total_withdrawal.unwrap_or(0)
        + total_income * ratios[spore_level + 2] as u128 / 100 / buyers[spore_level] as u128;
    let withdrawal_udt = new_total_withdrawal - old_total_withdrawal.unwrap_or(0);

    let withdrawal = simple_withdrawal(WithdrawalCase {
        ratios,
        total_income,
        old_total_udt,
        party: Party::Buyer(spore_level as u8),
        old_total_withdrawal,
        new_leaf: new_total_withdrawal,
        paid: withdrawal_udt,
    });
    withdrawal.tx.verify().expect("pass");
    assert_eq!(
        silentberry::account_book::program_entry(
            &withdrawal.tx.as_type(&withdrawal.account_book),
            Ok(())
        ),
        0
    );
    assert_eq!(
        silentberry::withdrawal_intent::program_entry2(
            &withdrawal.tx.as_type(&withdrawal.withdrawal_intent)
        ),
        Ok(())
    );
}

#[test]
fn a_withdrawal_pays_out_the_entitlement() {
    // income 300000, ratios [20, 30, 30, 20], divisors [7, 15], tier 1:
    // the entitlement is floor(floor(300000 * 20 / 100) / 15) = 4000.
    assert_eq!(
        silentberry::account_book::withdrawal::entitlement(300000, 20, 15),
        Ok(4000)
    );
    // With 10 withdrawn before, the withdrawn total becomes 10 + 4000 = 4010
    // and the escrow drops by exactly 4000.
    assert_eq!(verdict_of(buyer_case(Some(10), 4010, 4000)), Ok(()));
    // The escrow drops by 3999.
    assert_eq!(
        verdict_of(buyer_case(Some(10), 4010, 3999)),
        Err(SilentBerryError::AccountBook)
    );
    assert_eq!(
        verdict_of(buyer_case(Some(10), 4009, 3999)),
        Err(SilentBerryError::AccountBook)
    );
    assert_eq!(
        verdict_of(buyer_case(Some(10), 4010, 4001)),
        Err(SilentBerryError::AccountBook)
    );
    // The party's leaf must grow by what left the escrow.
    assert_eq!(
        verdict_of(buyer_case(Some(10), 4000, 4000)),
        Err(SilentBerryError::AccountBook)
    );
    assert_eq!(
        verdict_of(buyer_case(Some(10), 4000, 3990)),
        Err(SilentBerryError::AccountBook)
    );
    // The first time the party's leaf is absent, or holds nothing.
    assert_eq!(verdict_of(buyer_case(None, 4000, 4000)), Ok(()));
    assert_eq!(verdict_of(buyer_case(Some(0), 4000, 4000)), Ok(()));
    assert_eq!(
        verdict_of(buyer_case(None, 4000, 3999)),
        Err(SilentBerryError::AccountBook)
    );
    assert_eq!(
        verdict_of(buyer_case(None, 3999, 3999)),
        Err(SilentBerryError::AccountBook)
    );
}

#[test]
fn entitlement_is_rounded_down_twice() {
    assert_eq!(entitlement(0, 20, 15), Ok(0));
    assert_eq!(entitlement(99, 1, 1), Ok(0));
    assert_eq!(entitlement(100, 1, 1), Ok(1));
    assert_eq!(entitlement(1000, 33, 7), Ok(47));
    assert_eq!(entitlement(1999, 50, 10), Ok(99));
    assert_eq!(entitlement(300000, 30, 7), Ok(12857));
    assert_eq!(entitlement(300000, 0, 7), Ok(0));
    assert_eq!(entitlement(u128::MAX / 255, 255, 1), Ok(u128::MAX / 255 * 255 / 100));
    assert_eq!(
        entitlement(u128::MAX / 255 + 1, 255, 1),
        Err(SilentBerryError::AccountBookOverflow)
    );
    assert_eq!(
        entitlement(u128::MAX, 2, 1),
        Err(SilentBerryError::AccountBookOverflow)
    );
    assert_eq!(entitlement(u128::MAX, 1, 1), Ok(u128::MAX / 100));
    assert_eq!(
        entitlement(300000, 20, 0),
        Err(SilentBerryError::AccountBookOverflow)
    );
}

#[test]
fn withdrawal_needs_ratios_that_add_up_to_100() {
    let mut case = buyer_case(Some(10), 3810, 3800);
    case.ratios = [20, 30, 30, 19];
    assert_eq!(verdict_of(case), Err(SilentBerryError::AccountBook));
    let mut case = buyer_case(Some(10), 4210, 4200);
    case.ratios = [20, 30, 30, 21];
    assert_eq!(verdict_of(case), Err(SilentBerryError::AccountBook));
    case.ratios = [20, 30, 29, 21];
    assert_eq!(verdict_of(case), Ok(()));
}

#[test]
fn withdrawal_needs_the_proof_for_what_was_withdrawn_before() {
    // The witness states another amount as withdrawn before: the amounts
    // balance, the proof against the old root does not hold.
    let mut withdrawal = simple_withdrawal(buyer_case(Some(10), 4010, 4000));
    let mut witness = withdrawal.witness();
    witness.withdrawn_udt = Some(0);
    withdrawal.tx.witnesses[1] = output_type_witness(witness.as_bytes());
    assert_eq!(
        withdrawal.account_book_verdict(),
        Err(SilentBerryError::AccountBook)
    );
    // The ledger cell commits to another tree.
    let mut withdrawal = simple_withdrawal(buyer_case(None, 4000, 4000));
    let mut old = AccountBookCellData::from_slice(&withdrawal.tx.inputs[1].data).unwrap();
    old.smt_root_hash = AccountBook::new_test().root_hash();
    withdrawal.tx.inputs[1].data = old.as_bytes();
    assert_eq!(
        withdrawal.account_book_verdict(),
        Err(SilentBerryError::AccountBook)
    );
    let mut withdrawal = simple_withdrawal(buyer_case(None, 4000, 4000));
    let mut new = AccountBookCellData::from_slice(&withdrawal.tx.outputs[1].data).unwrap();
    new.smt_root_hash = AccountBook::new_test().root_hash();
    withdrawal.tx.outputs[1].data = new.as_bytes();
    assert_eq!(
        withdrawal.account_book_verdict(),
        Err(SilentBerryError::AccountBook)
    );
    // A malformed proof is a failure of the proof itself.
    let mut withdrawal = simple_withdrawal(buyer_case(None, 4000, 4000));
    let mut witness = withdrawal.witness();
    witness.proof = vec![0x4C];
    withdrawal.tx.witnesses[1] = output_type_witness(witness.as_bytes());
    assert_eq!(withdrawal.account_book_verdict(), Err(SilentBerryError::Smt));
}

#[test]
fn withdrawn_total_must_fit() {
    let mut case = buyer_case(Some(u128::MAX - 3999), 0, 4000);
    case.new_leaf = u128::MAX;
    assert_eq!(
        verdict_of(buyer_case(Some(u128::MAX - 4000), u128::MAX, 4000)),
        Ok(())
    );
    assert_eq!(verdict_of(case), Err(SilentBerryError::AccountBookOverflow));
}

#[test]
fn withdrawal_keeps_the_buyer_counter() {
    let mut withdrawal = simple_withdrawal(buyer_case(None, 4000, 4000));
    let mut new = AccountBookCellData::from_slice(&withdrawal.tx.outputs[1].data).unwrap();
    new.buyer_count = 1;
    withdrawal.tx.outputs[1].data = new.as_bytes();
    assert_eq!(
        withdrawal.account_book_verdict(),
        Err(SilentBerryError::AccountBookModified)
    );
}

#[test]
fn withdrawal_pays_the_owner_named_by_the_intent() {
    let mut withdrawal = simple_withdrawal(buyer_case(None, 4000, 4000));
    withdrawal.tx.outputs[2].lock = build_user1_script();
    assert_eq!(
        withdrawal.account_book_verdict(),
        Err(SilentBerryError::TxStructure)
    );
    assert_eq!(
        silentberry::withdrawal_intent::program_entry2(
            &withdrawal.tx.as_type(&withdrawal.withdrawal_intent)
        ),
        Err(SilentBerryError::TxStructure)
    );
    // An account book on one side only.
    let mut withdrawal = simple_withdrawal(buyer_case(None, 4000, 4000));
    withdrawal.tx.outputs[1].type_script = None;
    assert_eq!(
        silentberry::withdrawal_intent::program_entry2(
            &withdrawal.tx.as_type(&withdrawal.withdrawal_intent)
        ),
        Err(SilentBerryError::TxStructure)
    );
    // The withdrawal intent holds no record.
    let mut withdrawal = simple_withdrawal(buyer_case(None, 4000, 4000));
    withdrawal.tx.witnesses[2] = input_type_witness(vec![0; 3]);
    assert_eq!(
        withdrawal.account_book_verdict(),
        Err(SilentBerryError::MolVerification)
    );
    withdrawal.tx.witnesses[2] = no_args();
    assert_eq!(
        withdrawal.account_book_verdict(),
        Err(SilentBerryError::Unknow)
    );
}

#[test]
fn author_and_platform_withdraw_their_ratio() {
    // The platform has the first ratio, the author the second, undivided.
    let platform = WithdrawalCase {
        ratios: [20, 30, 30, 20],
        total_income: 30000,
        old_total_udt: 10000,
        party: Party::Platform,
        old_total_withdrawal: None,
        new_leaf: 6000,
        paid: 6000,
    };
    assert_eq!(verdict_of(platform), Ok(()));
    let author = WithdrawalCase {
        party: Party::Author,
        new_leaf: 9000,
        paid: 9000,
        ..platform
    };
    assert_eq!(verdict_of(author), Ok(()));
    // The author cannot take the platform's share, nor the platform the
    // author's.
    let author = WithdrawalCase {
        party: Party::Author,
        ..platform
    };
    assert_eq!(verdict_of(author), Err(SilentBerryError::AccountBook));
    let platform = WithdrawalCase {
        party: Party::Platform,
        new_leaf: 9000,
        paid: 9000,
        ..platform
    };
    assert_eq!(verdict_of(platform), Err(SilentBerryError::AccountBook));
    // A party that is neither.
    let stranger = WithdrawalCase {
        party: Party::Other([9u8; 32]),
        ..platform
    };
    assert_eq!(verdict_of(stranger), Err(SilentBerryError::AccountBook));
    // More than the escrow holds cannot balance.
    let greedy = WithdrawalCase {
        total_income: 300000,
        party: Party::Author,
        new_leaf: 90000,
        paid: 10000,
        ..platform
    };
    assert_eq!(verdict_of(greedy), Err(SilentBerryError::AccountBook));
}

#[test]
fn buyer_share_needs_a_divisor_per_tier() {
    // level 2, tier 0: the divisor table must have two entries, though the
    // buyer's own divisor is the first.
    let case = WithdrawalCase {
        party: Party::Buyer(0),
        old_total_udt: 20000,
        ..buyer_case(None, 12857, 12857)
    };
    let withdrawal = simple_withdrawal(case);
    let view = withdrawal.tx.as_type(&withdrawal.account_book);
    let witness = withdrawal.witness();
    let cell = AccountBookCellData::from_slice(&withdrawal.tx.outputs[1].data).unwrap();
    let total = |numbers: Vec<u8>| {
        let mut cell = cell.clone();
        cell.profit_distribution_number = numbers;
        get_total_withdrawn(&view, &cell, &witness).map(|(total, key)| (total, key.get_key().0))
    };
    let key = SmtKey::Buyer(hash_of([0xDB; 32])).get_key().0;
    assert_eq!(total(vec![7, 15]), Ok((12857, key)));
    assert_eq!(total(vec![7, 1]), Ok((12857, key)));
    assert_eq!(total(vec![7]), Err(SilentBerryError::AccountBook));
    assert_eq!(total(vec![7, 15, 1]), Err(SilentBerryError::AccountBook));
    assert_eq!(total(vec![]), Err(SilentBerryError::AccountBook));
    assert_eq!(total(vec![0, 15]), Err(SilentBerryError::AccountBookOverflow));
    // The ratio table must fit as well.
    let mut short = cell.clone();
    short.profit_distribution_ratio = vec![50, 50];
    assert_eq!(
        get_total_withdrawn(&view, &short, &witness).map(|t| t.0),
        Err(SilentBerryError::AccountBook)
    );
    let mut off = cell.clone();
    off.profit_distribution_ratio = vec![20, 30, 30, 21];
    assert_eq!(
        get_total_withdrawn(&view, &off, &witness).map(|t| t.0),
        Err(SilentBerryError::AccountBook)
    );
    // What was withdrawn before is added to the entitlement.
    let mut again = withdrawal.witness();
    again.withdrawn_udt = Some(10);
    assert_eq!(
        get_total_withdrawn(&view, &cell, &again).map(|t| t.0),
        Ok(12867)
    );
}

#[test]
fn buyer_share_goes_by_its_tier() {
    // tier 0: ratio 30, split among 7
    let tier0 = WithdrawalCase {
        party: Party::Buyer(0),
        ..buyer_case(None, 12857, 12857)
    };
    let tier0 = WithdrawalCase {
        old_total_udt: 20000,
        ..tier0
    };
    assert_eq!(verdict_of(tier0), Ok(()));
    // The tier must be below the level of the ledger.
    let tier2 = WithdrawalCase {
        party: Party::Buyer(2),
        ..buyer_case(None, 4000, 4000)
    };
    assert_eq!(verdict_of(tier2), Err(SilentBerryError::Spore));
    let tier9 = WithdrawalCase {
        party: Party::Buyer(9),
        ..buyer_case(None, 4000, 4000)
    };
    assert_eq!(verdict_of(tier9), Err(SilentBerryError::Spore));
}

// ---- the account book: creation -------------------------------------------

struct Creation {
    tx: Tx,
    account_book: Script,
}

fn create_account_book_tx(ratios: Vec<u8>, numbers: Vec<u8>, buyer_count: u32) -> Creation {
    let def_lock_script1 = build_always_suc_script(&[]);
    let ckb_cell = build_cell(1000u64, def_lock_script1.clone(), None, vec![]);

    let smt = AccountBook::new_empty();

    let mut account_book_data = def_account_book_data();
    account_book_data.level = 5u8;
    account_book_data.proof = smt.compiled_proof(SmtKey::Auther);
    let mut account_book_cell_data = def_account_book_cell_data();
    account_book_cell_data.buyer_count = buyer_count;
    account_book_cell_data.profit_distribution_ratio = ratios;
    account_book_cell_data.profit_distribution_number = numbers;
    account_book_cell_data.smt_root_hash = smt.root_hash();

    let account_book_type_id = ckb_hash(&[&[0x1D; 44][..], &1u64.to_le_bytes()[..]].concat());
    let account_book_script = build_account_book_script(account_book_type_id);

    let accout_book_cell = build_cell(
        16u64,
        def_lock_script1.clone(),
        Some(account_book_script.clone()),
        account_book_cell_data.as_bytes(),
    );
    let xudt_cell = build_xudt_cell(build_proxy_lock_script(account_book_script.hash), 0u128);
    let ckb_cell_change = build_cell(20u64, def_lock_script1.clone(), None, vec![]);

    let tx = Tx::default()
        .input(ckb_cell)
        .output(xudt_cell)
        .witness(no_args())
        .output(accout_book_cell)
        .witness(output_type_witness(account_book_data.as_bytes()))
        .output(ckb_cell_change)
        .witness(no_args());
    Creation {
        tx,
        account_book: account_book_script,
    }
}

impl Creation {
    fn verdict(&self) -> Result<(), SilentBerryError> {
        silentberry::account_book::program_entry2(&self.tx.as_type(&self.account_book), Ok(()))
    }
}

#[test]
fn create_account_book() {
    let creation = create_account_book_tx(
        vec![20, 20, 20, 10, 10, 10, 10],
        vec![10, 20, 30, 40, 50],
        0,
    );
    creation.tx.verify().expect("pass");
    assert_eq!(
        silentberry::account_book::program_entry(
            &creation.tx.as_type(&creation.account_book),
            Ok(())
        ),
        0
    );
}

#[test]
fn a_ledger_starts_with_fitting_tables_and_no_buyer() {
    // level 5, seven ratios that add up to 100, five divisors, no buyer yet,
    // the root of the empty tree.
    let creation = create_account_book_tx(
        vec![20, 20, 20, 10, 10, 10, 10],
        vec![10, 20, 30, 40, 50],
        0,
    );
    assert_eq!(creation.verdict(), Ok(()));
    // ratios that add up to 99 or to 101
    let low = create_account_book_tx(
        vec![20, 20, 20, 10, 10, 10, 9],
        vec![10, 20, 30, 40, 50],
        0,
    );
    assert_eq!(low.verdict(), Err(SilentBerryError::AccountBook));
    assert_eq!(
        silentberry::account_book::program_entry(&low.tx.as_type(&low.account_book), Ok(())),
        12
    );
    let high = create_account_book_tx(
        vec![20, 20, 20, 10, 10, 10, 11],
        vec![10, 20, 30, 40, 50],
        0,
    );
    assert_eq!(high.verdict(), Err(SilentBerryError::AccountBook));
    // tables that do not fit the level
    let short = create_account_book_tx(vec![20, 20, 20, 10, 10, 20], vec![10, 20, 30, 40, 50], 0);
    assert_eq!(short.verdict(), Err(SilentBerryError::AccountBook));
    let long = create_account_book_tx(
        vec![20, 20, 20, 10, 10, 10, 5, 5],
        vec![10, 20, 30, 40, 50],
        0,
    );
    assert_eq!(long.verdict(), Err(SilentBerryError::AccountBook));
    let few = create_account_book_tx(vec![20, 20, 20, 10, 10, 10, 10], vec![10, 20, 30, 40], 0);
    assert_eq!(few.verdict(), Err(SilentBerryError::AccountBook));
    // a buyer is counted already
    let counted = create_account_book_tx(
        vec![20, 20, 20, 10, 10, 10, 10],
        vec![10, 20, 30, 40, 50],
        1,
    );
    assert_eq!(counted.verdict(), Err(SilentBerryError::AccountBook));
}

#[test]
fn creation_starts_from_the_empty_tree() {
    let mut creation = create_account_book_tx(
        vec![20, 20, 20, 10, 10, 10, 10],
        vec![10, 20, 30, 40, 50],
        0,
    );
    let mut cell = AccountBookCellData::from_slice(&creation.tx.outputs[1].data).unwrap();
    let mut smt = AccountBook::new_empty();
    smt.update(SmtKey::Auther, 5);
    cell.smt_root_hash = smt.root_hash();
    creation.tx.outputs[1].data = cell.as_bytes();
    assert_eq!(creation.verdict(), Err(SilentBerryError::AccountBook));

    // The right root with a proof for another tree.
    let mut creation = create_account_book_tx(
        vec![20, 20, 20, 10, 10, 10, 10],
        vec![10, 20, 30, 40, 50],
        0,
    );
    let mut witness = def_account_book_data();
    witness.level = 5;
    witness.proof = AccountBook::new_test().compiled_proof(SmtKey::Auther);
    creation.tx.witnesses[1] = output_type_witness(witness.as_bytes());
    assert_eq!(creation.verdict(), Err(SilentBerryError::AccountBook));
    witness.proof = vec![];
    creation.tx.witnesses[1] = output_type_witness(witness.as_bytes());
    assert_eq!(creation.verdict(), Err(SilentBerryError::Smt));
}

#[test]
fn creation_comes_with_an_empty_escrow() {
    let base = create_account_book_tx(
        vec![20, 20, 20, 10, 10, 10, 10],
        vec![10, 20, 30, 40, 50],
        0,
    );
    let verdict = |tx: &Tx| {
        silentberry::account_book::program_entry2(&tx.as_type(&base.account_book), Ok(()))
    };
    // The escrow holds something.
    let mut tx = base.tx.clone();
    tx.outputs[0].data = 1u128.to_le_bytes().to_vec();
    assert_eq!(verdict(&tx), Err(SilentBerryError::CheckXUDT));
    // The escrow holds no amount.
    let mut tx = base.tx.clone();
    tx.outputs[0].data = vec![0; 15];
    assert_eq!(verdict(&tx), Err(SilentBerryError::CheckXUDT));
    // The first output is not locked by the escrow program.
    let mut tx = base.tx.clone();
    tx.outputs[0].lock = build_always_suc_script(&base.account_book.hash.0);
    assert_eq!(verdict(&tx), Err(SilentBerryError::TxStructure));
    // The escrow is for another account book.
    let mut tx = base.tx.clone();
    tx.outputs[0].lock = build_proxy_lock_script(hash_of([7; 32]));
    assert_eq!(verdict(&tx), Err(SilentBerryError::TxStructure));
    // The escrow names no account book.
    let mut tx = base.tx.clone();
    tx.outputs[0].lock = build_script(INPUT_TYPE_PROXY_LOCK_CODE, &[7; 31]);
    assert_eq!(verdict(&tx), Err(SilentBerryError::TypeConversion));
    // The escrow carries another token, or none.
    let mut tx = base.tx.clone();
    tx.outputs[0].type_script = Some(build_script(XUDT_CODE, &[0xBB; 32]));
    assert_eq!(verdict(&tx), Err(SilentBerryError::TxStructure));
    let mut tx = base.tx.clone();
    tx.outputs[0].type_script = None;
    assert_eq!(verdict(&tx), Err(SilentBerryError::TxStructure));
    // Too many cells.
    let tx = base
        .tx
        .clone()
        .input(build_cell(1, build_user1_script(), None, vec![]));
    assert_eq!(verdict(&tx), Err(SilentBerryError::TxStructure));
    let tx = base
        .tx
        .clone()
        .output(build_cell(1, build_user1_script(), None, vec![]));
    assert_eq!(verdict(&tx), Err(SilentBerryError::TxStructure));
    // The ledger cell holds no ledger.
    let mut tx = base.tx.clone();
    tx.outputs[1].data = vec![1; 400];
    assert_eq!(verdict(&tx), Err(SilentBerryError::MolVerification));
    // No witness of the transition.
    let mut tx = base.tx.clone();
    tx.witnesses[1] = no_args();
    assert_eq!(verdict(&tx), Err(SilentBerryError::ParseWitness));
    let mut tx = base.tx.clone();
    tx.witnesses[1] = output_type_witness(vec![1; 5]);
    assert_eq!(verdict(&tx), Err(SilentBerryError::MolVerification));
}

#[test]
fn creation_produces_one_ledger_cell() {
    let base = create_account_book_tx(
        vec![20, 20, 20, 10, 10, 10, 10],
        vec![10, 20, 30, 40, 50],
        0,
    );
    let mut tx = base.tx.clone();
    tx.outputs[2] = tx.outputs[1].clone();
    assert_eq!(
        silentberry::account_book::program_entry2(&tx.as_type(&base.account_book), Ok(())),
        Err(SilentBerryError::TxStructure)
    );
}

#[test]
fn account_book_must_run_as_a_type_script() {
    let base = create_account_book_tx(
        vec![20, 20, 20, 10, 10, 10, 10],
        vec![10, 20, 30, 40, 50],
        0,
    );
    let mut view = base.tx.as_type(&base.account_book);
    view.group_outputs.clear();
    assert_eq!(
        silentberry::account_book::program_entry2(&view, Ok(())),
        Err(SilentBerryError::SysError)
    );
    let mut view = base.tx.as_type(&base.account_book);
    view.group_outputs[0].type_script = None;
    assert_eq!(
        silentberry::account_book::program_entry2(&view, Ok(())),
        Err(SilentBerryError::CheckScript)
    );
}
