//! A withdrawal: a party takes out what its share of the income entitles it
//! to and has not yet withdrawn.
use crate::account_book::creation::{proof_accepted, spec_proof_accepted};
use crate::account_book::{
    check_input_type_proxy_lock, check_ledger, get_ratios, spec_check_input_type_proxy_lock,
    spec_ledger_invariant, spec_ratios_ok,
};
use crate::account_book_proof::{spec_verify, AccountBookProof, SmtKey};
use crate::error::SilentBerryError;
use crate::tx::{get_indexs, matching_indexs, Cell, HashField, Source, Transaction};
use crate::types::account_book::{
    AccountBookCellData, AccountBookCellDataView, AccountBookData, AccountBookDataView,
};
use crate::types::intent::{
    WithdrawalBuyer, WithdrawalBuyerView, WithdrawalIntentData, WithdrawalIntentDataView,
};
use crate::udt_info::{spec_udt_info, UDTInfo};
use crate::utils::{load_withdrawal_data, spec_load_withdrawal_data};
use vstd::prelude::*;
use vstd::slice::slice_to_vec;

verus! {

/// The withdrawal intent that the transaction consumes: the one attached to
/// the first input that carries the program `code_hash`. No such input is a
/// `CheckScript` failure.
pub open spec fn spec_withdrawal_intent(tx: &Transaction, code_hash: Seq<u8>) -> Result<
    WithdrawalIntentDataView,
    SilentBerryError,
> {
    let indexs = matching_indexs(tx.inputs@, HashField::TypeCodeHash, code_hash);
    if indexs.len() == 0 {
        Err(SilentBerryError::CheckScript)
    } else {
        spec_load_withdrawal_data(tx, indexs[0] as int, Source::Input, true)
    }
}

/// Loads the withdrawal intent that the transaction consumes.
pub fn load_withdrawal_intent(tx: &Transaction, hash: &crate::hash::Hash) -> (r: Result<
    WithdrawalIntentData,
    SilentBerryError,
>)
    ensures
        match r {
            Ok(v) => spec_withdrawal_intent(tx, hash@) == Ok::<
                WithdrawalIntentDataView,
                SilentBerryError,
            >(v@),
            Err(e) => spec_withdrawal_intent(tx, hash@) == Err::<
                WithdrawalIntentDataView,
                SilentBerryError,
            >(e),
        },
{
    let indexs = get_indexs(tx, HashField::TypeCodeHash, hash, Source::Input);
    if indexs.len() == 0 {
        return Err(SilentBerryError::CheckScript);
    }
    load_withdrawal_data(tx, indexs[0], Source::Input, true)
}

/// The party that withdraws, as the consumed withdrawal intent names it.
pub fn get_buyer(tx: &Transaction, hash: crate::hash::Hash) -> (r: Result<
    WithdrawalBuyer,
    SilentBerryError,
>)
    ensures
        match r {
            Ok(buyer) => spec_withdrawal_intent(tx, hash@) is Ok && spec_withdrawal_intent(
                tx,
                hash@,
            ).unwrap().buyer == buyer@,
            Err(e) => spec_withdrawal_intent(tx, hash@) == Err::<
                WithdrawalIntentDataView,
                SilentBerryError,
            >(e),
        },
{
    let withdrawal_data = load_withdrawal_intent(tx, &hash)?;
    Ok(withdrawal_data.buyer)
}

/// The party that withdraws, by what it is to the ledger.
#[derive(Clone, Copy, Debug)]
pub enum WithdrawalParty {
    Platform,
    Author,
    /// The holder of the digital object `spore_id`, which is of tier `tier`.
    Buyer { tier: u8, spore_id: crate::hash::Hash },
}

/// The value of a [`WithdrawalParty`].
pub enum WithdrawalPartyView {
    Platform,
    Author,
    Buyer { tier: u8, spore_id: Seq<u8> },
}

impl View for WithdrawalParty {
    type V = WithdrawalPartyView;

    open spec fn view(&self) -> WithdrawalPartyView {
        match self {
            WithdrawalParty::Platform => WithdrawalPartyView::Platform,
            WithdrawalParty::Author => WithdrawalPartyView::Author,
            WithdrawalParty::Buyer { tier, spore_id } => WithdrawalPartyView::Buyer {
                tier: *tier,
                spore_id: spore_id@,
            },
        }
    }
}

impl WithdrawalPartyView {
    /// Where the party's percentage stands in the ratio table: first the
    /// platform's, then the author's, then one per tier.
    pub open spec fn ratio_index(self) -> int {
        match self {
            WithdrawalPartyView::Platform => 0,
            WithdrawalPartyView::Author => 1,
            WithdrawalPartyView::Buyer { tier, spore_id } => tier + 2,
        }
    }

    /// Among how many parties the percentage is split: the platform and the
    /// author have theirs undivided, a buyer shares it with as many as the
    /// divisor table says for its tier.
    pub open spec fn divisor(self, cell: AccountBookCellDataView) -> u8 {
        match self {
            WithdrawalPartyView::Platform => 1,
            WithdrawalPartyView::Author => 1,
            WithdrawalPartyView::Buyer { tier, spore_id } => cell.profit_distribution_number[tier as int],
        }
    }

    /// The label of the party's key in the tree.
    pub open spec fn label(self) -> Seq<u8> {
        match self {
            WithdrawalPartyView::Platform => SmtKey::Platform.spec_label(),
            WithdrawalPartyView::Author => SmtKey::Auther.spec_label(),
            WithdrawalPartyView::Buyer { tier, spore_id } => spore_id,
        }
    }

    /// Whether the tables of a ledger of `level` tiers serve the party: the
    /// ratio table holds the party's percentage, and for a buyer the divisor
    /// table has one entry per tier, among them the one of the buyer's tier.
    pub open spec fn has_entries(self, cell: AccountBookCellDataView, level: u8) -> bool {
        &&& self.ratio_index() < cell.profit_distribution_ratio.len()
        &&& self matches WithdrawalPartyView::Buyer { tier, spore_id } ==> {
            &&& cell.profit_distribution_number.len() == level
            &&& tier < cell.profit_distribution_number.len()
        }
    }
}

impl WithdrawalParty {
    /// The party's key in the tree.
    pub fn key(&self) -> (key: SmtKey)
        ensures
            key.spec_label() == self@.label(),
    {
        match self {
            WithdrawalParty::Platform => SmtKey::Platform,
            WithdrawalParty::Author => SmtKey::Auther,
            WithdrawalParty::Buyer { tier, spore_id } => SmtKey::Buyer(*spore_id),
        }
    }
}

/// The party that a withdrawal intent names, told by the ledger. A buyer
/// holds a digital object of some tier, which must be below the ledger's
/// level (`Spore`). A script hash names the author or the platform; any
/// other is an `AccountBook` failure.
pub open spec fn spec_party(
    cell: AccountBookCellDataView,
    level: u8,
    buyer: WithdrawalBuyerView,
) -> Result<WithdrawalPartyView, SilentBerryError> {
    match buyer {
        WithdrawalBuyerView::WithdrawalSporeInfo(info) => if level <= info.spore_level {
            Err(SilentBerryError::Spore)
        } else {
            Ok(WithdrawalPartyView::Buyer { tier: info.spore_level, spore_id: info.spore_id })
        },
        WithdrawalBuyerView::Byte32(script_hash) => if script_hash == cell.auther_id {
            Ok(WithdrawalPartyView::Author)
        } else if script_hash == cell.platform_id {
            Ok(WithdrawalPartyView::Platform)
        } else {
            Err(SilentBerryError::AccountBook)
        },
    }
}

/// Tells the party that a withdrawal intent names in a ledger of `level`
/// tiers.
pub fn party_of(cell_data: &AccountBookCellData, level: u8, buyer: &WithdrawalBuyer) -> (r:
    Result<WithdrawalParty, SilentBerryError>)
    ensures
        match r {
            Ok(party) => spec_party(cell_data@, level, buyer@) == Ok::<
                WithdrawalPartyView,
                SilentBerryError,
            >(party@),
            Err(e) => spec_party(cell_data@, level, buyer@) == Err::<
                WithdrawalPartyView,
                SilentBerryError,
            >(e),
        },
{
    match buyer {
        WithdrawalBuyer::WithdrawalSporeInfo(spore_info) => {
            if level <= spore_info.spore_level {
                Err(SilentBerryError::Spore)
            } else {
                Ok(WithdrawalParty::Buyer { tier: spore_info.spore_level, spore_id: spore_info.spore_id })
            }
        },
        WithdrawalBuyer::Byte32(script_hash) => {
            if *script_hash == cell_data.auther_id {
                Ok(WithdrawalParty::Author)
            } else if *script_hash == cell_data.platform_id {
                Ok(WithdrawalParty::Platform)
            } else {
                Err(SilentBerryError::AccountBook)
            }
        },
    }
}

/// The share of a party: its percentage of the income, the number of
/// parties among whom that percentage is split, and the label of its key in
/// the tree. For a buyer the divisor table must have exactly one entry per
/// tier, and for every party the ratio table must hold its percentage; a
/// ledger whose tables do not serve the party is an `AccountBook` failure.
pub open spec fn spec_party_share(
    cell: AccountBookCellDataView,
    level: u8,
    buyer: WithdrawalBuyerView,
) -> Result<(u8, u8, Seq<u8>), SilentBerryError> {
    match spec_party(cell, level, buyer) {
        Err(e) => Err(e),
        Ok(party) => if !party.has_entries(cell, level) {
            Err(SilentBerryError::AccountBook)
        } else {
            Ok(
                (
                    cell.profit_distribution_ratio[party.ratio_index()],
                    party.divisor(cell),
                    party.label(),
                ),
            )
        },
    }
}

/// The ratio, the divisor and the key of the withdrawing party.
pub fn party_share(cell_data: &AccountBookCellData, level: u8, buyer: &WithdrawalBuyer) -> (r:
    Result<(u8, u8, SmtKey), SilentBerryError>)
    ensures
        match r {
            Ok((ratio, num, key)) => spec_party_share(cell_data@, level, buyer@) == Ok::<
                (u8, u8, Seq<u8>),
                SilentBerryError,
            >((ratio, num, key.spec_label())),
            Err(e) => spec_party_share(cell_data@, level, buyer@) == Err::<
                (u8, u8, Seq<u8>),
                SilentBerryError,
            >(e),
        },
{
    let party = party_of(cell_data, level, buyer)?;
    let ratios = &cell_data.profit_distribution_ratio;
    let nums = &cell_data.profit_distribution_number;
    match party {
        WithdrawalParty::Platform => {
            if ratios.len() < 1 {
                return Err(SilentBerryError::AccountBook);
            }
            Ok((ratios[0], 1, party.key()))
        },
        WithdrawalParty::Author => {
            if ratios.len() < 2 {
                return Err(SilentBerryError::AccountBook);
            }
            Ok((ratios[1], 1, party.key()))
        },
        WithdrawalParty::Buyer { tier, spore_id } => {
            if nums.len() != level as usize {
                return Err(SilentBerryError::AccountBook);
            }
            if ratios.len() < tier as usize + 3 {
                return Err(SilentBerryError::AccountBook);
            }
            Ok((ratios[tier as usize + 2], nums[tier as usize], party.key()))
        },
    }
}

/// What a withdrawal entitles a party to: its percentage of the income,
/// rounded down, divided among `num` parties, rounded down again. A product
/// beyond 128 bits or a division by zero is an `AccountBookOverflow`
/// failure.
pub open spec fn spec_entitlement(total_income: u128, ratio: u8, num: u8) -> Result<
    u128,
    SilentBerryError,
> {
    if total_income * ratio > u128::MAX || num == 0 {
        Err(SilentBerryError::AccountBookOverflow)
    } else {
        Ok((total_income * ratio / 100 / (num as int)) as u128)
    }
}

/// What a withdrawal entitles a party to, by checked arithmetic.
pub fn entitlement(total_income: u128, ratio: u8, num: u8) -> (r: Result<u128, SilentBerryError>)
    ensures
        r == spec_entitlement(total_income, ratio, num),
{
    let share = match total_income.checked_mul(ratio as u128) {
        Some(product) => product / 100,
        None => {
            return Err(SilentBerryError::AccountBookOverflow);
        },
    };
    match share.checked_div(num as u128) {
        Some(each) => Ok(each),
        None => Err(SilentBerryError::AccountBookOverflow),
    }
}

/// What a party had withdrawn before: the amount that the witness records,
/// nothing the first time.
pub open spec fn spec_withdrawn_before(witness: AccountBookDataView) -> u128 {
    match witness.withdrawn_udt {
        Some(w) => w,
        None => 0,
    }
}

/// The total that the withdrawing party has withdrawn after the withdrawal,
/// and the label of its key in the tree: what it had withdrawn before plus
/// what the withdrawal entitles it to. A total beyond 128 bits is an
/// `AccountBookOverflow` failure.
pub open spec fn spec_get_total_withdrawn(
    tx: &Transaction,
    cell: AccountBookCellDataView,
    witness: AccountBookDataView,
) -> Result<(u128, Seq<u8>), SilentBerryError> {
    if !spec_ratios_ok(cell.profit_distribution_ratio, witness.level) {
        Err(SilentBerryError::AccountBook)
    } else {
        match spec_withdrawal_intent(tx, witness.withdrawal_intent_code_hash) {
            Err(e) => Err(e),
            Ok(intent) => match spec_party_share(cell, witness.level, intent.buyer) {
                Err(e) => Err(e),
                Ok((ratio, num, label)) => match spec_entitlement(
                    witness.total_income_udt,
                    ratio,
                    num,
                ) {
                    Err(e) => Err(e),
                    Ok(share) => if spec_withdrawn_before(witness) + share > u128::MAX {
                        Err(SilentBerryError::AccountBookOverflow)
                    } else {
                        Ok(((spec_withdrawn_before(witness) + share) as u128, label))
                    },
                },
            },
        }
    }
}

/// The total that the withdrawing party has withdrawn after the withdrawal,
/// and its key.
pub fn get_total_withdrawn(
    tx: &Transaction,
    cell_data: &AccountBookCellData,
    witness_data: &AccountBookData,
) -> (r: Result<(u128, SmtKey), SilentBerryError>)
    ensures
        match r {
            Ok((total, key)) => spec_get_total_withdrawn(tx, cell_data@, witness_data@) == Ok::<
                (u128, Seq<u8>),
                SilentBerryError,
            >((total, key.spec_label())),
            Err(e) => spec_get_total_withdrawn(tx, cell_data@, witness_data@) == Err::<
                (u128, Seq<u8>),
                SilentBerryError,
            >(e),
        },
{
    let account_book_level: u8 = witness_data.level;
    let _ratios = get_ratios(cell_data, account_book_level)?;
    let buyer = get_buyer(tx, witness_data.withdrawal_intent_code_hash)?;
    let (ratio, num, smt_key) = party_share(cell_data, account_book_level, &buyer)?;
    let share = entitlement(witness_data.total_income_udt, ratio, num)?;
    let before: u128 = match witness_data.withdrawn_udt {
        Some(w) => w,
        None => 0,
    };
    match before.checked_add(share) {
        Some(total) => Ok((total, smt_key)),
        None => Err(SilentBerryError::AccountBookOverflow),
    }
}

/// The amount of the first token position from `start` on whose cell is
/// locked by `owner`. A position that the side lacks is a `SysError`
/// failure; no position of the owner is a `TxStructure` failure.
pub open spec fn spec_first_payout(
    cells: Seq<Cell>,
    entries: Seq<(u128, usize)>,
    owner: Seq<u8>,
    start: int,
) -> Result<u128, SilentBerryError>
    decreases entries.len() - start,
{
    if start < 0 || start >= entries.len() {
        Err(SilentBerryError::TxStructure)
    } else if entries[start].1 >= cells.len() {
        Err(SilentBerryError::SysError)
    } else if cells[entries[start].1 as int].lock.hash@ == owner {
        Ok(entries[start].0)
    } else {
        spec_first_payout(cells, entries, owner, start + 1)
    }
}

/// What the payout is: the amount of the first token position from `start`
/// on whose cell is locked by `owner`, where every position before it names
/// a cell of the side that another lock holds.
pub proof fn lemma_first_payout(
    cells: Seq<Cell>,
    entries: Seq<(u128, usize)>,
    owner: Seq<u8>,
    start: int,
)
    requires
        0 <= start,
    ensures
        spec_first_payout(cells, entries, owner, start) matches Ok(amount) ==> exists|k: int|
            {
                &&& start <= k < entries.len()
                &&& (#[trigger] entries[k]).0 == amount
                &&& entries[k].1 < cells.len()
                &&& cells[entries[k].1 as int].lock.hash@ == owner
                &&& forall|j: int|
                    start <= j < k ==> (#[trigger] entries[j]).1 < cells.len()
                        && cells[entries[j].1 as int].lock.hash@ != owner
            },
        spec_first_payout(cells, entries, owner, start) == Err::<u128, SilentBerryError>(
            SilentBerryError::TxStructure,
        ) ==> forall|j: int|
            start <= j < entries.len() ==> (#[trigger] entries[j]).1 < cells.len()
                && cells[entries[j].1 as int].lock.hash@ != owner,
    decreases entries.len() - start,
{
    if start < entries.len() && entries[start].1 < cells.len() {
        if cells[entries[start].1 as int].lock.hash@ == owner {
            assert(entries[start].0 == spec_first_payout(cells, entries, owner, start).unwrap());
        } else {
            lemma_first_payout(cells, entries, owner, start + 1);
        }
    }
}

/// The amount paid out: that of the first token output locked by the owner
/// whom the consumed withdrawal intent names.
pub open spec fn spec_get_output_udt(
    tx: &Transaction,
    witness: AccountBookDataView,
    outputs: Seq<(u128, usize)>,
) -> Result<u128, SilentBerryError> {
    match spec_withdrawal_intent(tx, witness.withdrawal_intent_code_hash) {
        Err(e) => Err(e),
        Ok(intent) => spec_first_payout(tx.outputs@, outputs, intent.owner_script_hash, 0),
    }
}

/// The amount paid out to the owner whom the withdrawal intent names: that
/// of a token output that the owner's lock holds.
pub fn get_output_udt(tx: &Transaction, witness_data: &AccountBookData, udt_info: &UDTInfo) -> (r:
    Result<u128, SilentBerryError>)
    ensures
        r == spec_get_output_udt(tx, witness_data@, udt_info.outputs@),
        r matches Ok(amount) ==> exists|k: int|
            {
                &&& 0 <= k < udt_info.outputs@.len()
                &&& (#[trigger] udt_info.outputs@[k]).0 == amount
                &&& udt_info.outputs@[k].1 < tx.outputs@.len()
                &&& tx.outputs@[udt_info.outputs@[k].1 as int].lock.hash@ == spec_withdrawal_intent(
                    tx,
                    witness_data@.withdrawal_intent_code_hash,
                ).unwrap().owner_script_hash
            },
{
    let withdrawal_data = load_withdrawal_intent(tx, &witness_data.withdrawal_intent_code_hash)?;
    let owner_script_hash = withdrawal_data.owner_script_hash;
    proof {
        lemma_first_payout(tx.outputs@, udt_info.outputs@, owner_script_hash@, 0);
    }
    let mut i: usize = 0;
    while i < udt_info.outputs.len()
        invariant
            i <= udt_info.outputs@.len(),
            spec_withdrawal_intent(tx, witness_data@.withdrawal_intent_code_hash) == Ok::<
                WithdrawalIntentDataView,
                SilentBerryError,
            >(withdrawal_data@),
            owner_script_hash@ == withdrawal_data@.owner_script_hash,
            spec_first_payout(tx.outputs@, udt_info.outputs@, owner_script_hash@, 0)
                == spec_first_payout(tx.outputs@, udt_info.outputs@, owner_script_hash@, i as int),
        decreases udt_info.outputs@.len() - i,
    {
        let (udt, index) = udt_info.outputs[i];
        let lock_hash = match tx.load_cell_lock_hash(index, Source::Output) {
            Ok(h) => h,
            Err(_) => {
                return Err(SilentBerryError::SysError);
            },
        };
        if owner_script_hash == lock_hash {
            return Ok(udt);
        }
        i += 1;
    }
    Err(SilentBerryError::TxStructure)
}

/// Whether a withdrawal moves exactly what it may: the escrow shrinks by
/// the amount paid out, and that amount is the difference between what the
/// party has withdrawn after the withdrawal and what it had withdrawn
/// before.
pub open spec fn spec_withdrawal_balanced(
    old_total_udt: u128,
    new_total_udt: u128,
    withdrawal_udt: u128,
    new_total_withdrawn: u128,
    old_total_withdrawal: Option<u128>,
) -> bool {
    &&& old_total_udt == new_total_udt + withdrawal_udt
    &&& old_total_udt - new_total_udt == new_total_withdrawn - match old_total_withdrawal {
        Some(w) => w,
        None => 0,
    }
}

/// Checks the amounts of a withdrawal; amounts that do not balance are an
/// `AccountBook` failure.
pub fn check_withdrawal_amounts(
    old_total_udt: u128,
    new_total_udt: u128,
    withdrawal_udt: u128,
    new_total_withdrawn: u128,
    old_total_withdrawal: Option<u128>,
) -> (r: Result<(), SilentBerryError>)
    ensures
        r == if spec_withdrawal_balanced(
            old_total_udt,
            new_total_udt,
            withdrawal_udt,
            new_total_withdrawn,
            old_total_withdrawal,
        ) {
            Ok::<(), SilentBerryError>(())
        } else {
            Err::<(), SilentBerryError>(SilentBerryError::AccountBook)
        },
{
    match new_total_udt.checked_add(withdrawal_udt) {
        Some(sum) => {
            if old_total_udt != sum {
                return Err(SilentBerryError::AccountBook);
            }
        },
        None => {
            return Err(SilentBerryError::AccountBook);
        },
    }
    let before: u128 = match old_total_withdrawal {
        Some(w) => w,
        None => 0,
    };
    if new_total_withdrawn < before {
        return Err(SilentBerryError::AccountBook);
    }
    if old_total_udt - new_total_udt != new_total_withdrawn - before {
        return Err(SilentBerryError::AccountBook);
    }
    Ok(())
}

/// The two proofs of a withdrawal. Against the old root: the income, the
/// escrow before the withdrawal, and what the party had withdrawn before, or
/// its absence the first time. Against the new root: the same income, the
/// escrow after the withdrawal, and the party's new total. A proof that does
/// not hold is an `AccountBook` failure.
pub open spec fn spec_withdrawal_proofs(
    proof: Seq<u8>,
    old_root: Seq<u8>,
    new_root: Seq<u8>,
    total_income: u128,
    old_total_udt: u128,
    new_total_udt: u128,
    label: Seq<u8>,
    old_total_withdrawal: Option<u128>,
    new_total_withdrawn: u128,
) -> Result<(), SilentBerryError> {
    match spec_proof_accepted(
        spec_verify(proof, old_root, total_income, old_total_udt, label, old_total_withdrawal),
        SilentBerryError::AccountBook,
    ) {
        Err(e) => Err(e),
        Ok(()) => spec_proof_accepted(
            spec_verify(
                proof,
                new_root,
                total_income,
                new_total_udt,
                label,
                Some(new_total_withdrawn),
            ),
            SilentBerryError::AccountBook,
        ),
    }
}

/// The verdict on a withdrawal, given the ledger cell after it, the witness
/// and the root before it. The ledger cell must keep its invariant
/// (`AccountBook`); the token must be conserved; the escrow of this account
/// book must shrink by exactly what is paid out to the owner whom the
/// withdrawal intent names, which must be exactly what the withdrawal
/// entitles the party to; and both proofs must hold.
pub open spec fn spec_withdrawal(
    tx: &Transaction,
    witness: AccountBookDataView,
    cell: AccountBookCellDataView,
    old_root: Seq<u8>,
) -> Result<(), SilentBerryError> {
    if !spec_ledger_invariant(cell, witness.level) {
        Err(SilentBerryError::AccountBook)
    } else {
        spec_withdrawal_of(tx, witness, cell, old_root)
    }
}

/// The verdict on a withdrawal from a ledger that keeps its invariant.
pub open spec fn spec_withdrawal_of(
    tx: &Transaction,
    witness: AccountBookDataView,
    cell: AccountBookCellDataView,
    old_root: Seq<u8>,
) -> Result<(), SilentBerryError> {
    match spec_get_total_withdrawn(tx, cell, witness) {
        Err(e) => Err(e),
        Ok((new_total_withdrawn, label)) => match spec_udt_info(tx, witness.xudt_script_hash) {
            Err(e) => Err(e),
            Ok((inputs, outputs)) => match spec_check_input_type_proxy_lock(
                tx,
                witness.input_type_proxy_lock_code_hash,
                inputs,
                outputs,
            ) {
                Err(e) => Err(e),
                Ok((old_total_udt, new_total_udt)) => match spec_get_output_udt(
                    tx,
                    witness,
                    outputs,
                ) {
                    Err(e) => Err(e),
                    Ok(withdrawal_udt) => if !spec_withdrawal_balanced(
                        old_total_udt,
                        new_total_udt,
                        withdrawal_udt,
                        new_total_withdrawn,
                        witness.withdrawn_udt,
                    ) {
                        Err(SilentBerryError::AccountBook)
                    } else {
                        spec_withdrawal_proofs(
                            witness.proof,
                            old_root,
                            cell.smt_root_hash,
                            witness.total_income_udt,
                            old_total_udt,
                            new_total_udt,
                            label,
                            witness.withdrawn_udt,
                            new_total_withdrawn,
                        )
                    },
                },
            },
        },
    }
}

/// Judges a withdrawal.
pub fn withdrawal(
    tx: &Transaction,
    witness_data: AccountBookData,
    cell_data: AccountBookCellData,
    old_smt_hash: crate::hash::Hash,
) -> (r: Result<(), SilentBerryError>)
    ensures
        r == spec_withdrawal(tx, witness_data@, cell_data@, old_smt_hash@),
{
    check_ledger(&cell_data, witness_data.level)?;
    let (new_total_withdrawn, smt_key) = get_total_withdrawn(tx, &cell_data, &witness_data)?;
    let udt_info = UDTInfo::new(tx, witness_data.xudt_script_hash)?;
    let (old_total_udt, new_total_udt) = check_input_type_proxy_lock(
        tx,
        &witness_data,
        &udt_info,
    )?;
    let withdrawal_udt = get_output_udt(tx, &witness_data, &udt_info)?;
    let old_total_withdrawal: Option<u128> = witness_data.withdrawn_udt;
    let total_income: u128 = witness_data.total_income_udt;
    check_withdrawal_amounts(
        old_total_udt,
        new_total_udt,
        withdrawal_udt,
        new_total_withdrawn,
        old_total_withdrawal,
    )?;
    let proof = AccountBookProof::new(slice_to_vec(witness_data.proof.as_slice()));
    proof_accepted(
        proof.verify(old_smt_hash, total_income, old_total_udt, (smt_key, old_total_withdrawal)),
        SilentBerryError::AccountBook,
    )?;
    let new_smt_hash = cell_data.smt_root_hash;
    proof_accepted(
        proof.verify(
            new_smt_hash,
            total_income,
            new_total_udt,
            (smt_key, Some(new_total_withdrawn)),
        ),
        SilentBerryError::AccountBook,
    )
}

} // verus!
