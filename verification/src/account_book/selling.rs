//! A sale: the price enters the escrow and the income, and the buyer gets a
//! leaf in the tree.
use crate::account_book::creation::{proof_accepted, spec_proof_accepted};
use crate::account_book::{
    check_input_type_proxy_lock, check_ledger, spec_check_input_type_proxy_lock,
    spec_ledger_invariant,
};
use crate::account_book_proof::{spec_verify, AccountBookProof, SmtKey};
use crate::error::SilentBerryError;
use crate::spore::{get_spore_level, spec_get_spore_level, SporeData, SporeDataView};
use crate::tx::{Cell, Source, Transaction};
use crate::types::account_book::{
    AccountBookCellData, AccountBookCellDataView, AccountBookData, AccountBookDataView,
};
use crate::udt_info::{spec_udt_info, UDTInfo};
use vstd::prelude::*;
use vstd::slice::slice_to_vec;

verus! {

/// The first position from `start` on whose data is the content record of a
/// digital object, if there is one.
pub open spec fn spec_first_spore(cells: Seq<Cell>, start: int) -> Option<int>
    decreases cells.len() - start,
{
    if start < 0 || start >= cells.len() {
        None
    } else if SporeData::spec_parse(cells[start].data@) is Some {
        Some(start)
    } else {
        spec_first_spore(cells, start + 1)
    }
}

/// What the first position is: one that holds a content record, with none
/// before it.
pub proof fn lemma_first_spore(cells: Seq<Cell>, start: int)
    requires
        0 <= start,
    ensures
        match spec_first_spore(cells, start) {
            Some(p) => start <= p < cells.len() && SporeData::spec_parse(cells[p].data@) is Some
                && forall|j: int| start <= j < p ==> SporeData::spec_parse(cells[j].data@) is None,
            None => forall|j: int|
                start <= j < cells.len() ==> SporeData::spec_parse(cells[j].data@) is None,
        },
    decreases cells.len() - start,
{
    if start < cells.len() && SporeData::spec_parse(cells[start].data@) is None {
        lemma_first_spore(cells, start + 1);
    }
}

/// The digital object of a side: the content record of the first cell that
/// holds one, and the identity of the object, which is the argument of that
/// cell's type script. No such cell, or one without a type script, is a
/// `Spore` failure; an argument that is no hash is a `TypeConversion`
/// failure.
pub open spec fn spec_load_spore(tx: &Transaction, source: Source) -> Result<
    (SporeDataView, Seq<u8>),
    SilentBerryError,
> {
    match spec_first_spore(tx.cells(source), 0) {
        None => Err(SilentBerryError::Spore),
        Some(p) => match tx.cells(source)[p].type_script {
            None => Err(SilentBerryError::Spore),
            Some(script) => if script.args@.len() != 32 {
                Err(SilentBerryError::TypeConversion)
            } else {
                Ok((SporeData::spec_parse(tx.cells(source)[p].data@).unwrap(), script.args@))
            },
        },
    }
}

/// The first position of `source` whose data is the content record of a
/// digital object, with the record: no position before it holds one.
pub fn first_spore(tx: &Transaction, source: Source) -> (r: Option<(usize, SporeData)>)
    ensures
        match r {
            Some((p, spore)) => {
                &&& spec_first_spore(tx.cells(source), 0) == Some(p as int)
                &&& p < tx.cells(source).len()
                &&& SporeData::spec_parse(tx.cells(source)[p as int].data@) == Some(spore@)
                &&& forall|j: int|
                    0 <= j < p ==> SporeData::spec_parse(tx.cells(source)[j].data@) is None
            },
            None => {
                &&& spec_first_spore(tx.cells(source), 0) is None
                &&& forall|j: int|
                    0 <= j < tx.cells(source).len() ==> SporeData::spec_parse(
                        tx.cells(source)[j].data@,
                    ) is None
            },
        },
{
    let cells = tx.source_cells(source);
    proof {
        lemma_first_spore(cells@, 0);
    }
    let mut i: usize = 0;
    while i < cells.len()
        invariant
            cells@ == tx.cells(source),
            i <= cells@.len(),
            spec_first_spore(cells@, 0) == spec_first_spore(cells@, i as int),
        decreases cells@.len() - i,
    {
        match SporeData::from_slice(cells[i].data.as_slice()) {
            Ok(spore_data) => {
                proof {
                    lemma_first_spore(cells@, 0);
                }
                return Some((i, spore_data));
            },
            Err(_) => {},
        }
        i += 1;
    }
    None
}

/// The digital object of a side of the transaction and its identity.
pub fn load_spore(tx: &Transaction, source: Source) -> (r: Result<
    (SporeData, crate::hash::Hash),
    SilentBerryError,
>)
    ensures
        match r {
            Ok((spore, id)) => spec_load_spore(tx, source) == Ok::<
                (SporeDataView, Seq<u8>),
                SilentBerryError,
            >((spore@, id@)),
            Err(e) => spec_load_spore(tx, source) == Err::<
                (SporeDataView, Seq<u8>),
                SilentBerryError,
            >(e),
        },
{
    let (position, spore_data) = match first_spore(tx, source) {
        Some(found) => found,
        None => {
            return Err(SilentBerryError::Spore);
        },
    };
    let cells = tx.source_cells(source);
    match &cells[position].type_script {
        None => Err(SilentBerryError::Spore),
        Some(script) => match crate::hash::Hash::try_from_slice(script.args.as_slice()) {
            Ok(id) => Ok((spore_data, id)),
            Err(e) => Err(e),
        },
    }
}

/// The income after a sale, if the escrow grew by exactly the price. An
/// escrow that did not grow by the price is a `CheckXUDT` failure; an income
/// beyond 128 bits is an `AccountBookOverflow` failure.
pub open spec fn spec_sale_amounts(
    price: u128,
    old_amount: u128,
    new_amount: u128,
    total_income: u128,
) -> Result<u128, SilentBerryError> {
    if old_amount + price != new_amount {
        Err(SilentBerryError::CheckXUDT)
    } else if total_income + price > u128::MAX {
        Err(SilentBerryError::AccountBookOverflow)
    } else {
        Ok((total_income + price) as u128)
    }
}

/// Checks the amounts of a sale and gives the income after it.
pub fn sale_amounts(price: u128, old_amount: u128, new_amount: u128, total_income: u128) -> (r:
    Result<u128, SilentBerryError>)
    ensures
        r == spec_sale_amounts(price, old_amount, new_amount, total_income),
{
    match old_amount.checked_add(price) {
        None => {
            return Err(SilentBerryError::CheckXUDT);
        },
        Some(expected) => {
            if expected != new_amount {
                return Err(SilentBerryError::CheckXUDT);
            }
        },
    }
    match total_income.checked_add(price) {
        None => Err(SilentBerryError::AccountBookOverflow),
        Some(new_total_income) => Ok(new_total_income),
    }
}

/// The two proofs of a sale. Against the old root: the income and the
/// escrow before the sale, and the buyer absent, so that no object is sold
/// twice. Against the new root: the income and the escrow after the sale,
/// and the buyer present with nothing paid out. A proof that does not hold
/// is an `Smt` failure.
pub open spec fn spec_sale_proofs(
    proof: Seq<u8>,
    old_root: Seq<u8>,
    new_root: Seq<u8>,
    total_income: u128,
    new_total_income: u128,
    old_amount: u128,
    new_amount: u128,
    spore_id: Seq<u8>,
) -> Result<(), SilentBerryError> {
    match spec_proof_accepted(
        spec_verify(proof, old_root, total_income, old_amount, spore_id, None),
        SilentBerryError::Smt,
    ) {
        Err(e) => Err(e),
        Ok(()) => spec_proof_accepted(
            spec_verify(proof, new_root, new_total_income, new_amount, spore_id, Some(0u128)),
            SilentBerryError::Smt,
        ),
    }
}

/// The verdict on a sale, given the ledger cell after it, the witness and
/// the root before it. The ledger cell must keep its invariant
/// (`AccountBook`); the object sold must belong to the ledger's collection
/// (`VerifiedData`) and declare the ledger's level (`Spore`); the token must
/// be conserved; the escrow of this account book must grow by exactly the
/// price of the ledger cell; and both proofs must hold.
pub open spec fn spec_selling(
    tx: &Transaction,
    witness: AccountBookDataView,
    cell: AccountBookCellDataView,
    old_root: Seq<u8>,
) -> Result<(), SilentBerryError> {
    if !spec_ledger_invariant(cell, witness.level) {
        Err(SilentBerryError::AccountBook)
    } else {
        spec_selling_of(tx, witness, cell, old_root)
    }
}

/// The verdict on a sale of a ledger that keeps its invariant.
pub open spec fn spec_selling_of(
    tx: &Transaction,
    witness: AccountBookDataView,
    cell: AccountBookCellDataView,
    old_root: Seq<u8>,
) -> Result<(), SilentBerryError> {
    match spec_load_spore(tx, Source::Output) {
        Err(e) => Err(e),
        Ok((spore, spore_id)) => match spore.cluster_id {
            None => Err(SilentBerryError::Spore),
            Some(cluster) => if cluster != witness.cluster_id {
                Err(SilentBerryError::VerifiedData)
            } else {
                match spec_get_spore_level(spore.content) {
                    Err(e) => Err(e),
                    Ok(level) => if witness.level != level {
                        Err(SilentBerryError::Spore)
                    } else {
                        match spec_udt_info(tx, witness.xudt_script_hash) {
                            Err(e) => Err(e),
                            Ok((inputs, outputs)) => match spec_check_input_type_proxy_lock(
                                tx,
                                witness.input_type_proxy_lock_code_hash,
                                inputs,
                                outputs,
                            ) {
                                Err(e) => Err(e),
                                Ok((old_amount, new_amount)) => match spec_sale_amounts(
                                    cell.price,
                                    old_amount,
                                    new_amount,
                                    witness.total_income_udt,
                                ) {
                                    Err(e) => Err(e),
                                    Ok(new_total_income) => spec_sale_proofs(
                                        witness.proof,
                                        old_root,
                                        cell.smt_root_hash,
                                        witness.total_income_udt,
                                        new_total_income,
                                        old_amount,
                                        new_amount,
                                        spore_id,
                                    ),
                                },
                            },
                        }
                    },
                }
            },
        },
    }
}

/// Judges a sale.
pub fn selling(
    tx: &Transaction,
    witness_data: AccountBookData,
    cell_data: AccountBookCellData,
    old_smt_hash: crate::hash::Hash,
) -> (r: Result<(), SilentBerryError>)
    ensures
        r == spec_selling(tx, witness_data@, cell_data@, old_smt_hash@),
{
    check_ledger(&cell_data, witness_data.level)?;
    let (spore_data, spore_id) = load_spore(tx, Source::Output)?;
    match &spore_data.cluster_id {
        None => {
            return Err(SilentBerryError::Spore);
        },
        Some(cluster) => {
            if !witness_data.cluster_id.eq_bytes(cluster.as_slice()) {
                return Err(SilentBerryError::VerifiedData);
            }
        },
    }
    let level_by_witness: u8 = witness_data.level;
    let level_by_spore = get_spore_level(&spore_data)?;
    if level_by_witness != level_by_spore {
        return Err(SilentBerryError::Spore);
    }
    let price: u128 = cell_data.price;
    let udt_info = UDTInfo::new(tx, witness_data.xudt_script_hash)?;
    let (old_amount, new_amount) = check_input_type_proxy_lock(tx, &witness_data, &udt_info)?;
    let old_total_income: u128 = witness_data.total_income_udt;
    let new_total_income = sale_amounts(price, old_amount, new_amount, old_total_income)?;
    let proof = AccountBookProof::new(slice_to_vec(witness_data.proof.as_slice()));
    proof_accepted(
        proof.verify(old_smt_hash, old_total_income, old_amount, (SmtKey::Buyer(spore_id), None)),
        SilentBerryError::Smt,
    )?;
    let new_smt_hash = cell_data.smt_root_hash;
    proof_accepted(
        proof.verify(
            new_smt_hash,
            new_total_income,
            new_amount,
            (SmtKey::Buyer(spore_id), Some(0)),
        ),
        SilentBerryError::Smt,
    )
}

} // verus!
