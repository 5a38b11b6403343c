//! Creation of an account book: one ledger cell with an empty tree, next to
//! a token escrow that holds nothing.
use crate::account_book::{check_ledger, spec_ledger_invariant};
use crate::account_book_proof::{spec_verify, AccountBookProof, SmtKey, SMT_ROOT_HASH_INITIAL};
use crate::error::SilentBerryError;
use crate::tx::{Source, Transaction};
use crate::types::account_book::{
    AccountBookCellData, AccountBookCellDataView, AccountBookData, AccountBookDataView,
};
use crate::utils::{load_account_book_cell_data, spec_load_account_book_cell_data};
use vstd::bytes::{spec_u128_from_le_bytes, u128_from_le_bytes};
use vstd::prelude::*;
use vstd::slice::slice_to_vec;

verus! {

/// The verdict on a proof that has been checked: accepted when it holds,
/// `failure` when it rebuilds another root, and the failure of the check
/// itself when the proof is malformed.
pub open spec fn spec_proof_accepted(
    outcome: Result<bool, SilentBerryError>,
    failure: SilentBerryError,
) -> Result<(), SilentBerryError> {
    match outcome {
        Ok(true) => Ok(()),
        Ok(false) => Err(failure),
        Err(e) => Err(e),
    }
}

/// Turns the outcome of a checked proof into a verdict.
pub fn proof_accepted(outcome: Result<bool, SilentBerryError>, failure: SilentBerryError) -> (r:
    Result<(), SilentBerryError>)
    ensures
        r == spec_proof_accepted(outcome, failure),
{
    match outcome {
        Ok(true) => Ok(()),
        Ok(false) => Err(failure),
        Err(e) => Err(e),
    }
}

/// The token escrow that comes with a new ledger: the first output is
/// locked by the escrow program with the identity of the new account book as
/// its argument, carries the ledger's token, and holds an amount of zero.
pub open spec fn spec_check_xudt_cell(tx: &Transaction, witness: AccountBookDataView) -> Result<
    (),
    SilentBerryError,
> {
    if !tx.has_cell(0, Source::Output) {
        Err(SilentBerryError::SysError)
    } else {
        let first = tx.cell(0, Source::Output);
        if first.lock.code_hash@ != witness.input_type_proxy_lock_code_hash {
            Err(SilentBerryError::TxStructure)
        } else if first.lock.args@.len() != 32 {
            Err(SilentBerryError::TypeConversion)
        } else if !tx.has_cell(0, Source::GroupOutput) {
            Err(SilentBerryError::SysError)
        } else if tx.cell(0, Source::GroupOutput).spec_type_hash() != Some(first.lock.args@) {
            Err(SilentBerryError::TxStructure)
        } else {
            match first.spec_type_hash() {
                None => Err(SilentBerryError::TxStructure),
                Some(token) => if token != witness.xudt_script_hash {
                    Err(SilentBerryError::TxStructure)
                } else if first.data@.len() != 16 {
                    Err(SilentBerryError::CheckXUDT)
                } else if spec_u128_from_le_bytes(first.data@) != 0 {
                    Err(SilentBerryError::CheckXUDT)
                } else {
                    Ok(())
                },
            }
        }
    }
}

/// Judges the token escrow that comes with a new ledger.
pub fn check_xudt_cell(tx: &Transaction, witness_data: &AccountBookData) -> (r: Result<
    (),
    SilentBerryError,
>)
    ensures
        r == spec_check_xudt_cell(tx, witness_data@),
{
    let first = match tx.load_cell(0, Source::Output) {
        Ok(c) => c,
        Err(_) => {
            return Err(SilentBerryError::SysError);
        },
    };
    if first.lock.code_hash != witness_data.input_type_proxy_lock_code_hash {
        return Err(SilentBerryError::TxStructure);
    }
    let script_hash = crate::hash::Hash::try_from_slice(first.lock.args.as_slice())?;
    let own = match tx.load_cell_type_hash(0, Source::GroupOutput) {
        Ok(h) => h,
        Err(_) => {
            return Err(SilentBerryError::SysError);
        },
    };
    if !script_hash.eq_opt(&own) {
        return Err(SilentBerryError::TxStructure);
    }
    let xudt_script_hash = match first.type_hash() {
        Some(h) => h,
        None => {
            return Err(SilentBerryError::TxStructure);
        },
    };
    if xudt_script_hash != witness_data.xudt_script_hash {
        return Err(SilentBerryError::TxStructure);
    }
    if first.data.len() != 16 {
        return Err(SilentBerryError::CheckXUDT);
    }
    let udt: u128 = u128_from_le_bytes(first.data.as_slice());
    if udt != 0 {
        return Err(SilentBerryError::CheckXUDT);
    }
    Ok(())
}

/// A creation spends one input, makes at most three outputs and produces
/// one ledger cell; anything more is a `TxStructure` failure.
pub open spec fn spec_check_bounds(tx: &Transaction) -> Result<(), SilentBerryError> {
    if tx.has_cell(1, Source::Input) || tx.has_cell(3, Source::Output) || tx.has_cell(
        1,
        Source::GroupOutput,
    ) {
        Err(SilentBerryError::TxStructure)
    } else {
        Ok(())
    }
}

/// Checks that a creation has no more cells than it may.
pub fn check_bounds(tx: &Transaction) -> (r: Result<(), SilentBerryError>)
    ensures
        r == spec_check_bounds(tx),
{
    if tx.load_cell_lock_hash(1, Source::Input).is_ok() {
        return Err(SilentBerryError::TxStructure);
    }
    if tx.load_cell_lock_hash(3, Source::Output).is_ok() {
        return Err(SilentBerryError::TxStructure);
    }
    crate::account_book::the_only(tx, Source::GroupOutput)
}

/// Whether a ledger cell is a valid first state of a ledger of `level`
/// tiers: it keeps the invariant of a ledger cell, no sale is counted, and
/// its root is that of the empty tree. Anything else is an `AccountBook`
/// failure.
pub open spec fn spec_initial_cell(cell: AccountBookCellDataView, level: u8) -> bool {
    &&& spec_ledger_invariant(cell, level)
    &&& cell.buyer_count == 0
    &&& cell.smt_root_hash == SMT_ROOT_HASH_INITIAL@
}

/// The verdict on a new ledger cell and its witness: the cell must be a
/// valid first state, and the proof must tie an income of zero, a balance of
/// zero and the absence of the author to its root.
pub open spec fn spec_check_cell_data(
    witness: AccountBookDataView,
    cell: AccountBookCellDataView,
) -> Result<(), SilentBerryError> {
    if !spec_initial_cell(cell, witness.level) {
        Err(SilentBerryError::AccountBook)
    } else {
        spec_proof_accepted(
            spec_verify(
                witness.proof,
                cell.smt_root_hash,
                0,
                0,
                SmtKey::Auther.spec_label(),
                None,
            ),
            SilentBerryError::AccountBook,
        )
    }
}

/// Judges a new ledger cell and its witness.
pub fn check_cell_data(witness_data: &AccountBookData, cell_data: &AccountBookCellData) -> (r:
    Result<(), SilentBerryError>)
    ensures
        r == spec_check_cell_data(witness_data@, cell_data@),
        r.is_ok() ==> spec_initial_cell(cell_data@, witness_data.level),
{
    check_ledger(cell_data, witness_data.level)?;
    if cell_data.buyer_count != 0 {
        return Err(SilentBerryError::AccountBook);
    }
    let smt_root_hash = cell_data.smt_root_hash;
    if !smt_root_hash.eq_bytes(SMT_ROOT_HASH_INITIAL.as_slice()) {
        return Err(SilentBerryError::AccountBook);
    }
    let proof = AccountBookProof::new(slice_to_vec(witness_data.proof.as_slice()));
    proof_accepted(
        proof.verify(smt_root_hash, 0, 0, (SmtKey::Auther, None)),
        SilentBerryError::AccountBook,
    )
}

/// The verdict on a transaction that creates an account book.
pub open spec fn spec_creation(tx: &Transaction, witness: AccountBookDataView) -> Result<
    (),
    SilentBerryError,
> {
    match spec_load_account_book_cell_data(tx, 0, Source::GroupOutput) {
        Err(e) => Err(e),
        Ok(cell) => match spec_check_bounds(tx) {
            Err(e) => Err(e),
            Ok(()) => match spec_check_xudt_cell(tx, witness) {
                Err(e) => Err(e),
                Ok(()) => spec_check_cell_data(witness, cell),
            },
        },
    }
}

/// Judges a transaction that creates an account book.
pub fn creation(tx: &Transaction, witness_data: AccountBookData) -> (r: Result<
    (),
    SilentBerryError,
>)
    ensures
        r == spec_creation(tx, witness_data@),
{
    let cell_data = load_account_book_cell_data(tx, 0, Source::GroupOutput)?;
    check_bounds(tx)?;
    check_xudt_cell(tx, &witness_data)?;
    check_cell_data(&witness_data, &cell_data)?;
    Ok(())
}

} // verus!
