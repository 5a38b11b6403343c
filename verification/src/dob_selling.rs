//! The listing: a digital object is handed over when its payment goes
//! through, or the payment returns to its owner.
use crate::error::{exit_code, SilentBerryError};
use crate::hash::ckb_hash_spec;
use crate::tx::{
    any_cell, get_indexs, has_match, lemma_matching_indexs, load_args_to_hash, matching_indexs,
    HashField, Source, Transaction,
};
use crate::types::intent::{DobSellingData, DobSellingDataView};
use crate::utils::{load_witness_field, spec_witness_field, WitnessField};
use vstd::prelude::*;

verus! {

/// The listing record. The argument of the running script is the hash of
/// the record, which is attached to the first input of the group in the lock
/// field. Another argument, or a record with another hash, is a
/// `VerifiedData` failure; a payload without the lock field is a
/// `TxStructure` failure.
pub open spec fn spec_load_verified_data(tx: &Transaction) -> Result<
    DobSellingDataView,
    SilentBerryError,
> {
    if tx.script.args@.len() != 32 {
        Err(SilentBerryError::VerifiedData)
    } else {
        match spec_witness_field(
            tx,
            0,
            Source::GroupInput,
            WitnessField::Lock,
            SilentBerryError::TxStructure,
        ) {
            Err(e) => Err(e),
            Ok(bytes) => match DobSellingData::spec_parse(bytes) {
                None => Err(SilentBerryError::MolVerification),
                Some(data) => if ckb_hash_spec(bytes) != tx.script.args@ {
                    Err(SilentBerryError::VerifiedData)
                } else {
                    Ok(data)
                },
            },
        }
    }
}

/// Loads the listing record and checks it against the argument of the
/// running script.
pub fn load_verified_data(tx: &Transaction) -> (r: Result<DobSellingData, SilentBerryError>)
    ensures
        match r {
            Ok(data) => spec_load_verified_data(tx) == Ok::<DobSellingDataView, SilentBerryError>(
                data@,
            ),
            Err(e) => spec_load_verified_data(tx) == Err::<DobSellingDataView, SilentBerryError>(e),
        },
{
    let args = load_args_to_hash(tx)?;
    if args.len() != 1 {
        return Err(SilentBerryError::VerifiedData);
    }
    let intent_data_hash = args[0];
    assert(tx.script.args@.subrange(0, 32) =~= tx.script.args@);
    let witness = load_witness_field(
        tx,
        0,
        Source::GroupInput,
        WitnessField::Lock,
        SilentBerryError::TxStructure,
    )?;
    let witness_data = DobSellingData::from_slice(witness.as_slice())?;
    if intent_data_hash != crate::hash::Hash::ckb_hash(witness.as_slice()) {
        return Err(SilentBerryError::VerifiedData);
    }
    Ok(witness_data)
}

/// The position of the digital object among the outputs, if it is there:
/// the one output that carries the program `code_hash` as its type. Several
/// are a `CheckScript` failure.
pub open spec fn spec_get_spore_cell_index(tx: &Transaction, code_hash: Seq<u8>) -> Result<
    Option<usize>,
    SilentBerryError,
> {
    let indexs = matching_indexs(tx.outputs@, HashField::TypeCodeHash, code_hash);
    if indexs.len() > 1 {
        Err(SilentBerryError::CheckScript)
    } else if indexs.len() == 0 {
        Ok(None)
    } else {
        Ok(Some(indexs[0]))
    }
}

/// The position of the digital object among the outputs, if it is there.
pub fn get_spore_cell_index(tx: &Transaction, code_hash: crate::hash::Hash) -> (r: Result<
    Option<usize>,
    SilentBerryError,
>)
    ensures
        r == spec_get_spore_cell_index(tx, code_hash@),
        r matches Ok(Some(index)) ==> index < tx.outputs@.len(),
{
    let indexs = get_indexs(tx, HashField::TypeCodeHash, &code_hash, Source::Output);
    proof {
        assert(tx.outputs@.len() == tx.outputs.len());
        lemma_matching_indexs(tx.outputs@, HashField::TypeCodeHash, code_hash@);
    }
    if indexs.len() > 1 {
        return Err(SilentBerryError::CheckScript);
    }
    if indexs.len() == 0 {
        Ok(None)
    } else {
        Ok(Some(indexs[0]))
    }
}

/// The content of the object is the content that was listed: the data hash
/// of the output at `spore_index` is `data_hash`, else a `CheckScript`
/// failure.
pub open spec fn spec_check_spore_data(tx: &Transaction, spore_index: int, data_hash: Seq<u8>) -> Result<
    (),
    SilentBerryError,
> {
    if !tx.has_cell(spore_index, Source::Output) {
        Err(SilentBerryError::SysError)
    } else if tx.cell(spore_index, Source::Output).data_hash@ != data_hash {
        Err(SilentBerryError::CheckScript)
    } else {
        Ok(())
    }
}

/// Checks that the content of the object is the content that was listed.
pub fn check_spore_data(tx: &Transaction, spore_index: usize, data_hash: crate::hash::Hash) -> (r:
    Result<(), SilentBerryError>)
    ensures
        r == spec_check_spore_data(tx, spore_index as int, data_hash@),
{
    let cell = match tx.load_cell(spore_index, Source::Output) {
        Ok(c) => c,
        Err(_) => {
            return Err(SilentBerryError::SysError);
        },
    };
    if data_hash == cell.data_hash {
        Ok(())
    } else {
        Err(SilentBerryError::CheckScript)
    }
}

/// The account book takes part on both sides of the transaction, else a
/// `CheckScript` failure.
pub open spec fn spec_check_account_book(tx: &Transaction, book: Seq<u8>) -> Result<
    (),
    SilentBerryError,
> {
    if has_match(tx.inputs@, HashField::TypeHash, book) && has_match(
        tx.outputs@,
        HashField::TypeHash,
        book,
    ) {
        Ok(())
    } else {
        Err(SilentBerryError::CheckScript)
    }
}

/// Checks that the account book takes part on both sides.
pub fn check_account_book(tx: &Transaction, account_book_hash: crate::hash::Hash) -> (r: Result<
    (),
    SilentBerryError,
>)
    ensures
        r == spec_check_account_book(tx, account_book_hash@),
{
    if !any_cell(tx, HashField::TypeHash, &account_book_hash, Source::Input) {
        return Err(SilentBerryError::CheckScript);
    }
    if !any_cell(tx, HashField::TypeHash, &account_book_hash, Source::Output) {
        return Err(SilentBerryError::CheckScript);
    }
    Ok(())
}

/// A buy intent is consumed in the transaction: some input carries the
/// buy-intent program as its type, else a `CheckScript` failure.
pub open spec fn spec_check_buy_intent_code_hash(tx: &Transaction, hash: Seq<u8>) -> Result<
    (),
    SilentBerryError,
> {
    if has_match(tx.inputs@, HashField::TypeCodeHash, hash) {
        Ok(())
    } else {
        Err(SilentBerryError::CheckScript)
    }
}

/// Checks that a buy intent is consumed in the transaction.
pub fn check_buy_intent_code_hash(tx: &Transaction, hash: crate::hash::Hash) -> (r: Result<
    (),
    SilentBerryError,
>)
    ensures
        r == spec_check_buy_intent_code_hash(tx, hash@),
{
    if !any_cell(tx, HashField::TypeCodeHash, &hash, Source::Input) {
        return Err(SilentBerryError::CheckScript);
    }
    Ok(())
}

/// The verdict on a revoked listing: the second input is the buy intent
/// that is revoked with it, the first output returns the payment to the
/// owner (each a `CheckScript` failure otherwise), and the transaction has no
/// third input (`TxStructure`).
pub open spec fn spec_revocation(tx: &Transaction, data: DobSellingDataView) -> Result<
    (),
    SilentBerryError,
> {
    if !tx.has_cell(1, Source::Input) {
        Err(SilentBerryError::SysError)
    } else {
        match tx.cell(1, Source::Input).spec_type_code_hash() {
            None => Err(SilentBerryError::TxStructure),
            Some(code_hash) => if code_hash != data.buy_intent_code_hash {
                Err(SilentBerryError::CheckScript)
            } else if !tx.has_cell(0, Source::Output) {
                Err(SilentBerryError::SysError)
            } else if tx.cell(0, Source::Output).lock.hash@ != data.owner_script_hash {
                Err(SilentBerryError::CheckScript)
            } else if tx.has_cell(2, Source::Input) {
                Err(SilentBerryError::TxStructure)
            } else {
                Ok(())
            },
        }
    }
}

/// Judges a revoked listing.
pub fn revocation(tx: &Transaction, witness_data: DobSellingData) -> (r: Result<
    (),
    SilentBerryError,
>)
    ensures
        r == spec_revocation(tx, witness_data@),
{
    let second = match tx.load_cell(1, Source::Input) {
        Ok(c) => c,
        Err(_) => {
            return Err(SilentBerryError::SysError);
        },
    };
    let lock_code_hash = match second.type_code_hash() {
        Some(h) => h,
        None => {
            return Err(SilentBerryError::TxStructure);
        },
    };
    if witness_data.buy_intent_code_hash != lock_code_hash {
        return Err(SilentBerryError::CheckScript);
    }
    let returned = match tx.load_cell_lock_hash(0, Source::Output) {
        Ok(h) => h,
        Err(_) => {
            return Err(SilentBerryError::SysError);
        },
    };
    if witness_data.owner_script_hash != returned {
        return Err(SilentBerryError::CheckScript);
    }
    if tx.load_cell_lock_hash(2, Source::Input).is_ok() {
        return Err(SilentBerryError::TxStructure);
    }
    Ok(())
}

/// The verdict on the transaction in which the listing runs. With the
/// digital object among the outputs the object is sold: its content is
/// unchanged, the account book takes part on both sides, and a buy intent is
/// consumed. Without it the listing is revoked.
pub open spec fn spec_program_entry2(tx: &Transaction) -> Result<(), SilentBerryError> {
    match spec_load_verified_data(tx) {
        Err(e) => Err(e),
        Ok(data) => match spec_get_spore_cell_index(tx, data.spore_code_hash) {
            Err(e) => Err(e),
            Ok(Some(spore_index)) => match spec_check_spore_data(
                tx,
                spore_index as int,
                data.spore_data_hash,
            ) {
                Err(e) => Err(e),
                Ok(()) => match spec_check_account_book(tx, data.account_book_script_hash) {
                    Err(e) => Err(e),
                    Ok(()) => spec_check_buy_intent_code_hash(tx, data.buy_intent_code_hash),
                },
            },
            Ok(None) => spec_revocation(tx, data),
        },
    }
}

/// Judges the transaction in which the listing runs.
pub fn program_entry2(tx: &Transaction) -> (r: Result<(), SilentBerryError>)
    ensures
        r == spec_program_entry2(tx),
{
    let witness_data = load_verified_data(tx)?;
    let spore_index = get_spore_cell_index(tx, witness_data.spore_code_hash)?;
    if let Some(spore_index) = spore_index {
        check_spore_data(tx, spore_index, witness_data.spore_data_hash)?;
        check_account_book(tx, witness_data.account_book_script_hash)?;
        check_buy_intent_code_hash(tx, witness_data.buy_intent_code_hash)?;
    } else {
        revocation(tx, witness_data)?;
    }
    Ok(())
}

/// The exit status of the listing: 0 when the transaction is accepted, else
/// the number of the failure.
pub fn program_entry(tx: &Transaction) -> (status: i8)
    ensures
        status == crate::error::spec_exit_code(spec_program_entry2(tx)),
        (status == 0) == spec_program_entry2(tx).is_ok(),
{
    exit_code(program_entry2(tx))
}

} // verus!
