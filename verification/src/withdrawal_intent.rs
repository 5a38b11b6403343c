//! The withdrawal intent: a request for a share of the income, held until
//! the account book pays it out or the request expires.
use crate::buy_intent::{spec_group_source, spec_is_input};
use crate::error::{exit_code, SilentBerryError};
use crate::hash::ckb_hash_spec;
use crate::since::{check_since, spec_check_since};
use crate::spore::{get_spore_level, spec_get_spore_level, SporeData};
use crate::tx::{
    any_cell, get_indexs, has_match, lemma_matching_indexs, load_args_to_hash, matching_indexs, Cell,
    HashField, Source, Transaction,
};
use crate::types::intent::{
    WithdrawalBuyer, WithdrawalBuyerView, WithdrawalIntentData, WithdrawalIntentDataView,
    WithdrawalSporeInfo, WithdrawalSporeInfoView,
};
use crate::udt_info::{spec_udt_info, UDTInfo};
use crate::utils::{load_withdrawal_data, spec_load_withdrawal_data};
use vstd::prelude::*;

verus! {

/// Whether the intent record stands among the inputs or among the outputs;
/// it must stand on exactly one side, and once there.
pub fn is_input(tx: &Transaction) -> (r: Result<bool, SilentBerryError>)
    ensures
        r == spec_is_input(tx),
{
    crate::buy_intent::is_input(tx)
}

/// The intent record and the account book it is meant for. The arguments of
/// the running script are two hashes: the identity of the account book, then
/// the hash of the record. Other arguments, or a record with another hash,
/// are a `VerifiedData` failure.
pub open spec fn spec_load_verified_data(tx: &Transaction, is_input: bool) -> Result<
    (WithdrawalIntentDataView, Seq<u8>),
    SilentBerryError,
> {
    if tx.script.args@.len() != 64 {
        Err(SilentBerryError::VerifiedData)
    } else {
        match spec_load_withdrawal_data(tx, 0, spec_group_source(is_input), is_input) {
            Err(e) => Err(e),
            Ok(data) => if ckb_hash_spec(data.encode()) != tx.script.args@.subrange(32, 64) {
                Err(SilentBerryError::VerifiedData)
            } else {
                Ok((data, tx.script.args@.subrange(0, 32)))
            },
        }
    }
}

/// Loads the intent record and checks it against the arguments of the
/// running script.
pub fn load_verified_data(tx: &Transaction, is_input: bool) -> (r: Result<
    (WithdrawalIntentData, crate::hash::Hash),
    SilentBerryError,
>)
    ensures
        match r {
            Ok((data, book)) => spec_load_verified_data(tx, is_input) == Ok::<
                (WithdrawalIntentDataView, Seq<u8>),
                SilentBerryError,
            >((data@, book@)),
            Err(e) => spec_load_verified_data(tx, is_input) == Err::<
                (WithdrawalIntentDataView, Seq<u8>),
                SilentBerryError,
            >(e),
        },
{
    let args = load_args_to_hash(tx)?;
    if args.len() != 2 {
        return Err(SilentBerryError::VerifiedData);
    }
    let source = if is_input {
        Source::GroupInput
    } else {
        Source::GroupOutput
    };
    let witness_data = load_withdrawal_data(tx, 0, source, is_input)?;
    let encoded = witness_data.as_bytes();
    let book = args[0];
    let expected = args[1];
    if crate::hash::Hash::ckb_hash(encoded.as_slice()) != expected {
        return Err(SilentBerryError::VerifiedData);
    }
    Ok((witness_data, book))
}

/// The data of the one cell among `cells` that carries the program
/// `code_hash` as its type; none or several are a `TxStructure` failure.
pub open spec fn spec_only_data(cells: Seq<Cell>, code_hash: Seq<u8>) -> Result<
    Seq<u8>,
    SilentBerryError,
> {
    let indexs = matching_indexs(cells, HashField::TypeCodeHash, code_hash);
    if indexs.len() != 1 {
        Err(SilentBerryError::TxStructure)
    } else {
        Ok(cells[indexs[0] as int].data@)
    }
}

/// The data of the one cell of a side that carries a program as its type.
pub fn only_data<'a>(tx: &'a Transaction, code_hash: &crate::hash::Hash, source: Source) -> (r:
    Result<&'a Vec<u8>, SilentBerryError>)
    ensures
        match r {
            Ok(data) => spec_only_data(tx.cells(source), code_hash@) == Ok::<
                Seq<u8>,
                SilentBerryError,
            >(data@),
            Err(e) => spec_only_data(tx.cells(source), code_hash@) == Err::<
                Seq<u8>,
                SilentBerryError,
            >(e),
        },
{
    let indexs = get_indexs(tx, HashField::TypeCodeHash, code_hash, source);
    if indexs.len() != 1 {
        return Err(SilentBerryError::TxStructure);
    }
    let cells = tx.source_cells(source);
    proof {
        assert(cells@.len() == cells.len());
        lemma_matching_indexs(tx.cells(source), HashField::TypeCodeHash, code_hash@);
    }
    Ok(&cells[indexs[0]].data)
}

/// The verdict on what a buyer states of its digital object. Each side of
/// the transaction holds exactly one cell of the object's program
/// (`TxStructure`) and both hold the same data (`Spore`), which is a content
/// record (`MolVerification`). The record names the stated collection, the
/// type script of the first input carries the stated identity, and the
/// content declares the stated tier; a difference is a `Spore` failure, a
/// collection or identity that is no hash a `TypeConversion` failure.
pub open spec fn spec_check_spore(tx: &Transaction, info: WithdrawalSporeInfoView) -> Result<
    (),
    SilentBerryError,
> {
    match spec_only_data(tx.inputs@, info.spore_code_hash) {
        Err(e) => Err(e),
        Ok(data1) => match spec_only_data(tx.outputs@, info.spore_code_hash) {
            Err(e) => Err(e),
            Ok(data2) => if data1 != data2 {
                Err(SilentBerryError::Spore)
            } else {
                match SporeData::spec_parse(data1) {
                    None => Err(SilentBerryError::MolVerification),
                    Some(spore) => match spore.cluster_id {
                        None => Err(SilentBerryError::TypeConversion),
                        Some(cluster) => if cluster.len() != 32 {
                            Err(SilentBerryError::TypeConversion)
                        } else if cluster != info.cluster_id {
                            Err(SilentBerryError::Spore)
                        } else if !tx.has_cell(0, Source::Input) {
                            Err(SilentBerryError::SysError)
                        } else {
                            match tx.cell(0, Source::Input).type_script {
                                None => Err(SilentBerryError::Spore),
                                Some(script) => if script.args@.len() != 32 {
                                    Err(SilentBerryError::TypeConversion)
                                } else if script.args@ != info.spore_id {
                                    Err(SilentBerryError::Spore)
                                } else {
                                    match spec_get_spore_level(spore.content) {
                                        Err(e) => Err(e),
                                        Ok(level) => if info.spore_level != level {
                                            Err(SilentBerryError::Spore)
                                        } else {
                                            Ok(())
                                        },
                                    }
                                },
                            }
                        },
                    },
                }
            },
        },
    }
}

/// Judges what a buyer states of its digital object.
pub fn check_spore(tx: &Transaction, spore_info: WithdrawalSporeInfo) -> (r: Result<
    (),
    SilentBerryError,
>)
    ensures
        r == spec_check_spore(tx, spore_info@),
{
    let spore_code_hash = spore_info.spore_code_hash;
    let spore_data1 = only_data(tx, &spore_code_hash, Source::Input)?;
    let spore_data2 = only_data(tx, &spore_code_hash, Source::Output)?;
    if !crate::hash::bytes_eq(spore_data1.as_slice(), spore_data2.as_slice()) {
        return Err(SilentBerryError::Spore);
    }
    let spore_data = SporeData::from_slice(spore_data1.as_slice())?;
    let cluster_id = match &spore_data.cluster_id {
        None => {
            return Err(SilentBerryError::TypeConversion);
        },
        Some(cluster) => crate::hash::Hash::try_from_slice(cluster.as_slice())?,
    };
    if cluster_id != spore_info.cluster_id {
        return Err(SilentBerryError::Spore);
    }
    let first = match tx.load_cell(0, Source::Input) {
        Ok(c) => c,
        Err(_) => {
            return Err(SilentBerryError::SysError);
        },
    };
    let spore_id = match &first.type_script {
        None => {
            return Err(SilentBerryError::Spore);
        },
        Some(script) => crate::hash::Hash::try_from_slice(script.args.as_slice())?,
    };
    if spore_id != spore_info.spore_id {
        return Err(SilentBerryError::Spore);
    }
    let data_level: u8 = spore_info.spore_level;
    if data_level != get_spore_level(&spore_data)? {
        return Err(SilentBerryError::Spore);
    }
    Ok(())
}

/// Whether the account book `book` takes part in the transaction: then the
/// intent is paid out, else it is revoked. An account book on one side only
/// is a `TxStructure` failure.
pub open spec fn spec_has_account_book(tx: &Transaction, book: Seq<u8>) -> Result<
    bool,
    SilentBerryError,
> {
    if has_match(tx.inputs@, HashField::TypeHash, book) != has_match(
        tx.outputs@,
        HashField::TypeHash,
        book,
    ) {
        Err(SilentBerryError::TxStructure)
    } else {
        Ok(has_match(tx.inputs@, HashField::TypeHash, book))
    }
}

/// Whether the account book takes part in the transaction.
pub fn has_account_book(tx: &Transaction, hash: crate::hash::Hash) -> (r: Result<
    bool,
    SilentBerryError,
>)
    ensures
        r == spec_has_account_book(tx, hash@),
{
    let input_has = any_cell(tx, HashField::TypeHash, &hash, Source::Input);
    let output_has = any_cell(tx, HashField::TypeHash, &hash, Source::Output);
    if input_has != output_has {
        Err(SilentBerryError::TxStructure)
    } else {
        Ok(input_has)
    }
}

/// The verdict on the creation of an intent. A buyer proves what it states
/// of its digital object; any other party must lock a cell on both sides of
/// the transaction (`CheckScript`).
pub open spec fn spec_create_intent(tx: &Transaction, data: WithdrawalIntentDataView) -> Result<
    (),
    SilentBerryError,
> {
    match data.buyer {
        WithdrawalBuyerView::WithdrawalSporeInfo(info) => spec_check_spore(tx, info),
        WithdrawalBuyerView::Byte32(script_hash) => if has_match(
            tx.inputs@,
            HashField::LockHash,
            script_hash,
        ) && has_match(tx.outputs@, HashField::LockHash, script_hash) {
            Ok(())
        } else {
            Err(SilentBerryError::CheckScript)
        },
    }
}

/// Judges the creation of an intent.
pub fn create_intent(tx: &Transaction, witness_data: WithdrawalIntentData) -> (r: Result<
    (),
    SilentBerryError,
>)
    ensures
        r == spec_create_intent(tx, witness_data@),
{
    match witness_data.buyer {
        WithdrawalBuyer::WithdrawalSporeInfo(spore_info) => check_spore(tx, spore_info),
        WithdrawalBuyer::Byte32(script_hash) => {
            if !any_cell(tx, HashField::LockHash, &script_hash, Source::Input) {
                return Err(SilentBerryError::CheckScript);
            }
            if !any_cell(tx, HashField::LockHash, &script_hash, Source::Output) {
                return Err(SilentBerryError::CheckScript);
            }
            Ok(())
        },
    }
}

/// Whether some token position among `entries` names a cell locked by
/// `lock`.
pub open spec fn spec_paid_to(cells: Seq<Cell>, entries: Seq<(u128, usize)>, lock: Seq<u8>) -> bool {
    exists|k: int|
        0 <= k < entries.len() && (#[trigger] entries[k]).1 < cells.len() && cells[entries[k].1 as int].lock.hash@
            == lock
}

/// Whether some token output among `entries` is locked by `lock`.
pub fn paid_to(tx: &Transaction, entries: &Vec<(u128, usize)>, lock: &crate::hash::Hash) -> (r: bool)
    ensures
        r == spec_paid_to(tx.outputs@, entries@, lock@),
{
    let mut i: usize = 0;
    while i < entries.len()
        invariant
            i <= entries@.len(),
            forall|k: int|
                0 <= k < i ==> !((#[trigger] entries@[k]).1 < tx.outputs@.len()
                    && tx.outputs@[entries@[k].1 as int].lock.hash@ == lock@),
        decreases entries@.len() - i,
    {
        match tx.load_cell_lock_hash(entries[i].1, Source::Output) {
            Ok(hash) => {
                if *lock == hash {
                    assert(entries@[i as int].1 < tx.outputs@.len());
                    return true;
                }
            },
            Err(_) => {},
        }
        i += 1;
    }
    false
}

/// The verdict on an intent that is paid out: the token is conserved and
/// some token output is locked by the script that the record names for the
/// payout, else a `TxStructure` failure.
pub open spec fn spec_withdrawal(tx: &Transaction, data: WithdrawalIntentDataView) -> Result<
    (),
    SilentBerryError,
> {
    match spec_udt_info(tx, data.xudt_script_hash) {
        Err(e) => Err(e),
        Ok((inputs, outputs)) => if spec_paid_to(tx.outputs@, outputs, data.xudt_lock_script_hash) {
            Ok(())
        } else {
            Err(SilentBerryError::TxStructure)
        },
    }
}

/// Judges an intent that is paid out.
pub fn withdrawal(tx: &Transaction, witness_data: WithdrawalIntentData) -> (r: Result<
    (),
    SilentBerryError,
>)
    ensures
        r == spec_withdrawal(tx, witness_data@),
{
    let udt_info = UDTInfo::new(tx, witness_data.xudt_script_hash)?;
    if !paid_to(tx, &udt_info.outputs, &witness_data.xudt_lock_script_hash) {
        return Err(SilentBerryError::TxStructure);
    }
    Ok(())
}

/// The verdict on a revoked intent, once the expiry has been compared. An
/// expiry that is not reached is an `ExpireSince` failure. Past the expiry
/// the first output returns to the owner with no type script attached;
/// anything else is a `CheckScript` failure.
pub open spec fn spec_revocation_after(
    tx: &Transaction,
    data: WithdrawalIntentDataView,
    expired: Result<bool, SilentBerryError>,
) -> Result<(), SilentBerryError> {
    match expired {
        Err(e) => Err(e),
        Ok(false) => Err(SilentBerryError::ExpireSince),
        Ok(true) => if !tx.has_cell(0, Source::Output) {
            Err(SilentBerryError::SysError)
        } else if tx.cell(0, Source::Output).lock.hash@ != data.owner_script_hash {
            Err(SilentBerryError::CheckScript)
        } else if tx.cell(0, Source::Output).type_script is Some {
            Err(SilentBerryError::CheckScript)
        } else {
            Ok(())
        },
    }
}

/// Judges a revoked intent, given the outcome of the comparison with the
/// expiry.
pub fn revocation_after(
    tx: &Transaction,
    witness_data: &WithdrawalIntentData,
    expired: Result<bool, SilentBerryError>,
) -> (r: Result<(), SilentBerryError>)
    ensures
        r == spec_revocation_after(tx, witness_data@, expired),
{
    if !(expired?) {
        return Err(SilentBerryError::ExpireSince);
    }
    let returned = match tx.load_cell(0, Source::Output) {
        Ok(c) => c,
        Err(_) => {
            return Err(SilentBerryError::SysError);
        },
    };
    if witness_data.owner_script_hash != returned.lock.hash {
        return Err(SilentBerryError::CheckScript);
    }
    if returned.type_script.is_some() {
        return Err(SilentBerryError::CheckScript);
    }
    Ok(())
}

/// The verdict on a revoked intent: the elapsed time that the intent's
/// input declares is compared with the expiry of the record, and the rest is
/// judged by [`spec_revocation_after`].
pub open spec fn spec_revocation(tx: &Transaction, data: WithdrawalIntentDataView) -> Result<
    (),
    SilentBerryError,
> {
    spec_revocation_after(tx, data, spec_check_since(tx, 0, Source::GroupInput, data.expire_since))
}

/// Judges a revoked intent.
pub fn revocation(tx: &Transaction, witness_data: WithdrawalIntentData) -> (r: Result<
    (),
    SilentBerryError,
>)
    ensures
        r == spec_revocation(tx, witness_data@),
{
    let expired = check_since(tx, 0, Source::GroupInput, witness_data.expire_since);
    revocation_after(tx, &witness_data, expired)
}

/// The verdict on the transaction in which the withdrawal intent runs. An
/// intent among the outputs is created; one among the inputs is paid out
/// when the account book takes part in the transaction, and revoked
/// otherwise.
pub open spec fn spec_program_entry2(tx: &Transaction) -> Result<(), SilentBerryError> {
    match spec_is_input(tx) {
        Err(e) => Err(e),
        Ok(is_input) => match spec_load_verified_data(tx, is_input) {
            Err(e) => Err(e),
            Ok((data, book)) => if is_input {
                match spec_has_account_book(tx, book) {
                    Err(e) => Err(e),
                    Ok(true) => spec_withdrawal(tx, data),
                    Ok(false) => spec_revocation(tx, data),
                }
            } else {
                spec_create_intent(tx, data)
            },
        },
    }
}

/// Judges the transaction in which the withdrawal intent runs.
pub fn program_entry2(tx: &Transaction) -> (r: Result<(), SilentBerryError>)
    ensures
        r == spec_program_entry2(tx),
{
    let is_input = is_input(tx)?;
    let (witness_data, accountbook_hash) = load_verified_data(tx, is_input)?;
    if is_input {
        if has_account_book(tx, accountbook_hash)? {
            withdrawal(tx, witness_data)
        } else {
            revocation(tx, witness_data)
        }
    } else {
        create_intent(tx, witness_data)
    }
}

/// The exit status of the withdrawal intent: 0 when the transaction is
/// accepted, else the number of the failure.
pub fn program_entry(tx: &Transaction) -> (status: i8)
    ensures
        status == crate::error::spec_exit_code(spec_program_entry2(tx)),
        (status == 0) == spec_program_entry2(tx).is_ok(),
{
    exit_code(program_entry2(tx))
}

/// Every payout that the withdrawal intent accepts conserves the token of
/// the intent and pays some of it to the lock that the record names.
pub proof fn theorem_paid_out(tx: &Transaction)
    requires
        spec_program_entry2(tx) is Ok,
        spec_is_input(tx) == Ok::<bool, SilentBerryError>(true),
        spec_has_account_book(tx, tx.script.args@.subrange(0, 32)) == Ok::<bool, SilentBerryError>(
            true,
        ),
    ensures
        ({
            let data = spec_load_verified_data(tx, true).unwrap().0;
            &&& spec_udt_info(tx, data.xudt_script_hash) matches Ok((inputs, outputs))
                && crate::udt_info::udt_sum(inputs) == crate::udt_info::udt_sum(outputs)
                && spec_paid_to(tx.outputs@, outputs, data.xudt_lock_script_hash)
        }),
{
}

} // verus!
