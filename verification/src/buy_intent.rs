//! The buy intent: a payment held for a listing until the sale goes through
//! or the intent expires and the payment returns to its owner.
use crate::error::{exit_code, SilentBerryError};
use crate::hash::ckb_hash_spec;
use crate::since::{check_since, spec_check_since};
use crate::tx::{
    get_indexs, lemma_matching_indexs, load_args_to_hash, matching_indexs, Cell, HashField, Source,
    Transaction,
};
use crate::types::account_book::AccountBookCellData;
use crate::types::intent::{BuyIntentData, BuyIntentDataView};
use crate::udt_info::{spec_udt_info, UDTInfo};
use crate::utils::{load_buy_intent_data, spec_load_buy_intent_data};
use vstd::prelude::*;

verus! {

/// Whether the intent record stands among the inputs (`true`) or among the
/// outputs (`false`) of the transaction. It must stand on exactly one side,
/// and once there, else a `TxStructure` failure.
pub open spec fn spec_is_input(tx: &Transaction) -> Result<bool, SilentBerryError> {
    if tx.has_cell(0, Source::GroupInput) == tx.has_cell(0, Source::GroupOutput) {
        Err(SilentBerryError::TxStructure)
    } else if tx.has_cell(1, Source::GroupInput) || tx.has_cell(1, Source::GroupOutput) {
        Err(SilentBerryError::TxStructure)
    } else {
        Ok(tx.has_cell(0, Source::GroupInput))
    }
}

/// On which side of the transaction the intent record stands.
pub fn is_input(tx: &Transaction) -> (r: Result<bool, SilentBerryError>)
    ensures
        r == spec_is_input(tx),
{
    let input = tx.load_cell(0, Source::GroupInput).is_ok();
    let output = tx.load_cell(0, Source::GroupOutput).is_ok();
    if input == output {
        return Err(SilentBerryError::TxStructure);
    }
    if tx.load_cell(1, Source::GroupInput).is_ok() {
        return Err(SilentBerryError::TxStructure);
    }
    if tx.load_cell(1, Source::GroupOutput).is_ok() {
        return Err(SilentBerryError::TxStructure);
    }
    Ok(input)
}

/// The side on which the intent record stands.
pub open spec fn spec_group_source(is_input: bool) -> Source {
    if is_input {
        Source::GroupInput
    } else {
        Source::GroupOutput
    }
}

/// The intent record and the account book it is meant for. The arguments of
/// the running script are two hashes: the identity of the account book, then
/// the hash of the record. Other arguments, or a record with another hash,
/// are a `VerifiedData` failure.
pub open spec fn spec_load_verified_data(tx: &Transaction, is_input: bool) -> Result<
    (BuyIntentDataView, Seq<u8>),
    SilentBerryError,
> {
    if tx.script.args@.len() != 64 {
        Err(SilentBerryError::VerifiedData)
    } else {
        match spec_load_buy_intent_data(tx, 0, spec_group_source(is_input)) {
            Err(e) => Err(e),
            Ok(data) => if ckb_hash_spec(data.encode()) != tx.script.args@.subrange(32, 64) {
                Err(SilentBerryError::VerifiedData)
            } else {
                Ok((data, tx.script.args@.subrange(0, 32)))
            },
        }
    }
}

/// Loads the intent record and checks it against the arguments of the
/// running script.
pub fn load_verified_data(tx: &Transaction, is_input: bool) -> (r: Result<
    (BuyIntentData, crate::hash::Hash),
    SilentBerryError,
>)
    ensures
        match r {
            Ok((data, book)) => spec_load_verified_data(tx, is_input) == Ok::<
                (BuyIntentDataView, Seq<u8>),
                SilentBerryError,
            >((data@, book@)),
            Err(e) => spec_load_verified_data(tx, is_input) == Err::<
                (BuyIntentDataView, Seq<u8>),
                SilentBerryError,
            >(e),
        },
{
    let args = load_args_to_hash(tx)?;
    if args.len() != 2 {
        return Err(SilentBerryError::VerifiedData);
    }
    let source = if is_input {
        Source::GroupInput
    } else {
        Source::GroupOutput
    };
    let witness_data = load_buy_intent_data(tx, 0, source)?;
    let encoded = witness_data.as_bytes();
    let book = args[0];
    let expected = args[1];
    if crate::hash::Hash::ckb_hash(encoded.as_slice()) != expected {
        return Err(SilentBerryError::VerifiedData);
    }
    Ok((witness_data, book))
}

/// The position of the listing among the inputs: the one input locked by
/// the script `dob_selling_hash`. None or several are a `CheckScript`
/// failure.
pub open spec fn spec_check_input_dob_selling(tx: &Transaction, dob_selling_hash: Seq<u8>) -> Result<
    usize,
    SilentBerryError,
> {
    let indexs = matching_indexs(tx.inputs@, HashField::LockHash, dob_selling_hash);
    if indexs.len() != 1 {
        Err(SilentBerryError::CheckScript)
    } else {
        Ok(indexs[0])
    }
}

/// The position of the listing among the inputs.
pub fn check_input_dob_selling(tx: &Transaction, dob_selling_hash: crate::hash::Hash) -> (r: Result<
    usize,
    SilentBerryError,
>)
    ensures
        r == spec_check_input_dob_selling(tx, dob_selling_hash@),
{
    let indexs = get_indexs(tx, HashField::LockHash, &dob_selling_hash, Source::Input);
    if indexs.len() != 1 {
        Err(SilentBerryError::CheckScript)
    } else {
        Ok(indexs[0])
    }
}

/// Whether every cell has a type script.
pub open spec fn spec_all_typed(cells: Seq<Cell>) -> bool {
    forall|i: int| 0 <= i < cells.len() ==> (#[trigger] cells[i]).type_script is Some
}

/// Whether every cell of a side has a type script.
pub fn all_typed(tx: &Transaction, source: Source) -> (r: bool)
    ensures
        r == spec_all_typed(tx.cells(source)),
{
    let cells = tx.source_cells(source);
    let mut i: usize = 0;
    while i < cells.len()
        invariant
            cells@ == tx.cells(source),
            i <= cells@.len(),
            forall|j: int| 0 <= j < i ==> (#[trigger] cells@[j]).type_script is Some,
        decreases cells@.len() - i,
    {
        if cells[i].type_script.is_none() {
            return false;
        }
        i += 1;
    }
    true
}

/// Whether the account book `book` is among the inputs: then the intent is
/// fulfilled, else it is revoked. The account book is looked for by the type
/// script of every input, so an input without one cannot be judged and is an
/// `Unknow` failure; several inputs of the account book are a `CheckScript`
/// failure.
pub open spec fn spec_has_account_book(tx: &Transaction, book: Seq<u8>) -> Result<
    bool,
    SilentBerryError,
> {
    if !spec_all_typed(tx.inputs@) {
        Err(SilentBerryError::Unknow)
    } else if matching_indexs(tx.inputs@, HashField::TypeHash, book).len() > 1 {
        Err(SilentBerryError::CheckScript)
    } else {
        Ok(matching_indexs(tx.inputs@, HashField::TypeHash, book).len() == 1)
    }
}

/// Whether the account book is among the inputs.
pub fn has_account_book(tx: &Transaction, account_book_hash: &crate::hash::Hash) -> (r: Result<
    bool,
    SilentBerryError,
>)
    ensures
        r == spec_has_account_book(tx, account_book_hash@),
{
    if !all_typed(tx, Source::Input) {
        return Err(SilentBerryError::Unknow);
    }
    let count = get_indexs(tx, HashField::TypeHash, account_book_hash, Source::Input).len();
    if count > 1 {
        return Err(SilentBerryError::CheckScript);
    }
    Ok(count == 1)
}

/// The account book that takes the payment: exactly one output carries the
/// script `book` (`CheckScript`), it holds a ledger cell (`MolVerification`),
/// and the price of that ledger is the price of the intent (`VerifiedData`).
pub open spec fn spec_check_account_book(tx: &Transaction, book: Seq<u8>, price: u128) -> Result<
    (),
    SilentBerryError,
> {
    let indexs = matching_indexs(tx.outputs@, HashField::TypeHash, book);
    if indexs.len() != 1 {
        Err(SilentBerryError::CheckScript)
    } else {
        match AccountBookCellData::spec_parse(tx.outputs@[indexs[0] as int].data@) {
            None => Err(SilentBerryError::MolVerification),
            Some(cell) => if cell.price != price {
                Err(SilentBerryError::VerifiedData)
            } else {
                Ok(())
            },
        }
    }
}

/// Checks the account book that takes the payment.
pub fn check_account_book(tx: &Transaction, account_book_hash: crate::hash::Hash, price: u128) -> (r:
    Result<(), SilentBerryError>)
    ensures
        r == spec_check_account_book(tx, account_book_hash@, price),
{
    let indexs = get_indexs(tx, HashField::TypeHash, &account_book_hash, Source::Output);
    if indexs.len() != 1 {
        return Err(SilentBerryError::CheckScript);
    }
    proof {
        assert(tx.outputs@.len() == tx.outputs.len());
        lemma_matching_indexs(tx.outputs@, HashField::TypeHash, account_book_hash@);
    }
    let cell_data = AccountBookCellData::from_slice(tx.outputs[indexs[0]].data.as_slice())?;
    if cell_data.price != price {
        return Err(SilentBerryError::VerifiedData);
    }
    Ok(())
}

/// The amount of the first token position from `start` on that stands at
/// `index`, if there is one.
pub open spec fn spec_amount_at(entries: Seq<(u128, usize)>, index: usize, start: int) -> Option<
    u128,
>
    decreases entries.len() - start,
{
    if start < 0 || start >= entries.len() {
        None
    } else if entries[start].1 == index {
        Some(entries[start].0)
    } else {
        spec_amount_at(entries, index, start + 1)
    }
}

/// What the amount at a position is: that of the first token position from
/// `start` on that stands there, with none before it.
pub proof fn lemma_amount_at(entries: Seq<(u128, usize)>, index: usize, start: int)
    requires
        0 <= start,
    ensures
        match spec_amount_at(entries, index, start) {
            Some(amount) => exists|k: int|
                {
                    &&& start <= k < entries.len()
                    &&& #[trigger] entries[k] == (amount, index)
                    &&& forall|j: int| start <= j < k ==> (#[trigger] entries[j]).1 != index
                },
            None => forall|j: int| start <= j < entries.len() ==> (#[trigger] entries[j]).1 != index,
        },
    decreases entries.len() - start,
{
    if start < entries.len() {
        if entries[start].1 == index {
            assert(entries[start] == (entries[start].0, index));
        } else {
            lemma_amount_at(entries, index, start + 1);
        }
    }
}

/// The amount of the token position that stands at `index`: that of the
/// first such position, or nothing where none stands there.
pub fn amount_at(entries: &Vec<(u128, usize)>, index: usize) -> (r: Option<u128>)
    ensures
        r == spec_amount_at(entries@, index, 0),
        r matches Some(amount) ==> exists|k: int|
            {
                &&& 0 <= k < entries@.len()
                &&& #[trigger] entries@[k] == (amount, index)
                &&& forall|j: int| 0 <= j < k ==> (#[trigger] entries@[j]).1 != index
            },
        r is None ==> forall|j: int| 0 <= j < entries@.len() ==> (#[trigger] entries@[j]).1 != index,
{
    proof {
        lemma_amount_at(entries@, index, 0);
    }
    let mut i: usize = 0;
    while i < entries.len()
        invariant
            i <= entries@.len(),
            spec_amount_at(entries@, index, 0) == spec_amount_at(entries@, index, i as int),
        decreases entries@.len() - i,
    {
        if entries[i].1 == index {
            proof {
                lemma_amount_at(entries@, index, 0);
            }
            return Some(entries[i].0);
        }
        i += 1;
    }
    None
}

/// The verdict on the creation of an intent. Exactly one output is locked
/// by the listing (`CheckScript`); it is a token position (`CheckScript`)
/// that holds exactly the price (`CheckXUDT`); and the intent cell holds no
/// more capacity than the record allows (`CapacityError`).
pub open spec fn spec_create_intent(
    tx: &Transaction,
    data: BuyIntentDataView,
    outputs: Seq<(u128, usize)>,
) -> Result<(), SilentBerryError> {
    let indexs = matching_indexs(tx.outputs@, HashField::LockHash, data.dob_selling_script_hash);
    if indexs.len() != 1 {
        Err(SilentBerryError::CheckScript)
    } else {
        match spec_amount_at(outputs, indexs[0], 0) {
            None => Err(SilentBerryError::CheckScript),
            Some(paid) => if paid != data.price {
                Err(SilentBerryError::CheckXUDT)
            } else if !tx.has_cell(0, Source::GroupOutput) {
                Err(SilentBerryError::SysError)
            } else if tx.cell(0, Source::GroupOutput).capacity > data.min_capacity {
                Err(SilentBerryError::CapacityError)
            } else {
                Ok(())
            },
        }
    }
}

/// Judges the creation of an intent.
pub fn create_intent(tx: &Transaction, witness_data: BuyIntentData, udt_info: UDTInfo) -> (r: Result<
    (),
    SilentBerryError,
>)
    ensures
        r == spec_create_intent(tx, witness_data@, udt_info.outputs@),
{
    let indexs = get_indexs(
        tx,
        HashField::LockHash,
        &witness_data.dob_selling_script_hash,
        Source::Output,
    );
    if indexs.len() != 1 {
        return Err(SilentBerryError::CheckScript);
    }
    let dob_selling_index: usize = indexs[0];
    let price: u128 = witness_data.price;
    let dob_selling_price = match amount_at(&udt_info.outputs, dob_selling_index) {
        Some(paid) => paid,
        None => {
            return Err(SilentBerryError::CheckScript);
        },
    };
    if dob_selling_price != price {
        return Err(SilentBerryError::CheckXUDT);
    }
    let capacity: u64 = match tx.load_cell(0, Source::GroupOutput) {
        Ok(c) => c.capacity,
        Err(_) => {
            return Err(SilentBerryError::SysError);
        },
    };
    let buy_intent_capacity: u64 = witness_data.min_capacity;
    if capacity > buy_intent_capacity {
        return Err(SilentBerryError::CapacityError);
    }
    Ok(())
}

/// The verdict on a fulfilled intent: the account book takes the payment at
/// the intent's price, and the listing is consumed with it.
pub open spec fn spec_selling(tx: &Transaction, data: BuyIntentDataView, book: Seq<u8>) -> Result<
    (),
    SilentBerryError,
> {
    match spec_check_account_book(tx, book, data.price) {
        Err(e) => Err(e),
        Ok(()) => match spec_check_input_dob_selling(tx, data.dob_selling_script_hash) {
            Err(e) => Err(e),
            Ok(_) => Ok(()),
        },
    }
}

/// Judges a fulfilled intent.
pub fn selling(tx: &Transaction, witness_data: BuyIntentData, accountbook_hash: crate::hash::Hash) -> (r:
    Result<(), SilentBerryError>)
    ensures
        r == spec_selling(tx, witness_data@, accountbook_hash@),
{
    check_account_book(tx, accountbook_hash, witness_data.price)?;
    check_input_dob_selling(tx, witness_data.dob_selling_script_hash)?;
    Ok(())
}

/// The verdict on a revoked intent, once the expiry has been compared. An
/// expiry that is not reached is an `ExpireSince` failure. Past the expiry
/// the listing is the first input, and the second output returns to the
/// owner with no type script attached; anything else is a `CheckScript`
/// failure.
pub open spec fn spec_revocation_after(
    tx: &Transaction,
    data: BuyIntentDataView,
    expired: Result<bool, SilentBerryError>,
) -> Result<(), SilentBerryError> {
    match expired {
        Err(e) => Err(e),
        Ok(false) => Err(SilentBerryError::ExpireSince),
        Ok(true) => match spec_check_input_dob_selling(tx, data.dob_selling_script_hash) {
            Err(e) => Err(e),
            Ok(dob_selling_index) => if dob_selling_index != 0 {
                Err(SilentBerryError::CheckScript)
            } else if !tx.has_cell(1, Source::Output) {
                Err(SilentBerryError::SysError)
            } else if tx.cell(1, Source::Output).lock.hash@ != data.owner_script_hash {
                Err(SilentBerryError::CheckScript)
            } else if tx.cell(1, Source::Output).type_script is Some {
                Err(SilentBerryError::CheckScript)
            } else {
                Ok(())
            },
        },
    }
}

/// Judges a revoked intent, given the outcome of the comparison with the
/// expiry.
pub fn revocation_after(
    tx: &Transaction,
    witness_data: &BuyIntentData,
    expired: Result<bool, SilentBerryError>,
) -> (r: Result<(), SilentBerryError>)
    ensures
        r == spec_revocation_after(tx, witness_data@, expired),
{
    if !(expired?) {
        return Err(SilentBerryError::ExpireSince);
    }
    let dob_selling_index = check_input_dob_selling(tx, witness_data.dob_selling_script_hash)?;
    if dob_selling_index != 0 {
        return Err(SilentBerryError::CheckScript);
    }
    let returned = match tx.load_cell(1, Source::Output) {
        Ok(c) => c,
        Err(_) => {
            return Err(SilentBerryError::SysError);
        },
    };
    if witness_data.owner_script_hash != returned.lock.hash {
        return Err(SilentBerryError::CheckScript);
    }
    if returned.type_script.is_some() {
        return Err(SilentBerryError::CheckScript);
    }
    Ok(())
}

/// The verdict on a revoked intent: the elapsed time that the intent's
/// input declares is compared with the expiry of the record, and the rest is
/// judged by [`spec_revocation_after`].
pub open spec fn spec_revocation(tx: &Transaction, data: BuyIntentDataView) -> Result<
    (),
    SilentBerryError,
> {
    spec_revocation_after(tx, data, spec_check_since(tx, 0, Source::GroupInput, data.expire_since))
}

/// Judges a revoked intent.
pub fn revocation(tx: &Transaction, witness_data: BuyIntentData, _udt_info: UDTInfo) -> (r: Result<
    (),
    SilentBerryError,
>)
    ensures
        r == spec_revocation(tx, witness_data@),
{
    let expired = check_since(tx, 0, Source::GroupInput, witness_data.expire_since);
    revocation_after(tx, &witness_data, expired)
}

/// The verdict on the transaction in which the buy intent runs. The token
/// of the intent must be conserved in any case. An intent among the outputs
/// is created; one among the inputs is fulfilled when the account book is
/// among the inputs too, and revoked otherwise.
pub open spec fn spec_program_entry2(tx: &Transaction) -> Result<(), SilentBerryError> {
    match spec_is_input(tx) {
        Err(e) => Err(e),
        Ok(is_input) => match spec_load_verified_data(tx, is_input) {
            Err(e) => Err(e),
            Ok((data, book)) => match spec_udt_info(tx, data.xudt_script_hash) {
                Err(e) => Err(e),
                Ok((inputs, outputs)) => if is_input {
                    match spec_has_account_book(tx, book) {
                        Err(e) => Err(e),
                        Ok(true) => spec_selling(tx, data, book),
                        Ok(false) => spec_revocation(tx, data),
                    }
                } else {
                    spec_create_intent(tx, data, outputs)
                },
            },
        },
    }
}

/// Judges the transaction in which the buy intent runs.
pub fn program_entry2(tx: &Transaction) -> (r: Result<(), SilentBerryError>)
    ensures
        r == spec_program_entry2(tx),
{
    let is_input = is_input(tx)?;
    let (witness_data, accountbook_hash) = load_verified_data(tx, is_input)?;
    let udt_info = UDTInfo::new(tx, witness_data.xudt_script_hash)?;
    if is_input {
        if has_account_book(tx, &accountbook_hash)? {
            selling(tx, witness_data, accountbook_hash)
        } else {
            revocation(tx, witness_data, udt_info)
        }
    } else {
        create_intent(tx, witness_data, udt_info)
    }
}

/// The exit status of the buy intent: 0 when the transaction is accepted,
/// else the number of the failure.
pub fn program_entry(tx: &Transaction) -> (status: i8)
    ensures
        status == crate::error::spec_exit_code(spec_program_entry2(tx)),
        (status == 0) == spec_program_entry2(tx).is_ok(),
{
    exit_code(program_entry2(tx))
}

/// Every transaction that the buy intent accepts conserves the token that
/// the intent pays in: its amounts add up to the same total on both sides.
pub proof fn theorem_token_conserved(tx: &Transaction)
    requires
        spec_program_entry2(tx) is Ok,
    ensures
        spec_is_input(tx) is Ok,
        spec_load_verified_data(tx, spec_is_input(tx).unwrap()) is Ok,
        spec_udt_info(
            tx,
            spec_load_verified_data(tx, spec_is_input(tx).unwrap()).unwrap().0.xudt_script_hash,
        ) matches Ok((inputs, outputs)) && crate::udt_info::udt_sum(inputs)
            == crate::udt_info::udt_sum(outputs),
{
}

/// A buy intent is created with exactly its price paid to the listing, and
/// never with more capacity than its record allows.
pub proof fn theorem_created_at_its_price(tx: &Transaction)
    requires
        spec_program_entry2(tx) is Ok,
        spec_is_input(tx) == Ok::<bool, SilentBerryError>(false),
    ensures
        ({
            let data = spec_load_verified_data(tx, false).unwrap().0;
            let outputs = spec_udt_info(tx, data.xudt_script_hash).unwrap().1;
            let listing = matching_indexs(
                tx.outputs@,
                HashField::LockHash,
                data.dob_selling_script_hash,
            );
            &&& listing.len() == 1
            &&& spec_amount_at(outputs, listing[0], 0) == Some(data.price)
            &&& tx.cell(0, Source::GroupOutput).capacity <= data.min_capacity
        }),
{
}

} // verus!
