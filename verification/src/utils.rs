//! Loading the structured records that a transaction attaches to its
//! positions.
use crate::error::SilentBerryError;
use crate::tx::{opt_bytes, Source, Transaction, Witness, WitnessArgs};
use crate::types::account_book::{
    AccountBookCellData, AccountBookCellDataView, AccountBookData, AccountBookDataView,
};
use crate::types::intent::{
    BuyIntentData, BuyIntentDataView, WithdrawalIntentData, WithdrawalIntentDataView,
};
use vstd::prelude::*;

verus! {

/// One of the three byte strings of an attached payload.
#[derive(Clone, Copy, Debug, PartialEq, Eq, Structural)]
pub enum WitnessField {
    Lock,
    InputType,
    OutputType,
}

impl WitnessArgs {
    /// The bytes of one field of the payload, if the field is present.
    pub open spec fn spec_field(&self, field: WitnessField) -> Option<Seq<u8>> {
        match field {
            WitnessField::Lock => opt_bytes(self.lock),
            WitnessField::InputType => opt_bytes(self.input_type),
            WitnessField::OutputType => opt_bytes(self.output_type),
        }
    }
}

/// The bytes of one field of the payload attached to a position. A position
/// without a payload is a `SysError` failure; a payload without the field
/// fails with `missing`.
pub open spec fn spec_witness_field(
    tx: &Transaction,
    index: int,
    source: Source,
    field: WitnessField,
    missing: SilentBerryError,
) -> Result<Seq<u8>, SilentBerryError> {
    if !tx.has_cell(index, source) {
        Err(SilentBerryError::SysError)
    } else {
        match tx.cell(index, source).witness {
            Witness::Args(w) => match w.spec_field(field) {
                Some(bytes) => Ok(bytes),
                None => Err(missing),
            },
            _ => Err(SilentBerryError::SysError),
        }
    }
}

/// Loads one field of the payload attached to a position.
pub fn load_witness_field<'a>(
    tx: &'a Transaction,
    index: usize,
    source: Source,
    field: WitnessField,
    missing: SilentBerryError,
) -> (r: Result<&'a Vec<u8>, SilentBerryError>)
    ensures
        match r {
            Ok(bytes) => spec_witness_field(tx, index as int, source, field, missing) == Ok::<
                Seq<u8>,
                SilentBerryError,
            >(bytes@),
            Err(e) => spec_witness_field(tx, index as int, source, field, missing) == Err::<
                Seq<u8>,
                SilentBerryError,
            >(e),
        },
{
    let witness = match tx.load_witness_args(index, source) {
        Ok(w) => w,
        Err(_) => {
            return Err(SilentBerryError::SysError);
        },
    };
    let found = match field {
        WitnessField::Lock => &witness.lock,
        WitnessField::InputType => &witness.input_type,
        WitnessField::OutputType => &witness.output_type,
    };
    match found {
        Some(bytes) => Ok(bytes),
        None => Err(missing),
    }
}

/// The field of a payload that speaks of the cell on this side: the input
/// field for an input, the output field for an output.
pub open spec fn spec_type_field(source: Source) -> WitnessField {
    if source.spec_is_input() {
        WitnessField::InputType
    } else {
        WitnessField::OutputType
    }
}

/// The buy intent attached to a position: a `ParseWitness` failure where
/// the payload lacks the field of that side, a `MolVerification` failure
/// where the field holds no buy intent.
pub open spec fn spec_load_buy_intent_data(tx: &Transaction, index: int, source: Source) -> Result<
    BuyIntentDataView,
    SilentBerryError,
> {
    match spec_witness_field(
        tx,
        index,
        source,
        spec_type_field(source),
        SilentBerryError::ParseWitness,
    ) {
        Ok(bytes) => match BuyIntentData::spec_parse(bytes) {
            Some(v) => Ok(v),
            None => Err(SilentBerryError::MolVerification),
        },
        Err(e) => Err(e),
    }
}

/// Loads the buy intent attached to a position.
pub fn load_buy_intent_data(tx: &Transaction, index: usize, source: Source) -> (r: Result<
    BuyIntentData,
    SilentBerryError,
>)
    ensures
        match r {
            Ok(v) => spec_load_buy_intent_data(tx, index as int, source) == Ok::<
                BuyIntentDataView,
                SilentBerryError,
            >(v@),
            Err(e) => spec_load_buy_intent_data(tx, index as int, source) == Err::<
                BuyIntentDataView,
                SilentBerryError,
            >(e),
        },
{
    let field = if source.is_input() {
        WitnessField::InputType
    } else {
        WitnessField::OutputType
    };
    let bytes = load_witness_field(tx, index, source, field, SilentBerryError::ParseWitness)?;
    BuyIntentData::from_slice(bytes.as_slice())
}

/// The witness of a transition attached to a position, always read from the
/// output field: a `ParseWitness` failure where the payload lacks it, a
/// `MolVerification` failure where it holds no witness.
pub open spec fn spec_load_account_book_data(
    tx: &Transaction,
    index: int,
    source: Source,
) -> Result<AccountBookDataView, SilentBerryError> {
    match spec_witness_field(
        tx,
        index,
        source,
        WitnessField::OutputType,
        SilentBerryError::ParseWitness,
    ) {
        Ok(bytes) => match AccountBookData::spec_parse(bytes) {
            Some(v) => Ok(v),
            None => Err(SilentBerryError::MolVerification),
        },
        Err(e) => Err(e),
    }
}

/// Loads the witness of a transition attached to a position.
pub fn load_account_book_data(tx: &Transaction, index: usize, source: Source) -> (r: Result<
    AccountBookData,
    SilentBerryError,
>)
    ensures
        match r {
            Ok(v) => spec_load_account_book_data(tx, index as int, source) == Ok::<
                AccountBookDataView,
                SilentBerryError,
            >(v@),
            Err(e) => spec_load_account_book_data(tx, index as int, source) == Err::<
                AccountBookDataView,
                SilentBerryError,
            >(e),
        },
{
    let bytes = load_witness_field(
        tx,
        index,
        source,
        WitnessField::OutputType,
        SilentBerryError::ParseWitness,
    )?;
    AccountBookData::from_slice(bytes.as_slice())
}

/// The ledger cell held as the data of a position: a `SysError` failure
/// where there is no such position, a `MolVerification` failure where the
/// data is no ledger cell.
pub open spec fn spec_load_account_book_cell_data(
    tx: &Transaction,
    index: int,
    source: Source,
) -> Result<AccountBookCellDataView, SilentBerryError> {
    if !tx.has_cell(index, source) {
        Err(SilentBerryError::SysError)
    } else {
        match AccountBookCellData::spec_parse(tx.cell(index, source).data@) {
            Some(v) => Ok(v),
            None => Err(SilentBerryError::MolVerification),
        }
    }
}

/// Loads the ledger cell held as the data of a position.
pub fn load_account_book_cell_data(tx: &Transaction, index: usize, source: Source) -> (r: Result<
    AccountBookCellData,
    SilentBerryError,
>)
    ensures
        match r {
            Ok(v) => spec_load_account_book_cell_data(tx, index as int, source) == Ok::<
                AccountBookCellDataView,
                SilentBerryError,
            >(v@),
            Err(e) => spec_load_account_book_cell_data(tx, index as int, source) == Err::<
                AccountBookCellDataView,
                SilentBerryError,
            >(e),
        },
{
    let cell = match tx.load_cell(index, source) {
        Ok(c) => c,
        Err(_) => {
            return Err(SilentBerryError::SysError);
        },
    };
    AccountBookCellData::from_slice(cell.data.as_slice())
}

/// Alias of [`load_account_book_cell_data`].
pub fn load_account_bool_cell_data(tx: &Transaction, index: usize, source: Source) -> (r: Result<
    AccountBookCellData,
    SilentBerryError,
>)
    ensures
        match r {
            Ok(v) => spec_load_account_book_cell_data(tx, index as int, source) == Ok::<
                AccountBookCellDataView,
                SilentBerryError,
            >(v@),
            Err(e) => spec_load_account_book_cell_data(tx, index as int, source) == Err::<
                AccountBookCellDataView,
                SilentBerryError,
            >(e),
        },
{
    load_account_book_cell_data(tx, index, source)
}

/// The withdrawal intent attached to a position, read from the input field
/// when `is_input` and from the output field otherwise: an `Unknow` failure
/// where the payload lacks the field, a `MolVerification` failure where the
/// field holds no withdrawal intent.
pub open spec fn spec_load_withdrawal_data(
    tx: &Transaction,
    index: int,
    source: Source,
    is_input: bool,
) -> Result<WithdrawalIntentDataView, SilentBerryError> {
    match spec_witness_field(
        tx,
        index,
        source,
        if is_input {
            WitnessField::InputType
        } else {
            WitnessField::OutputType
        },
        SilentBerryError::Unknow,
    ) {
        Ok(bytes) => match WithdrawalIntentData::spec_parse(bytes) {
            Some(v) => Ok(v),
            None => Err(SilentBerryError::MolVerification),
        },
        Err(e) => Err(e),
    }
}

/// Loads the withdrawal intent attached to a position.
pub fn load_withdrawal_data(tx: &Transaction, index: usize, source: Source, is_input: bool) -> (r:
    Result<WithdrawalIntentData, SilentBerryError>)
    ensures
        match r {
            Ok(v) => spec_load_withdrawal_data(tx, index as int, source, is_input) == Ok::<
                WithdrawalIntentDataView,
                SilentBerryError,
            >(v@),
            Err(e) => spec_load_withdrawal_data(tx, index as int, source, is_input) == Err::<
                WithdrawalIntentDataView,
                SilentBerryError,
            >(e),
        },
{
    let field = if is_input {
        WitnessField::InputType
    } else {
        WitnessField::OutputType
    };
    let bytes = load_witness_field(tx, index, source, field, SilentBerryError::Unknow)?;
    WithdrawalIntentData::from_slice(bytes.as_slice())
}

} // verus!
