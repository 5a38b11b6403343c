//! The account book: creation of the ledger, sales that add to it and
//! withdrawals that pay out of it. Every transition is judged from the
//! transaction alone.
pub mod creation;
pub mod selling;
pub mod theorems;
pub mod withdrawal;

use crate::error::{exit_code, SilentBerryError, SysError};
use crate::tx::{any_cell, get_indexs, has_match, matching_indexs, Cell, HashField, Source, Transaction};
use crate::types::account_book::{
    AccountBookCellData, AccountBookCellDataView, AccountBookData, AccountBookDataView,
};
use crate::udt_info::UDTInfo;
use crate::utils::{
    load_account_book_cell_data, load_account_book_data, spec_load_account_book_cell_data,
    spec_load_account_book_data,
};
use vstd::prelude::*;
use vstd::slice::slice_to_vec;

verus! {

/// The sum of the entries of a ratio table.
pub open spec fn ratio_sum(ratios: Seq<u8>) -> int
    decreases ratios.len(),
{
    if ratios.len() == 0 {
        0
    } else {
        ratio_sum(ratios.drop_last()) + ratios.last()
    }
}

/// Whether a ratio table fits a ledger of `level` tiers: one entry for the
/// platform, one for the author and one per tier, adding up to exactly 100.
pub open spec fn spec_ratios_ok(ratios: Seq<u8>, level: u8) -> bool {
    ratios.len() == level + 2 && ratio_sum(ratios) == 100
}

/// The ratio table of a ledger cell, if it fits `level`; an `AccountBook`
/// failure otherwise.
pub fn get_ratios(cell_data: &AccountBookCellData, level: u8) -> (r: Result<
    Vec<u8>,
    SilentBerryError,
>)
    ensures
        match r {
            Ok(ratios) => spec_ratios_ok(cell_data@.profit_distribution_ratio, level) && ratios@
                == cell_data@.profit_distribution_ratio,
            Err(e) => !spec_ratios_ok(cell_data@.profit_distribution_ratio, level) && e
                == SilentBerryError::AccountBook,
        },
{
    let buf = slice_to_vec(cell_data.profit_distribution_ratio.as_slice());
    if buf.len() != level as usize + 2 {
        return Err(SilentBerryError::AccountBook);
    }
    let mut num: u64 = 0;
    let mut i: usize = 0;
    assert(buf@.take(0) =~= Seq::<u8>::empty());
    while i < buf.len()
        invariant
            i <= buf@.len(),
            buf@.len() <= 257,
            num == ratio_sum(buf@.take(i as int)),
            num <= 255 * i,
        decreases buf@.len() - i,
    {
        assert(buf@.take(i + 1).drop_last() =~= buf@.take(i as int));
        num += buf[i] as u64;
        i += 1;
    }
    assert(buf@.take(i as int) =~= buf@);
    if num != 100 {
        return Err(SilentBerryError::AccountBook);
    }
    Ok(buf)
}

/// The invariant of a ledger cell in a ledger of `level` tiers: the ratio
/// table has one entry for the platform, one for the author and one per
/// tier, and adds up to exactly 100; the divisor table has one entry per
/// tier.
pub open spec fn spec_ledger_invariant(cell: AccountBookCellDataView, level: u8) -> bool {
    &&& spec_ratios_ok(cell.profit_distribution_ratio, level)
    &&& cell.profit_distribution_number.len() == level
}

/// Checks the invariant of a ledger cell; a cell that breaks it is an
/// `AccountBook` failure.
pub fn check_ledger(cell_data: &AccountBookCellData, level: u8) -> (r: Result<
    (),
    SilentBerryError,
>)
    ensures
        r == if spec_ledger_invariant(cell_data@, level) {
            Ok::<(), SilentBerryError>(())
        } else {
            Err::<(), SilentBerryError>(SilentBerryError::AccountBook)
        },
{
    let _ratios = get_ratios(cell_data, level)?;
    if cell_data.profit_distribution_number.len() != level as usize {
        return Err(SilentBerryError::AccountBook);
    }
    Ok(())
}

/// Whether the transaction creates the ledger: the running script is a type
/// script on an output and on no input. A transaction without such an output
/// is a `SysError` failure; an output of the group without a type script is
/// a `CheckScript` failure.
pub open spec fn spec_is_creation(tx: &Transaction) -> Result<bool, SilentBerryError> {
    if !tx.has_cell(0, Source::GroupOutput) {
        Err(SilentBerryError::SysError)
    } else if tx.cell(0, Source::GroupOutput).type_script is None {
        Err(SilentBerryError::CheckScript)
    } else {
        Ok(!tx.has_cell(0, Source::GroupInput))
    }
}

/// Whether the transaction creates the ledger.
pub fn is_creation(tx: &Transaction) -> (r: Result<bool, SilentBerryError>)
    ensures
        r == spec_is_creation(tx),
{
    match tx.load_cell_type_hash(0, Source::GroupOutput) {
        Err(_) => {
            return Err(SilentBerryError::SysError);
        },
        Ok(None) => {
            return Err(SilentBerryError::CheckScript);
        },
        Ok(Some(_)) => {},
    }
    match tx.load_cell_type_hash(0, Source::GroupInput) {
        Err(SysError::IndexOutOfBound) => Ok(true),
        Err(_) => Err(SilentBerryError::SysError),
        Ok(_) => Ok(false),
    }
}

/// At most one ledger cell may stand on a side: a second one is a
/// `TxStructure` failure.
pub fn the_only(tx: &Transaction, source: Source) -> (r: Result<(), SilentBerryError>)
    ensures
        r == if tx.has_cell(1, source) {
            Err::<(), SilentBerryError>(SilentBerryError::TxStructure)
        } else {
            Ok::<(), SilentBerryError>(())
        },
{
    match tx.load_cell_type_hash(1, source) {
        Err(SysError::IndexOutOfBound) => Ok(()),
        _ => Err(SilentBerryError::TxStructure),
    }
}

/// A transition may change the root and the buyer counter of the ledger
/// cell and nothing else: any other difference is a `VerifiedData` failure.
pub fn verify_cell_data(old: &AccountBookCellData, new: &AccountBookCellData) -> (r: Result<
    (),
    SilentBerryError,
>)
    ensures
        r == if old@.same_terms(new@) {
            Ok::<(), SilentBerryError>(())
        } else {
            Err::<(), SilentBerryError>(SilentBerryError::VerifiedData)
        },
{
    if old.auther_id == new.auther_id && old.platform_id == new.platform_id && old.price
        == new.price && crate::hash::bytes_eq(
        old.profit_distribution_ratio.as_slice(),
        new.profit_distribution_ratio.as_slice(),
    ) && crate::hash::bytes_eq(
        old.profit_distribution_number.as_slice(),
        new.profit_distribution_number.as_slice(),
    ) {
        Ok(())
    } else {
        Err(SilentBerryError::VerifiedData)
    }
}

/// A transition may update the income, the withdrawn amount and the proof
/// of the witness and nothing else: the witness attached to the ledger cell
/// that is consumed and the one attached to the ledger cell that is produced
/// state the same terms, else an `AccountBookModified` failure.
pub fn verify_witness_data(old: &AccountBookData, new: &AccountBookData) -> (r: Result<
    (),
    SilentBerryError,
>)
    ensures
        r == if old@.same_terms(new@) {
            Ok::<(), SilentBerryError>(())
        } else {
            Err::<(), SilentBerryError>(SilentBerryError::AccountBookModified)
        },
{
    if old.dob_selling_code_hash == new.dob_selling_code_hash && old.buy_intent_code_hash
        == new.buy_intent_code_hash && old.withdrawal_intent_code_hash
        == new.withdrawal_intent_code_hash && old.xudt_script_hash == new.xudt_script_hash
        && old.input_type_proxy_lock_code_hash == new.input_type_proxy_lock_code_hash
        && old.cluster_id == new.cluster_id && old.level == new.level {
        Ok(())
    } else {
        Err(SilentBerryError::AccountBookModified)
    }
}

/// Whether the transition is a sale (`true`) or a withdrawal (`false`): a
/// sale when an input is locked by the listing program, else a withdrawal
/// when an input carries the withdrawal-intent program, else a `CheckScript`
/// failure.
pub open spec fn spec_is_selling(tx: &Transaction, witness: AccountBookDataView) -> Result<
    bool,
    SilentBerryError,
> {
    if has_match(tx.inputs@, HashField::LockCodeHash, witness.dob_selling_code_hash) {
        Ok(true)
    } else if has_match(tx.inputs@, HashField::TypeCodeHash, witness.withdrawal_intent_code_hash) {
        Ok(false)
    } else {
        Err(SilentBerryError::CheckScript)
    }
}

/// Whether the transition is a sale or a withdrawal.
pub fn is_selling(tx: &Transaction, witness_data: &AccountBookData) -> (r: Result<
    bool,
    SilentBerryError,
>)
    ensures
        r == spec_is_selling(tx, witness_data@),
{
    if any_cell(tx, HashField::LockCodeHash, &witness_data.dob_selling_code_hash, Source::Input) {
        Ok(true)
    } else if any_cell(
        tx,
        HashField::TypeCodeHash,
        &witness_data.withdrawal_intent_code_hash,
        Source::Input,
    ) {
        Ok(false)
    } else {
        Err(SilentBerryError::CheckScript)
    }
}

/// The buyer counter after a transition: one more after a sale, the same
/// after a withdrawal. Any other counter is an `AccountBookModified`
/// failure.
pub open spec fn spec_check_buyer_count(old_count: u32, new_count: u32, is_selling: bool) -> Result<
    (),
    SilentBerryError,
> {
    if is_selling {
        if old_count + 1 != new_count {
            Err(SilentBerryError::AccountBookModified)
        } else {
            Ok(())
        }
    } else if old_count != new_count {
        Err(SilentBerryError::AccountBookModified)
    } else {
        Ok(())
    }
}

/// Checks the buyer counter after a transition.
pub fn check_buyer_count(old_count: u32, new_count: u32, is_selling: bool) -> (r: Result<
    (),
    SilentBerryError,
>)
    ensures
        r == spec_check_buyer_count(old_count, new_count, is_selling),
{
    if is_selling {
        match old_count.checked_add(1) {
            None => Err(SilentBerryError::AccountBookModified),
            Some(next) => if next != new_count {
                Err(SilentBerryError::AccountBookModified)
            } else {
                Ok(())
            },
        }
    } else if old_count != new_count {
        Err(SilentBerryError::AccountBookModified)
    } else {
        Ok(())
    }
}

/// The ledger cells and the witnesses on both sides of a transition,
/// checked against each other: the new cell, the old root, and whether the
/// transition is a sale. `witness` is the witness of the transition, which
/// is attached to the ledger cell that is produced.
pub open spec fn spec_load_verified_cell_data(
    tx: &Transaction,
    witness: AccountBookDataView,
) -> Result<(AccountBookCellDataView, Seq<u8>, bool), SilentBerryError> {
    match spec_load_account_book_cell_data(tx, 0, Source::GroupInput) {
        Err(e) => Err(e),
        Ok(old) => match spec_load_account_book_cell_data(tx, 0, Source::GroupOutput) {
            Err(e) => Err(e),
            Ok(new) => if !old.same_terms(new) {
                Err(SilentBerryError::VerifiedData)
            } else {
                match spec_load_account_book_data(tx, 0, Source::GroupInput) {
                    Err(e) => Err(e),
                    Ok(before) => if !before.same_terms(witness) {
                        Err(SilentBerryError::AccountBookModified)
                    } else {
                        match spec_is_selling(tx, witness) {
                            Err(e) => Err(e),
                            Ok(is_selling) => match spec_check_buyer_count(
                                old.buyer_count,
                                new.buyer_count,
                                is_selling,
                            ) {
                                Err(e) => Err(e),
                                Ok(()) => Ok((new, old.smt_root_hash, is_selling)),
                            },
                        }
                    },
                }
            },
        },
    }
}

/// Loads the ledger cells and the witnesses of both sides and checks them
/// against each other.
pub fn load_verified_cell_data(tx: &Transaction, witness_data: &AccountBookData) -> (r: Result<
    (AccountBookCellData, crate::hash::Hash, bool),
    SilentBerryError,
>)
    ensures
        match r {
            Ok((new, old_root, is_selling)) => spec_load_verified_cell_data(tx, witness_data@)
                == Ok::<(AccountBookCellDataView, Seq<u8>, bool), SilentBerryError>(
                (new@, old_root@, is_selling),
            ),
            Err(e) => spec_load_verified_cell_data(tx, witness_data@) == Err::<
                (AccountBookCellDataView, Seq<u8>, bool),
                SilentBerryError,
            >(e),
        },
{
    let old_data = load_account_book_cell_data(tx, 0, Source::GroupInput)?;
    let new_data = load_account_book_cell_data(tx, 0, Source::GroupOutput)?;
    verify_cell_data(&old_data, &new_data)?;
    let old_witness = load_account_book_data(tx, 0, Source::GroupInput)?;
    verify_witness_data(&old_witness, witness_data)?;
    let is_selling = is_selling(tx, witness_data)?;
    check_buyer_count(old_data.buyer_count, new_data.buyer_count, is_selling)?;
    Ok((new_data, old_data.smt_root_hash, is_selling))
}

/// The amount in escrow for the account book `book` among the token
/// positions `entries` of one side. A position counts when its cell is
/// locked by the program `proxy` with the identity of `book` as argument.
/// No such position gives no amount; two are a `TxStructure` failure. A
/// position that the side lacks is a `SysError` failure; a cell locked by
/// `proxy` whose argument is no hash is a `TypeConversion` failure.
pub open spec fn spec_escrow_amount(
    cells: Seq<Cell>,
    entries: Seq<(u128, usize)>,
    proxy: Seq<u8>,
    book: Seq<u8>,
) -> Result<Option<u128>, SilentBerryError>
    decreases entries.len(),
{
    if entries.len() == 0 {
        Ok(None)
    } else {
        match spec_escrow_amount(cells, entries.drop_last(), proxy, book) {
            Err(e) => Err(e),
            Ok(found) => {
                let (udt, index) = entries.last();
                if index >= cells.len() {
                    Err(SilentBerryError::SysError)
                } else if cells[index as int].lock.code_hash@ != proxy {
                    Ok(found)
                } else if cells[index as int].lock.args@.len() != 32 {
                    Err(SilentBerryError::TypeConversion)
                } else if cells[index as int].lock.args@ != book {
                    Ok(found)
                } else if found is Some {
                    Err(SilentBerryError::TxStructure)
                } else {
                    Ok(Some(udt))
                }
            },
        }
    }
}

/// The amount in escrow for one account book among the token positions of
/// one side: the amount of the one position in escrow for it, or nothing
/// where no position is.
pub fn escrow_amount(
    tx: &Transaction,
    source: Source,
    entries: &Vec<(u128, usize)>,
    proxy: &crate::hash::Hash,
    book: &crate::hash::Hash,
) -> (r: Result<Option<u128>, SilentBerryError>)
    ensures
        r == spec_escrow_amount(tx.cells(source), entries@, proxy@, book@),
        r matches Ok(Some(amount)) ==> exists|k: int|
            {
                &&& 0 <= k < entries@.len()
                &&& #[trigger] in_escrow_for(tx.cells(source), entries@[k], proxy@, book@)
                &&& entries@[k].0 == amount
                &&& forall|j: int|
                    0 <= j < entries@.len() && j != k ==> !#[trigger] in_escrow_for(
                        tx.cells(source),
                        entries@[j],
                        proxy@,
                        book@,
                    )
            },
        r matches Ok(None) ==> forall|j: int|
            0 <= j < entries@.len() ==> !#[trigger] in_escrow_for(
                tx.cells(source),
                entries@[j],
                proxy@,
                book@,
            ),
{
    proof {
        lemma_escrow_amount(tx.cells(source), entries@, proxy@, book@);
    }
    let mut amount: Option<u128> = None;
    let mut i: usize = 0;
    assert(entries@.take(0) =~= Seq::<(u128, usize)>::empty());
    while i < entries.len()
        invariant
            i <= entries@.len(),
            spec_escrow_amount(tx.cells(source), entries@.take(i as int), proxy@, book@) == Ok::<
                Option<u128>,
                SilentBerryError,
            >(amount),
        ensures
            i == entries@.len(),
            spec_escrow_amount(tx.cells(source), entries@.take(i as int), proxy@, book@) == Ok::<
                Option<u128>,
                SilentBerryError,
            >(amount),
        decreases entries@.len() - i,
    {
        assert(entries@.take(i + 1).drop_last() =~= entries@.take(i as int));
        let (udt, index) = entries[i];
        let ghost next = spec_escrow_amount(
            tx.cells(source),
            entries@.take(i + 1),
            proxy@,
            book@,
        );
        let cell = match tx.load_cell(index, source) {
            Ok(c) => c,
            Err(_) => {
                proof {
                    lemma_escrow_error(tx.cells(source), entries@, proxy@, book@, i + 1);
                }
                return Err(SilentBerryError::SysError);
            },
        };
        if cell.lock.code_hash == *proxy {
            match crate::hash::Hash::try_from_slice(cell.lock.args.as_slice()) {
                Err(e) => {
                    proof {
                        lemma_escrow_error(tx.cells(source), entries@, proxy@, book@, i + 1);
                    }
                    return Err(e);
                },
                Ok(account_book_script_hash) => {
                    if *book == account_book_script_hash {
                        if amount.is_some() {
                            proof {
                                lemma_escrow_error(
                                    tx.cells(source),
                                    entries@,
                                    proxy@,
                                    book@,
                                    i + 1,
                                );
                            }
                            return Err(SilentBerryError::TxStructure);
                        }
                        amount = Some(udt);
                    }
                },
            }
        }
        i += 1;
    }
    assert(entries@.take(i as int) =~= entries@);
    Ok(amount)
}

/// Whether a token position is in escrow for the account book `book`: its
/// cell stands on the side and is locked by the program `proxy` with the
/// identity of `book` as argument.
pub open spec fn in_escrow_for(
    cells: Seq<Cell>,
    entry: (u128, usize),
    proxy: Seq<u8>,
    book: Seq<u8>,
) -> bool {
    &&& entry.1 < cells.len()
    &&& cells[entry.1 as int].lock.code_hash@ == proxy
    &&& cells[entry.1 as int].lock.args@ == book
}

/// What the amount in escrow is: where one is found, it is the amount of the
/// one token position in escrow for the account book; where none is found,
/// no token position is in escrow for it.
pub proof fn lemma_escrow_amount(
    cells: Seq<Cell>,
    entries: Seq<(u128, usize)>,
    proxy: Seq<u8>,
    book: Seq<u8>,
)
    ensures
        match spec_escrow_amount(cells, entries, proxy, book) {
            Ok(Some(amount)) => exists|k: int|
                {
                    &&& 0 <= k < entries.len()
                    &&& #[trigger] in_escrow_for(cells, entries[k], proxy, book)
                    &&& entries[k].0 == amount
                    &&& forall|j: int|
                        0 <= j < entries.len() && j != k ==> !#[trigger] in_escrow_for(
                            cells,
                            entries[j],
                            proxy,
                            book,
                        )
                },
            Ok(None) => forall|j: int|
                0 <= j < entries.len() ==> !#[trigger] in_escrow_for(
                    cells,
                    entries[j],
                    proxy,
                    book,
                ),
            Err(_) => true,
        },
    decreases entries.len(),
{
    if entries.len() > 0 {
        let front = entries.drop_last();
        let last = entries.len() - 1;
        lemma_escrow_amount(cells, front, proxy, book);
        assert forall|j: int| 0 <= j < last implies front[j] == entries[j] by {}
        match spec_escrow_amount(cells, front, proxy, book) {
            Ok(Some(amount)) => {
                let k = choose|k: int|
                    {
                        &&& 0 <= k < front.len()
                        &&& #[trigger] in_escrow_for(cells, front[k], proxy, book)
                        &&& front[k].0 == amount
                        &&& forall|j: int|
                            0 <= j < front.len() && j != k ==> !#[trigger] in_escrow_for(
                                cells,
                                front[j],
                                proxy,
                                book,
                            )
                    };
                if spec_escrow_amount(cells, entries, proxy, book) is Ok {
                    assert(!in_escrow_for(cells, entries[last], proxy, book));
                    assert(in_escrow_for(cells, entries[k], proxy, book));
                    assert forall|j: int| 0 <= j < entries.len() && j != k implies !#[trigger] in_escrow_for(
                        cells,
                        entries[j],
                        proxy,
                        book,
                    ) by {
                        if j < last {
                            assert(!in_escrow_for(cells, front[j], proxy, book));
                        }
                    }
                }
            },
            Ok(None) => {
                assert forall|j: int| 0 <= j < last implies !#[trigger] in_escrow_for(
                    cells,
                    entries[j],
                    proxy,
                    book,
                ) by {
                    assert(!in_escrow_for(cells, front[j], proxy, book));
                }
                if spec_escrow_amount(cells, entries, proxy, book) matches Ok(Some(amount)) {
                    assert(in_escrow_for(cells, entries[last], proxy, book));
                }
            },
            Err(_) => {},
        }
    }
}

/// A failure on a prefix of the token positions is the failure on all of
/// them.
pub proof fn lemma_escrow_error(
    cells: Seq<Cell>,
    entries: Seq<(u128, usize)>,
    proxy: Seq<u8>,
    book: Seq<u8>,
    n: int,
)
    requires
        0 <= n <= entries.len(),
        spec_escrow_amount(cells, entries.take(n), proxy, book) is Err,
    ensures
        spec_escrow_amount(cells, entries, proxy, book) == spec_escrow_amount(
            cells,
            entries.take(n),
            proxy,
            book,
        ),
    decreases entries.len(),
{
    if n == entries.len() {
        assert(entries.take(n) =~= entries);
    } else {
        assert(entries.drop_last().take(n) =~= entries.take(n));
        lemma_escrow_error(cells, entries.drop_last(), proxy, book, n);
    }
}

/// The escrow of the account book on both sides: the amount it held before
/// the transition and the amount it holds after. Exactly one input may be
/// locked by the escrow program, and on each side exactly one token position
/// must be in escrow for this account book, else a `TxStructure` failure.
pub open spec fn spec_check_input_type_proxy_lock(
    tx: &Transaction,
    proxy: Seq<u8>,
    inputs: Seq<(u128, usize)>,
    outputs: Seq<(u128, usize)>,
) -> Result<(u128, u128), SilentBerryError> {
    if !tx.has_cell(0, Source::GroupInput) {
        Err(SilentBerryError::SysError)
    } else {
        match tx.cell(0, Source::GroupInput).spec_type_hash() {
            None => Err(SilentBerryError::Unknow),
            Some(book) => if matching_indexs(tx.inputs@, HashField::LockCodeHash, proxy).len()
                != 1 {
                Err(SilentBerryError::TxStructure)
            } else {
                match spec_escrow_amount(tx.inputs@, inputs, proxy, book) {
                    Err(e) => Err(e),
                    Ok(None) => Err(SilentBerryError::TxStructure),
                    Ok(Some(input_amount)) => match spec_escrow_amount(
                        tx.outputs@,
                        outputs,
                        proxy,
                        book,
                    ) {
                        Err(e) => Err(e),
                        Ok(None) => Err(SilentBerryError::TxStructure),
                        Ok(Some(output_amount)) => Ok((input_amount, output_amount)),
                    },
                }
            },
        }
    }
}

/// The escrow of the account book before and after the transition.
pub fn check_input_type_proxy_lock(
    tx: &Transaction,
    witness_data: &AccountBookData,
    udt_info: &UDTInfo,
) -> (r: Result<(u128, u128), SilentBerryError>)
    ensures
        r == spec_check_input_type_proxy_lock(
            tx,
            witness_data@.input_type_proxy_lock_code_hash,
            udt_info.inputs@,
            udt_info.outputs@,
        ),
{
    let self_script_hash = match tx.load_cell_type_hash(0, Source::GroupInput) {
        Err(_) => {
            return Err(SilentBerryError::SysError);
        },
        Ok(None) => {
            return Err(SilentBerryError::Unknow);
        },
        Ok(Some(h)) => h,
    };
    let proxy_lock_code_hash = witness_data.input_type_proxy_lock_code_hash;
    let indexs = get_indexs(tx, HashField::LockCodeHash, &proxy_lock_code_hash, Source::Input);
    if indexs.len() != 1 {
        return Err(SilentBerryError::TxStructure);
    }
    let input_amount = match escrow_amount(
        tx,
        Source::Input,
        &udt_info.inputs,
        &proxy_lock_code_hash,
        &self_script_hash,
    )? {
        Some(a) => a,
        None => {
            return Err(SilentBerryError::TxStructure);
        },
    };
    let output_amount = match escrow_amount(
        tx,
        Source::Output,
        &udt_info.outputs,
        &proxy_lock_code_hash,
        &self_script_hash,
    )? {
        Some(a) => a,
        None => {
            return Err(SilentBerryError::TxStructure);
        },
    };
    Ok((input_amount, output_amount))
}

/// The state a transaction puts the ledger through.
#[derive(Clone, Copy, Debug, PartialEq, Eq, Structural)]
pub enum Transition {
    Creation,
    Selling,
    Withdrawal,
}

/// The verdict on the transaction in which the account book runs, given the
/// outcome of the host's type-id rule for the running script.
///
/// A broken type-id rule is a `SysError` failure. The witness of the
/// transition is attached to the first output of the group. Without a ledger
/// cell among the inputs the transaction creates the ledger. Otherwise each
/// side holds exactly one ledger cell (`TxStructure`), the two cells agree in
/// all but root and buyer counter, the witnesses attached to them state the
/// same terms, and the transaction is a sale or a withdrawal.
pub open spec fn spec_program_entry2(tx: &Transaction, type_id: Result<(), SysError>) -> Result<
    (),
    SilentBerryError,
> {
    if type_id is Err {
        Err(SilentBerryError::SysError)
    } else {
        match spec_load_account_book_data(tx, 0, Source::GroupOutput) {
            Err(e) => Err(e),
            Ok(witness) => match spec_is_creation(tx) {
                Err(e) => Err(e),
                Ok(true) => creation::spec_creation(tx, witness),
                Ok(false) => if tx.has_cell(1, Source::GroupInput) || tx.has_cell(
                    1,
                    Source::GroupOutput,
                ) {
                    Err(SilentBerryError::TxStructure)
                } else {
                    match spec_load_verified_cell_data(tx, witness) {
                        Err(e) => Err(e),
                        Ok((cell, old_root, is_selling)) => if is_selling {
                            selling::spec_selling(tx, witness, cell, old_root)
                        } else {
                            withdrawal::spec_withdrawal(tx, witness, cell, old_root)
                        },
                    }
                },
            },
        }
    }
}

/// The transition that a transaction puts the ledger through, decided by
/// what the transaction holds: a creation where no ledger cell is among the
/// inputs; else a sale where an input is locked by the listing program that
/// the witness names; else a withdrawal where an input carries the
/// withdrawal-intent program that it names; else a `CheckScript` failure.
pub open spec fn spec_transition(tx: &Transaction) -> Result<Transition, SilentBerryError> {
    match spec_is_creation(tx) {
        Err(e) => Err(e),
        Ok(true) => Ok(Transition::Creation),
        Ok(false) => match spec_load_account_book_data(tx, 0, Source::GroupOutput) {
            Err(e) => Err(e),
            Ok(witness) => match spec_is_selling(tx, witness) {
                Err(e) => Err(e),
                Ok(true) => Ok(Transition::Selling),
                Ok(false) => Ok(Transition::Withdrawal),
            },
        },
    }
}

/// The transition that the transaction puts the ledger through.
pub fn transition(tx: &Transaction) -> (r: Result<Transition, SilentBerryError>)
    ensures
        r == spec_transition(tx),
{
    if is_creation(tx)? {
        return Ok(Transition::Creation);
    }
    let witness_data = load_account_book_data(tx, 0, Source::GroupOutput)?;
    if is_selling(tx, &witness_data)? {
        Ok(Transition::Selling)
    } else {
        Ok(Transition::Withdrawal)
    }
}

/// Judges the transaction in which the account book runs.
pub fn program_entry2(tx: &Transaction, type_id: Result<(), SysError>) -> (r: Result<
    (),
    SilentBerryError,
>)
    ensures
        r == spec_program_entry2(tx, type_id),
{
    if type_id.is_err() {
        return Err(SilentBerryError::SysError);
    }
    let witness_data = load_account_book_data(tx, 0, Source::GroupOutput)?;
    if is_creation(tx)? {
        creation::creation(tx, witness_data)
    } else {
        the_only(tx, Source::GroupInput)?;
        the_only(tx, Source::GroupOutput)?;
        let (cell_data, old_smt_hash, is_selling) = load_verified_cell_data(tx, &witness_data)?;
        if is_selling {
            selling::selling(tx, witness_data, cell_data, old_smt_hash)
        } else {
            withdrawal::withdrawal(tx, witness_data, cell_data, old_smt_hash)
        }
    }
}

/// The exit status of the account book: 0 when the transaction is accepted,
/// else the number of the failure.
pub fn program_entry(tx: &Transaction, type_id: Result<(), SysError>) -> (status: i8)
    ensures
        status == crate::error::spec_exit_code(spec_program_entry2(tx, type_id)),
        (status == 0) == spec_program_entry2(tx, type_id).is_ok(),
{
    exit_code(program_entry2(tx, type_id))
}

} // verus!
