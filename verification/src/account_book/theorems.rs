//! What holds of every transaction that the account book accepts.
use crate::account_book::selling::spec_load_spore;
use crate::account_book::withdrawal::{
    spec_entitlement, spec_get_output_udt, spec_get_total_withdrawn, spec_party,
    spec_party_share, spec_withdrawal_intent, spec_withdrawn_before,
};
use crate::account_book::{
    ratio_sum, spec_check_input_type_proxy_lock, spec_ledger_invariant, spec_program_entry2,
    spec_transition, Transition,
};
use crate::account_book_proof::spec_verify;
use crate::error::{SilentBerryError, SysError};
use crate::tx::{Source, Transaction};
use crate::types::account_book::{AccountBookCellDataView, AccountBookDataView};
use crate::types::intent::WithdrawalBuyerView;
use crate::udt_info::{spec_udt_info, udt_sum};
use crate::utils::{spec_load_account_book_cell_data, spec_load_account_book_data};
use vstd::prelude::*;

verus! {

/// Whether the transaction is accepted as the given transition.
pub open spec fn accepted_as(
    tx: &Transaction,
    type_id: Result<(), SysError>,
    transition: Transition,
) -> bool {
    spec_program_entry2(tx, type_id) is Ok && spec_transition(tx) == Ok::<
        Transition,
        SilentBerryError,
    >(transition)
}

/// Whether the transaction is accepted as a sale or as a withdrawal.
pub open spec fn accepted_transition(tx: &Transaction, type_id: Result<(), SysError>) -> bool {
    accepted_as(tx, type_id, Transition::Selling) || accepted_as(
        tx,
        type_id,
        Transition::Withdrawal,
    )
}

/// Every accepted transaction is a creation, a sale or a withdrawal.
pub proof fn theorem_transition(tx: &Transaction, type_id: Result<(), SysError>)
    requires
        spec_program_entry2(tx, type_id) is Ok,
    ensures
        spec_transition(tx) is Ok,
{
}

/// The witness of an accepted transaction: the one attached to the ledger
/// cell that is produced.
pub open spec fn witness_of(tx: &Transaction) -> AccountBookDataView {
    spec_load_account_book_data(tx, 0, Source::GroupOutput).unwrap()
}

/// The witness attached to the ledger cell that an accepted sale or
/// withdrawal consumes.
pub open spec fn old_witness_of(tx: &Transaction) -> AccountBookDataView {
    spec_load_account_book_data(tx, 0, Source::GroupInput).unwrap()
}

/// The ledger cell after an accepted transaction.
pub open spec fn new_cell_of(tx: &Transaction) -> AccountBookCellDataView {
    spec_load_account_book_cell_data(tx, 0, Source::GroupOutput).unwrap()
}

/// The ledger cell before an accepted sale or withdrawal.
pub open spec fn old_cell_of(tx: &Transaction) -> AccountBookCellDataView {
    spec_load_account_book_cell_data(tx, 0, Source::GroupInput).unwrap()
}

/// Whether the transaction is a sale.
pub open spec fn is_sale(tx: &Transaction) -> bool {
    spec_transition(tx) == Ok::<Transition, SilentBerryError>(Transition::Selling)
}

/// The token positions of the ledger's token on both sides of an accepted
/// sale or withdrawal.
pub open spec fn token_positions_of(tx: &Transaction) -> (
    Seq<(u128, usize)>,
    Seq<(u128, usize)>,
) {
    spec_udt_info(tx, witness_of(tx).xudt_script_hash).unwrap()
}

/// The escrow of the account book before and after an accepted sale or
/// withdrawal.
pub open spec fn escrow_of(tx: &Transaction) -> (u128, u128) {
    spec_check_input_type_proxy_lock(
        tx,
        witness_of(tx).input_type_proxy_lock_code_hash,
        token_positions_of(tx).0,
        token_positions_of(tx).1,
    ).unwrap()
}

/// What the withdrawal of the transaction entitles the withdrawing party to.
pub open spec fn spec_entitlement_of(tx: &Transaction) -> Result<u128, SilentBerryError> {
    match spec_party_share(
        new_cell_of(tx),
        witness_of(tx).level,
        spec_withdrawal_intent(tx, witness_of(tx).withdrawal_intent_code_hash).unwrap().buyer,
    ) {
        Ok((ratio, num, _)) => spec_entitlement(witness_of(tx).total_income_udt, ratio, num),
        Err(e) => Err(e),
    }
}

/// Conservation. In every accepted sale and withdrawal the amounts of the
/// ledger's token add up to the same total on both sides of the transaction.
/// A sale raises the escrow by exactly the price. A withdrawal lowers it by
/// exactly the amount paid out, which is exactly what the withdrawal
/// entitles the party to and exactly the amount by which the party's
/// withdrawn total grows.
pub proof fn theorem_conservation(tx: &Transaction, type_id: Result<(), SysError>)
    requires
        accepted_transition(tx, type_id),
    ensures
        spec_udt_info(tx, witness_of(tx).xudt_script_hash) is Ok,
        udt_sum(token_positions_of(tx).0) == udt_sum(token_positions_of(tx).1),
        is_sale(tx) ==> escrow_of(tx).1 - escrow_of(tx).0 == new_cell_of(tx).price,
        !is_sale(tx) ==> {
            &&& escrow_of(tx).0 - escrow_of(tx).1 == spec_get_output_udt(
                tx,
                witness_of(tx),
                token_positions_of(tx).1,
            ).unwrap()
            &&& escrow_of(tx).0 - escrow_of(tx).1 == spec_get_total_withdrawn(
                tx,
                new_cell_of(tx),
                witness_of(tx),
            ).unwrap().0 - spec_withdrawn_before(witness_of(tx))
            &&& spec_entitlement_of(tx) == Ok::<u128, SilentBerryError>(
                (escrow_of(tx).0 - escrow_of(tx).1) as u128,
            )
        },
{
}

/// The ratio invariant. The ledger cell of every accepted transaction has
/// one ratio for the platform, one for the author and one per tier, and the
/// ratios add up to exactly 100; it has one divisor per tier.
pub proof fn theorem_ratio_invariant(tx: &Transaction, type_id: Result<(), SysError>)
    requires
        spec_program_entry2(tx, type_id) is Ok,
    ensures
        ratio_sum(new_cell_of(tx).profit_distribution_ratio) == 100,
        new_cell_of(tx).profit_distribution_ratio.len() == witness_of(tx).level + 2,
        new_cell_of(tx).profit_distribution_number.len() == witness_of(tx).level,
        spec_ledger_invariant(new_cell_of(tx), witness_of(tx).level),
{
}

/// No transaction is accepted with a ledger cell whose ratios do not add up
/// to exactly 100: a table that adds up to 99 or to 101 is refused.
pub proof fn theorem_ratio_rejected(tx: &Transaction, type_id: Result<(), SysError>)
    requires
        ratio_sum(new_cell_of(tx).profit_distribution_ratio) != 100,
    ensures
        spec_program_entry2(tx, type_id) is Err,
{
}

/// The ledger cell before an accepted sale or withdrawal keeps the invariant
/// as well, since it has the tables of the cell after it and the witness
/// attached to it states the same level.
pub proof fn theorem_ratio_invariant_before(tx: &Transaction, type_id: Result<(), SysError>)
    requires
        accepted_transition(tx, type_id),
    ensures
        spec_ledger_invariant(old_cell_of(tx), old_witness_of(tx).level),
{
}

/// Only the root and the buyer counter change. In every accepted sale and
/// withdrawal the ledger cell has the same value in every other field before
/// and after; the counter grows by one in a sale and stays in a withdrawal.
pub proof fn theorem_terms_unchanged(tx: &Transaction, type_id: Result<(), SysError>)
    requires
        accepted_transition(tx, type_id),
    ensures
        old_cell_of(tx).same_terms(new_cell_of(tx)),
        is_sale(tx) ==> new_cell_of(tx).buyer_count == old_cell_of(tx).buyer_count + 1,
        !is_sale(tx) ==> new_cell_of(tx).buyer_count == old_cell_of(tx).buyer_count,
{
}

/// Only the income, the withdrawn amount and the proof of the witness
/// change. In every accepted sale and withdrawal the witness attached to the
/// ledger cell that is consumed and the witness attached to the ledger cell
/// that is produced state the same programs, token, collection and level.
pub proof fn theorem_witness_terms_unchanged(tx: &Transaction, type_id: Result<(), SysError>)
    requires
        accepted_transition(tx, type_id),
    ensures
        old_witness_of(tx).same_terms(witness_of(tx)),
{
}

/// First purchase only. Every accepted sale has shown, by its proof against
/// the root before the sale, that the buyer's key was absent from the tree:
/// a digital object whose key holds a value under that root cannot be sold.
pub proof fn theorem_buyer_exclusivity(tx: &Transaction, type_id: Result<(), SysError>)
    requires
        accepted_transition(tx, type_id),
        is_sale(tx),
    ensures
        spec_load_spore(tx, Source::Output) is Ok,
        spec_verify(
            witness_of(tx).proof,
            old_cell_of(tx).smt_root_hash,
            witness_of(tx).total_income_udt,
            escrow_of(tx).0,
            spec_load_spore(tx, Source::Output).unwrap().1,
            None,
        ) == Ok::<bool, SilentBerryError>(true),
        spec_verify(
            witness_of(tx).proof,
            new_cell_of(tx).smt_root_hash,
            (witness_of(tx).total_income_udt + new_cell_of(tx).price) as u128,
            escrow_of(tx).1,
            spec_load_spore(tx, Source::Output).unwrap().1,
            Some(0u128),
        ) == Ok::<bool, SilentBerryError>(true),
{
}

/// In a ledger that keeps its invariant both tables hold an entry for every
/// party that the ledger tells: the lookup of a share cannot fail.
pub proof fn theorem_share_lookup_is_total(
    cell: AccountBookCellDataView,
    level: u8,
    buyer: WithdrawalBuyerView,
)
    requires
        spec_ledger_invariant(cell, level),
        spec_party(cell, level, buyer) is Ok,
    ensures
        spec_party(cell, level, buyer).unwrap().has_entries(cell, level),
        spec_party_share(cell, level, buyer) is Ok,
{
}

/// A buyer has a share only in a ledger whose divisor table has exactly one
/// entry per tier: with any other table, one that is long enough for the
/// buyer's tier too, the lookup is an `AccountBook` failure.
pub proof fn theorem_buyer_needs_a_divisor_per_tier(
    cell: AccountBookCellDataView,
    level: u8,
    buyer: WithdrawalBuyerView,
)
    requires
        buyer is WithdrawalSporeInfo,
        spec_party(cell, level, buyer) is Ok,
        cell.profit_distribution_number.len() != level,
    ensures
        spec_party_share(cell, level, buyer) == Err::<(u8, u8, Seq<u8>), SilentBerryError>(
            SilentBerryError::AccountBook,
        ),
{
}

} // verus!
