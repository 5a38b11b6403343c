//! The token positions of a transaction and the conservation of the token
//! across its two sides.
use crate::error::SilentBerryError;
use crate::tx::{Cell, HashField, Source, Transaction};
use vstd::bytes::{spec_u128_from_le_bytes, u128_from_le_bytes};
use vstd::prelude::*;

verus! {

/// A side with this many cells or more is not scanned.
pub const MAX_CELLS_LEN: usize = 256;

/// The amounts of one token on both sides of a transaction, each with the
/// position of the cell that holds it.
#[derive(Clone, Debug)]
pub struct UDTInfo {
    pub inputs: Vec<(u128, usize)>,
    pub outputs: Vec<(u128, usize)>,
}

/// The sum of the amounts of a list of (amount, position) pairs.
pub open spec fn udt_sum(entries: Seq<(u128, usize)>) -> int
    decreases entries.len(),
{
    if entries.len() == 0 {
        0
    } else {
        udt_sum(entries.drop_last()) + entries.last().0
    }
}

/// The (amount, position) pairs of the cells of `token` among `cells`, in
/// order of position. The amount of a cell is its data read as a
/// little-endian integer.
pub open spec fn udt_entries(cells: Seq<Cell>, token: Seq<u8>) -> Seq<(u128, usize)>
    decreases cells.len(),
{
    if cells.len() == 0 {
        Seq::empty()
    } else {
        let rest = udt_entries(cells.drop_last(), token);
        if cells.last().matches(HashField::TypeHash, token) {
            rest.push((spec_u128_from_le_bytes(cells.last().data@), (cells.len() - 1) as usize))
        } else {
            rest
        }
    }
}

/// Whether every cell of `token` among `cells` holds exactly the 16 bytes of
/// an amount.
pub open spec fn udt_data_ok(cells: Seq<Cell>, token: Seq<u8>) -> bool {
    forall|i: int|
        0 <= i < cells.len() && (#[trigger] cells[i]).matches(HashField::TypeHash, token)
            ==> cells[i].data@.len() == 16
}

/// The token positions of one side: a `CheckXUDT` failure where the side
/// reaches the scan limit or a cell of the token does not hold an amount.
pub open spec fn spec_load_udt(cells: Seq<Cell>, token: Seq<u8>) -> Result<
    Seq<(u128, usize)>,
    SilentBerryError,
> {
    if cells.len() < MAX_CELLS_LEN && udt_data_ok(cells, token) {
        Ok(udt_entries(cells, token))
    } else {
        Err(SilentBerryError::CheckXUDT)
    }
}

/// Whether the amounts of both sides add up, without overflow, to the same
/// total: no token is created or destroyed.
pub open spec fn spec_balanced(inputs: Seq<(u128, usize)>, outputs: Seq<(u128, usize)>) -> bool {
    &&& udt_sum(inputs) <= u128::MAX
    &&& udt_sum(outputs) <= u128::MAX
    &&& udt_sum(inputs) == udt_sum(outputs)
}

/// The token positions of both sides of `tx`, if both sides can be scanned
/// and the token is conserved; a `CheckXUDT` failure otherwise.
pub open spec fn spec_udt_info(tx: &Transaction, token: Seq<u8>) -> Result<
    (Seq<(u128, usize)>, Seq<(u128, usize)>),
    SilentBerryError,
> {
    match (spec_load_udt(tx.inputs@, token), spec_load_udt(tx.outputs@, token)) {
        (Ok(inputs), Ok(outputs)) => if spec_balanced(inputs, outputs) {
            Ok((inputs, outputs))
        } else {
            Err(SilentBerryError::CheckXUDT)
        },
        _ => Err(SilentBerryError::CheckXUDT),
    }
}

/// The sum of a prefix is no more than the sum of the whole list.
pub proof fn lemma_udt_sum_prefix(entries: Seq<(u128, usize)>, n: int)
    requires
        0 <= n <= entries.len(),
    ensures
        0 <= udt_sum(entries.take(n)) <= udt_sum(entries),
    decreases entries.len(),
{
    if n == entries.len() {
        assert(entries.take(n) =~= entries);
        if n > 0 {
            lemma_udt_sum_prefix(entries.drop_last(), n - 1);
            assert(entries.drop_last().take(n - 1) =~= entries.drop_last());
        }
    } else {
        lemma_udt_sum_prefix(entries.drop_last(), n);
        assert(entries.drop_last().take(n) =~= entries.take(n));
    }
}

/// Every pair of the token positions names a cell of the token on that side
/// and carries the amount that the cell holds; the positions increase.
pub proof fn lemma_udt_entries(cells: Seq<Cell>, token: Seq<u8>)
    requires
        cells.len() <= usize::MAX,
    ensures
        forall|k: int|
            0 <= k < udt_entries(cells, token).len() ==> {
                &&& (#[trigger] udt_entries(cells, token)[k]).1 < cells.len()
                &&& cells[udt_entries(cells, token)[k].1 as int].matches(HashField::TypeHash, token)
                &&& udt_entries(cells, token)[k].0 == spec_u128_from_le_bytes(
                    cells[udt_entries(cells, token)[k].1 as int].data@,
                )
            },
        forall|j: int, k: int|
            0 <= j < k < udt_entries(cells, token).len() ==> udt_entries(cells, token)[j].1
                < udt_entries(cells, token)[k].1,
        udt_entries(cells, token).len() <= cells.len(),
    decreases cells.len(),
{
    let all = udt_entries(cells, token);
    if cells.len() > 0 {
        let front = cells.drop_last();
        let rest = udt_entries(front, token);
        lemma_udt_entries(front, token);
        assert forall|k: int| 0 <= k < all.len() implies (#[trigger] all[k]).1 < cells.len()
            && cells[all[k].1 as int].matches(HashField::TypeHash, token) && all[k].0
            == spec_u128_from_le_bytes(cells[all[k].1 as int].data@) by {
            if k < rest.len() {
                assert(all[k] == rest[k]);
                assert(front[rest[k].1 as int] == cells[rest[k].1 as int]);
            }
        }
        assert forall|j: int, k: int| 0 <= j < k < all.len() implies all[j].1 < all[k].1 by {
            assert(all[j] == rest[j]);
            if k < rest.len() {
                assert(all[k] == rest[k]);
            }
        }
    }
}

impl UDTInfo {
    /// Scans both sides of `tx` for the cells of the token `xudt_script_hash`
    /// and checks that the token is conserved.
    pub fn new(tx: &Transaction, xudt_script_hash: crate::hash::Hash) -> (r: Result<
        UDTInfo,
        SilentBerryError,
    >)
        ensures
            match r {
                Ok(info) => spec_udt_info(tx, xudt_script_hash@) == Ok::<_, SilentBerryError>(
                    (info.inputs@, info.outputs@),
                ) && spec_balanced(info.inputs@, info.outputs@),
                Err(e) => spec_udt_info(tx, xudt_script_hash@) == Err::<
                    (Seq<(u128, usize)>, Seq<(u128, usize)>),
                    SilentBerryError,
                >(e),
            },
    {
        let inputs = Self::load_udt(tx, Source::Input, &xudt_script_hash)?;
        let outputs = Self::load_udt(tx, Source::Output, &xudt_script_hash)?;
        let s = UDTInfo { inputs, outputs };
        s.check_udt()?;
        Ok(s)
    }

    /// The token positions of one side of `tx`: for every cell of the
    /// token, in order of position, the amount it holds and where it stands.
    pub fn load_udt(tx: &Transaction, source: Source, xudt_script_hash: &crate::hash::Hash) -> (r:
        Result<Vec<(u128, usize)>, SilentBerryError>)
        ensures
            match r {
                Ok(entries) => spec_load_udt(tx.cells(source), xudt_script_hash@) == Ok::<
                    _,
                    SilentBerryError,
                >(entries@),
                Err(e) => spec_load_udt(tx.cells(source), xudt_script_hash@) == Err::<
                    Seq<(u128, usize)>,
                    SilentBerryError,
                >(e),
            },
            r matches Ok(entries) ==> forall|k: int|
                0 <= k < entries@.len() ==> {
                    &&& (#[trigger] entries@[k]).1 < tx.cells(source).len()
                    &&& tx.cells(source)[entries@[k].1 as int].matches(
                        HashField::TypeHash,
                        xudt_script_hash@,
                    )
                    &&& entries@[k].0 == spec_u128_from_le_bytes(
                        tx.cells(source)[entries@[k].1 as int].data@,
                    )
                },
            r matches Ok(entries) ==> forall|j: int, k: int|
                0 <= j < k < entries@.len() ==> entries@[j].1 < entries@[k].1,
    {
        let cells = tx.source_cells(source);
        let mut xudt_info: Vec<(u128, usize)> = Vec::new();
        let mut index: usize = 0;
        assert(cells@.take(0) =~= Seq::<Cell>::empty());
        while index < cells.len() && index < MAX_CELLS_LEN
            invariant
                cells@ == tx.cells(source),
                index <= cells@.len(),
                index <= MAX_CELLS_LEN,
                xudt_info@ == udt_entries(cells@.take(index as int), xudt_script_hash@),
                udt_data_ok(cells@.take(index as int), xudt_script_hash@),
            decreases cells@.len() - index,
        {
            assert(cells@.take(index + 1).drop_last() =~= cells@.take(index as int));
            let cell = &cells[index];
            if cell.has(HashField::TypeHash, xudt_script_hash) {
                if cell.data.len() != 16 {
                    assert(cells@[index as int].matches(HashField::TypeHash, xudt_script_hash@));
                    return Err(SilentBerryError::CheckXUDT);
                }
                let udt: u128 = u128_from_le_bytes(cell.data.as_slice());
                xudt_info.push((udt, index));
            }
            assert forall|i: int|
                0 <= i < index + 1 && (#[trigger] cells@.take(index + 1)[i]).matches(
                    HashField::TypeHash,
                    xudt_script_hash@,
                ) implies cells@.take(index + 1)[i].data@.len() == 16 by {
                if i < index {
                    assert(cells@.take(index as int)[i] == cells@.take(index + 1)[i]);
                }
            }
            index += 1;
        }
        if index == MAX_CELLS_LEN {
            return Err(SilentBerryError::CheckXUDT);
        }
        assert(cells@.take(index as int) =~= cells@);
        proof {
            lemma_udt_entries(cells@, xudt_script_hash@);
        }
        Ok(xudt_info)
    }

    /// The sum of the amounts of `entries`, or nothing where it overflows.
    pub fn checked_total(entries: &Vec<(u128, usize)>) -> (r: Option<u128>)
        ensures
            match r {
                Some(total) => total == udt_sum(entries@),
                None => udt_sum(entries@) > u128::MAX,
            },
    {
        let mut total: u128 = 0;
        let mut i: usize = 0;
        assert(entries@.take(0) =~= Seq::<(u128, usize)>::empty());
        while i < entries.len()
            invariant
                i <= entries@.len(),
                total == udt_sum(entries@.take(i as int)),
            decreases entries@.len() - i,
        {
            assert(entries@.take(i + 1).drop_last() =~= entries@.take(i as int));
            match total.checked_add(entries[i].0) {
                Some(sum) => {
                    total = sum;
                },
                None => {
                    proof {
                        lemma_udt_sum_prefix(entries@, i + 1);
                    }
                    return None;
                },
            }
            i += 1;
        }
        assert(entries@.take(i as int) =~= entries@);
        Some(total)
    }

    /// Whether the token is conserved: the amounts of both sides add up to
    /// the same total. An overflowing sum or unequal totals are a
    /// `CheckXUDT` failure.
    pub fn check_udt(&self) -> (r: Result<(), SilentBerryError>)
        ensures
            r == if spec_balanced(self.inputs@, self.outputs@) {
                Ok::<(), SilentBerryError>(())
            } else {
                Err::<(), SilentBerryError>(SilentBerryError::CheckXUDT)
            },
    {
        let input_udt = match Self::checked_total(&self.inputs) {
            Some(total) => total,
            None => {
                return Err(SilentBerryError::CheckXUDT);
            },
        };
        let output_udt = match Self::checked_total(&self.outputs) {
            Some(total) => total,
            None => {
                return Err(SilentBerryError::CheckXUDT);
            },
        };
        if input_udt != output_udt {
            return Err(SilentBerryError::CheckXUDT);
        }
        Ok(())
    }

    /// The total amount on the input side.
    pub fn total(&self) -> (total: u128)
        requires
            udt_sum(self.inputs@) <= u128::MAX,
        ensures
            total == udt_sum(self.inputs@),
    {
        match Self::checked_total(&self.inputs) {
            Some(total) => total,
            None => 0,
        }
    }
}

} // verus!
