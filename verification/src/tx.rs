//! The enclosing transaction as a read-only arena: the cells on its two
//! sides, those among them that belong to the running script, and what each
//! position declares. Every query answers from the arena alone.
use crate::error::{SilentBerryError, SysError};
use vstd::prelude::*;

verus! {

/// The side of the transaction a position is counted on, over the whole
/// transaction or over the cells of the running script only.
#[derive(Clone, Copy, Debug, PartialEq, Eq, Structural)]
pub enum Source {
    Input,
    Output,
    GroupInput,
    GroupOutput,
}

/// A program reference: the code it names, the arguments it is given, and
/// the hash under which the host knows the whole reference.
#[derive(Clone, Debug)]
pub struct Script {
    pub code_hash: crate::hash::Hash,
    pub hash_type: u8,
    pub args: Vec<u8>,
    pub hash: crate::hash::Hash,
}

/// The auxiliary payload attached to a position, one optional byte string
/// for each of its three readers.
#[derive(Clone, Debug)]
pub struct WitnessArgs {
    pub lock: Option<Vec<u8>>,
    pub input_type: Option<Vec<u8>>,
    pub output_type: Option<Vec<u8>>,
}

/// What the transaction attaches to a position.
#[derive(Clone, Debug)]
pub enum Witness {
    /// Nothing is attached.
    Absent,
    /// Bytes that are not a payload of three optional byte strings.
    Malformed,
    Args(WitnessArgs),
}

/// One position of the transaction.
#[derive(Clone, Debug)]
pub struct Cell {
    pub capacity: u64,
    pub lock: Script,
    pub type_script: Option<Script>,
    pub data: Vec<u8>,
    pub data_hash: crate::hash::Hash,
    /// The elapsed-time field that the transaction declares for an input;
    /// outputs carry none and it is not read there.
    pub since: u64,
    pub witness: Witness,
}

/// The transaction as one script sees it.
#[derive(Clone, Debug)]
pub struct Transaction {
    /// The running script.
    pub script: Script,
    pub inputs: Vec<Cell>,
    pub outputs: Vec<Cell>,
    /// The inputs that carry the running script, in transaction order.
    pub group_inputs: Vec<Cell>,
    /// The outputs that carry the running script, in transaction order.
    pub group_outputs: Vec<Cell>,
}

/// Which hash of a cell a scan compares.
#[derive(Clone, Copy, Debug, PartialEq, Eq, Structural)]
pub enum HashField {
    LockCodeHash,
    LockHash,
    TypeCodeHash,
    TypeHash,
}

/// The bytes of an optional byte string.
pub open spec fn opt_bytes(o: Option<Vec<u8>>) -> Option<Seq<u8>> {
    match o {
        Some(v) => Some(v@),
        None => None,
    }
}

impl Source {
    /// Whether positions are counted among the inputs.
    pub open spec fn spec_is_input(self) -> bool {
        self == Source::Input || self == Source::GroupInput
    }

    /// Whether positions are counted among the inputs.
    pub fn is_input(&self) -> (r: bool)
        ensures
            r == self.spec_is_input(),
    {
        match self {
            Source::Input => true,
            Source::GroupInput => true,
            _ => false,
        }
    }
}

impl Cell {
    /// The hash of the type script, if the cell has one.
    pub open spec fn spec_type_hash(&self) -> Option<Seq<u8>> {
        match self.type_script {
            Some(s) => Some(s.hash@),
            None => None,
        }
    }

    /// The code hash of the type script, if the cell has one.
    pub open spec fn spec_type_code_hash(&self) -> Option<Seq<u8>> {
        match self.type_script {
            Some(s) => Some(s.code_hash@),
            None => None,
        }
    }

    /// The hash that a scan of `field` compares on this cell.
    pub open spec fn spec_field(&self, field: HashField) -> Option<Seq<u8>> {
        match field {
            HashField::LockCodeHash => Some(self.lock.code_hash@),
            HashField::LockHash => Some(self.lock.hash@),
            HashField::TypeCodeHash => self.spec_type_code_hash(),
            HashField::TypeHash => self.spec_type_hash(),
        }
    }

    /// Whether the cell has `hash` in `field`.
    pub open spec fn matches(&self, field: HashField, hash: Seq<u8>) -> bool {
        self.spec_field(field) == Some(hash)
    }

    /// The payload attached to the cell, or the failure of the query for it.
    pub open spec fn spec_witness_args(&self) -> Result<WitnessArgs, SysError> {
        match self.witness {
            Witness::Args(w) => Ok(w),
            Witness::Absent => Err(SysError::IndexOutOfBound),
            Witness::Malformed => Err(SysError::Encoding),
        }
    }

    /// The hash of the type script, if the cell has one.
    pub fn type_hash(&self) -> (r: Option<crate::hash::Hash>)
        ensures
            match r {
                Some(h) => self.spec_type_hash() == Some(h@),
                None => self.spec_type_hash() is None,
            },
    {
        match &self.type_script {
            Some(s) => Some(s.hash),
            None => None,
        }
    }

    /// The code hash of the type script, if the cell has one.
    pub fn type_code_hash(&self) -> (r: Option<crate::hash::Hash>)
        ensures
            match r {
                Some(h) => self.spec_type_code_hash() == Some(h@),
                None => self.spec_type_code_hash() is None,
            },
    {
        match &self.type_script {
            Some(s) => Some(s.code_hash),
            None => None,
        }
    }

    /// Whether the cell has `hash` in `field`.
    pub fn has(&self, field: HashField, hash: &crate::hash::Hash) -> (r: bool)
        ensures
            r == self.matches(field, hash@),
    {
        match field {
            HashField::LockCodeHash => self.lock.code_hash == *hash,
            HashField::LockHash => self.lock.hash == *hash,
            HashField::TypeCodeHash => hash.eq_opt(&self.type_code_hash()),
            HashField::TypeHash => hash.eq_opt(&self.type_hash()),
        }
    }
}

impl Transaction {
    /// The cells that `source` counts, in order.
    pub open spec fn cells(&self, source: Source) -> Seq<Cell> {
        match source {
            Source::Input => self.inputs@,
            Source::Output => self.outputs@,
            Source::GroupInput => self.group_inputs@,
            Source::GroupOutput => self.group_outputs@,
        }
    }

    /// Whether `source` has a cell at `index`.
    pub open spec fn has_cell(&self, index: int, source: Source) -> bool {
        0 <= index < self.cells(source).len()
    }

    /// The cell at `index` of `source`; meaningful where there is one.
    pub open spec fn cell(&self, index: int, source: Source) -> Cell {
        self.cells(source)[index]
    }

    /// The cells that `source` counts, in order.
    pub fn source_cells(&self, source: Source) -> (cells: &Vec<Cell>)
        ensures
            cells@ == self.cells(source),
    {
        match source {
            Source::Input => &self.inputs,
            Source::Output => &self.outputs,
            Source::GroupInput => &self.group_inputs,
            Source::GroupOutput => &self.group_outputs,
        }
    }

    /// The cell at a position, or `IndexOutOfBound` where there is none.
    pub fn load_cell(&self, index: usize, source: Source) -> (r: Result<&Cell, SysError>)
        ensures
            match r {
                Ok(c) => self.has_cell(index as int, source) && *c == self.cell(
                    index as int,
                    source,
                ),
                Err(e) => !self.has_cell(index as int, source) && e == SysError::IndexOutOfBound,
            },
    {
        let cells = self.source_cells(source);
        if index < cells.len() {
            Ok(&cells[index])
        } else {
            Err(SysError::IndexOutOfBound)
        }
    }

    /// The hash of the lock at a position.
    pub fn load_cell_lock_hash(&self, index: usize, source: Source) -> (r: Result<
        crate::hash::Hash,
        SysError,
    >)
        ensures
            match r {
                Ok(h) => self.has_cell(index as int, source) && h@ == self.cell(
                    index as int,
                    source,
                ).lock.hash@,
                Err(e) => !self.has_cell(index as int, source) && e == SysError::IndexOutOfBound,
            },
    {
        match self.load_cell(index, source) {
            Ok(c) => Ok(c.lock.hash),
            Err(e) => Err(e),
        }
    }

    /// The hash of the type script at a position, absent where the cell has
    /// no type script.
    pub fn load_cell_type_hash(&self, index: usize, source: Source) -> (r: Result<
        Option<crate::hash::Hash>,
        SysError,
    >)
        ensures
            match r {
                Ok(Some(h)) => self.has_cell(index as int, source) && self.cell(
                    index as int,
                    source,
                ).spec_type_hash() == Some(h@),
                Ok(None) => self.has_cell(index as int, source) && self.cell(
                    index as int,
                    source,
                ).spec_type_hash() is None,
                Err(e) => !self.has_cell(index as int, source) && e == SysError::IndexOutOfBound,
            },
    {
        match self.load_cell(index, source) {
            Ok(c) => Ok(c.type_hash()),
            Err(e) => Err(e),
        }
    }

    /// The payload attached to a position. Fails with `IndexOutOfBound`
    /// where there is no cell or nothing attached, and with `Encoding` where
    /// what is attached is no payload.
    pub fn load_witness_args(&self, index: usize, source: Source) -> (r: Result<
        &WitnessArgs,
        SysError,
    >)
        ensures
            match r {
                Ok(w) => self.has_cell(index as int, source) && self.cell(
                    index as int,
                    source,
                ).witness == Witness::Args(*w),
                Err(e) => if self.has_cell(index as int, source) {
                    Err::<WitnessArgs, SysError>(e) == self.cell(
                        index as int,
                        source,
                    ).spec_witness_args()
                } else {
                    e == SysError::IndexOutOfBound
                },
            },
    {
        match self.load_cell(index, source) {
            Ok(c) => match &c.witness {
                Witness::Args(w) => Ok(w),
                Witness::Absent => Err(SysError::IndexOutOfBound),
                Witness::Malformed => Err(SysError::Encoding),
            },
            Err(e) => Err(e),
        }
    }

    /// The elapsed-time field declared for an input. Outputs declare none:
    /// the query finds nothing on their side.
    pub fn load_input_since(&self, index: usize, source: Source) -> (r: Result<u64, SysError>)
        ensures
            r == self.spec_input_since(index as int, source),
    {
        if !source.is_input() {
            return Err(SysError::IndexOutOfBound);
        }
        match self.load_cell(index, source) {
            Ok(c) => Ok(c.since),
            Err(e) => Err(e),
        }
    }

    /// The elapsed-time field declared for the input at a position, or
    /// `IndexOutOfBound` where the side has no input there.
    pub open spec fn spec_input_since(&self, index: int, source: Source) -> Result<u64, SysError> {
        if source.spec_is_input() && self.has_cell(index, source) {
            Ok(self.cell(index, source).since)
        } else {
            Err(SysError::IndexOutOfBound)
        }
    }
}

/// The code hash of the lock at a position.
pub fn load_lock_code_hash(tx: &Transaction, index: usize, source: Source) -> (r: Result<
    crate::hash::Hash,
    SysError,
>)
    ensures
        match r {
            Ok(h) => tx.has_cell(index as int, source) && h@ == tx.cell(
                index as int,
                source,
            ).lock.code_hash@,
            Err(e) => !tx.has_cell(index as int, source) && e == SysError::IndexOutOfBound,
        },
{
    match tx.load_cell(index, source) {
        Ok(c) => Ok(c.lock.code_hash),
        Err(e) => Err(e),
    }
}

/// The code hash of the type script at a position, absent where the cell
/// has no type script.
pub fn load_type_code_hash(tx: &Transaction, index: usize, source: Source) -> (r: Result<
    Option<crate::hash::Hash>,
    SysError,
>)
    ensures
        match r {
            Ok(Some(h)) => tx.has_cell(index as int, source) && tx.cell(
                index as int,
                source,
            ).spec_type_code_hash() == Some(h@),
            Ok(None) => tx.has_cell(index as int, source) && tx.cell(
                index as int,
                source,
            ).spec_type_code_hash() is None,
            Err(e) => !tx.has_cell(index as int, source) && e == SysError::IndexOutOfBound,
        },
{
    match tx.load_cell(index, source) {
        Ok(c) => Ok(c.type_code_hash()),
        Err(e) => Err(e),
    }
}

/// The positions among `cells` that have `hash` in `field`, in increasing
/// order.
pub open spec fn matching_indexs(cells: Seq<Cell>, field: HashField, hash: Seq<u8>) -> Seq<usize>
    decreases cells.len(),
{
    if cells.len() == 0 {
        Seq::empty()
    } else {
        let rest = matching_indexs(cells.drop_last(), field, hash);
        if cells.last().matches(field, hash) {
            rest.push((cells.len() - 1) as usize)
        } else {
            rest
        }
    }
}

/// Whether some cell among `cells` has `hash` in `field`.
pub open spec fn has_match(cells: Seq<Cell>, field: HashField, hash: Seq<u8>) -> bool {
    exists|i: int| 0 <= i < cells.len() && (#[trigger] cells[i]).matches(field, hash)
}

/// The list of matching positions holds exactly the positions that match,
/// each once and in increasing order.
pub proof fn lemma_matching_indexs(cells: Seq<Cell>, field: HashField, hash: Seq<u8>)
    requires
        cells.len() <= usize::MAX,
    ensures
        forall|k: int|
            0 <= k < matching_indexs(cells, field, hash).len() ==> {
                &&& (#[trigger] matching_indexs(cells, field, hash)[k]) < cells.len()
                &&& cells[matching_indexs(cells, field, hash)[k] as int].matches(field, hash)
            },
        forall|j: int, k: int|
            0 <= j < k < matching_indexs(cells, field, hash).len() ==> matching_indexs(
                cells,
                field,
                hash,
            )[j] < matching_indexs(cells, field, hash)[k],
        forall|i: int|
            0 <= i < cells.len() && (#[trigger] cells[i]).matches(field, hash)
                ==> matching_indexs(cells, field, hash).contains(i as usize),
        matching_indexs(cells, field, hash).len() <= cells.len(),
        has_match(cells, field, hash) == (matching_indexs(cells, field, hash).len() > 0),
    decreases cells.len(),
{
    let all = matching_indexs(cells, field, hash);
    if cells.len() > 0 {
        let front = cells.drop_last();
        let rest = matching_indexs(front, field, hash);
        lemma_matching_indexs(front, field, hash);
        let last = (cells.len() - 1) as usize;
        assert forall|i: int|
            0 <= i < cells.len() && (#[trigger] cells[i]).matches(field, hash) implies all.contains(
            i as usize,
        ) by {
            if i < cells.len() - 1 {
                assert(front[i] == cells[i]);
                assert(rest.contains(i as usize));
                let k = choose|k: int| 0 <= k < rest.len() && rest[k] == i as usize;
                assert(all[k] == i as usize);
            } else {
                assert(all[all.len() - 1] == last);
            }
        }
        assert forall|k: int| 0 <= k < all.len() implies (#[trigger] all[k]) < cells.len()
            && cells[all[k] as int].matches(field, hash) by {
            if k < rest.len() {
                assert(all[k] == rest[k]);
                assert(front[rest[k] as int] == cells[rest[k] as int]);
            } else {
                assert(all[k] == last);
            }
        }
        assert forall|j: int, k: int| 0 <= j < k < all.len() implies all[j] < all[k] by {
            assert(all[j] == rest[j]);
            if k < rest.len() {
                assert(all[k] == rest[k]);
            } else {
                assert(all[k] == last);
                assert(rest[j] < front.len());
            }
        }
        if has_match(cells, field, hash) {
            let i = choose|i: int| 0 <= i < cells.len() && (#[trigger] cells[i]).matches(field, hash);
            assert(all.contains(i as usize));
        }
        if all.len() > 0 {
            assert(cells[all[0] as int].matches(field, hash));
        }
    }
}

/// The positions of `source` whose cell has `hash` in `field`: every such
/// position and no other, each once, in increasing order.
pub fn get_indexs(tx: &Transaction, field: HashField, hash: &crate::hash::Hash, source: Source) -> (r:
    Vec<usize>)
    ensures
        r@ == matching_indexs(tx.cells(source), field, hash@),
        forall|k: int|
            0 <= k < r@.len() ==> (#[trigger] r@[k]) < tx.cells(source).len() && tx.cells(
                source,
            )[r@[k] as int].matches(field, hash@),
        forall|j: int, k: int| 0 <= j < k < r@.len() ==> r@[j] < r@[k],
        forall|i: int|
            0 <= i < tx.cells(source).len() && (#[trigger] tx.cells(source)[i]).matches(
                field,
                hash@,
            ) ==> r@.contains(i as usize),
        (r@.len() > 0) == has_match(tx.cells(source), field, hash@),
{
    let cells = tx.source_cells(source);
    let mut found: Vec<usize> = Vec::new();
    let mut i: usize = 0;
    assert(cells@.take(0) =~= Seq::<Cell>::empty());
    while i < cells.len()
        invariant
            i <= cells@.len(),
            found@ == matching_indexs(cells@.take(i as int), field, hash@),
        decreases cells@.len() - i,
    {
        assert(cells@.take(i + 1).drop_last() =~= cells@.take(i as int));
        if cells[i].has(field, hash) {
            found.push(i);
        }
        i += 1;
    }
    assert(cells@.take(i as int) =~= cells@);
    proof {
        lemma_matching_indexs(cells@, field, hash@);
    }
    found
}

/// Whether some position of `source` has `hash` in `field`.
pub fn any_cell(tx: &Transaction, field: HashField, hash: &crate::hash::Hash, source: Source) -> (r:
    bool)
    ensures
        r == has_match(tx.cells(source), field, hash@),
{
    let cells = tx.source_cells(source);
    let mut i: usize = 0;
    while i < cells.len()
        invariant
            cells@ == tx.cells(source),
            i <= cells@.len(),
            forall|j: int| 0 <= j < i ==> !(#[trigger] cells@[j]).matches(field, hash@),
        decreases cells@.len() - i,
    {
        if cells[i].has(field, hash) {
            assert(cells@[i as int].matches(field, hash@));
            return true;
        }
        i += 1;
    }
    false
}

/// The hashes that a byte string of a whole number of 32-byte chunks holds.
pub open spec fn spec_args_hashes(args: Seq<u8>) -> Seq<Seq<u8>> {
    Seq::new((args.len() / 32) as nat, |i: int| args.subrange(32 * i, 32 * i + 32))
}

/// The hashes a list of hash values stands for.
pub open spec fn hashes_view(hashes: Seq<crate::hash::Hash>) -> Seq<Seq<u8>> {
    hashes.map_values(|h: crate::hash::Hash| h@)
}

/// The arguments of the running script as a list of hashes: one hash for
/// every 32 bytes, in order. Arguments that are not a whole number of hashes
/// are a `VerifiedData` failure.
pub fn load_args_to_hash(tx: &Transaction) -> (r: Result<Vec<crate::hash::Hash>, SilentBerryError>)
    ensures
        match r {
            Ok(hashes) => {
                &&& tx.script.args@.len() % 32 == 0
                &&& hashes_view(hashes@) == spec_args_hashes(tx.script.args@)
                &&& hashes@.len() * 32 == tx.script.args@.len()
                &&& forall|i: int|
                    0 <= i < hashes@.len() ==> (#[trigger] hashes@[i])@
                        == tx.script.args@.subrange(32 * i, 32 * i + 32)
            },
            Err(e) => tx.script.args@.len() % 32 != 0 && e == SilentBerryError::VerifiedData,
        },
{
    let args = tx.script.args.as_slice();
    if args.len() % 32 != 0 {
        return Err(SilentBerryError::VerifiedData);
    }
    let len: usize = args.len();
    let count: usize = len / 32;
    let mut hashes: Vec<crate::hash::Hash> = Vec::new();
    let mut i: usize = 0;
    while i < count
        invariant
            i <= count,
            len == args@.len(),
            count == args@.len() / 32,
            args@.len() % 32 == 0,
            hashes@.len() == i,
            forall|j: int| 0 <= j < i ==> (#[trigger] hashes@[j])@ == args@.subrange(32 * j, 32 * j + 32),
        decreases count - i,
    {
        assert(32 * i + 32 <= args@.len()) by (nonlinear_arith)
            requires
                i < count,
                count == args@.len() / 32,
                args@.len() % 32 == 0,
        ;
        let h = crate::wire::read_hash(args, 32 * i);
        hashes.push(h);
        i += 1;
    }
    assert(hashes_view(hashes@) =~= spec_args_hashes(tx.script.args@));
    Ok(hashes)
}

} // verus!
