//! The ledger cell of an account book and the witness of a transition.
use crate::error::SilentBerryError;
use crate::wire::{
    lemma_prefixed_canonical, lemma_prefixed_round_trip, push_hash, push_prefixed, push_u128,
    push_u32, read_hash, read_prefixed, read_u128, read_u32, spec_has_prefixed, spec_hash_at,
    spec_prefixed, spec_prefixed_at, spec_prefixed_end, spec_u128_at, spec_u32_at,
};
use vstd::bytes::*;
use vstd::prelude::*;
use vstd::slice::slice_index_get;

verus! {

/// The persistent record of one account book: the two parties that are
/// known by name, the price of a sale, how revenue is shared, and the
/// commitment to the current balances.
#[derive(Clone, Debug)]
pub struct AccountBookCellData {
    pub auther_id: crate::hash::Hash,
    pub platform_id: crate::hash::Hash,
    /// Price of one sale.
    pub price: u128,
    /// Percentages: the platform's, the author's, then one per tier.
    pub profit_distribution_ratio: Vec<u8>,
    /// Per tier, the number of buyers among whom the tier's share is split.
    pub profit_distribution_number: Vec<u8>,
    /// Root of the tree of balances.
    pub smt_root_hash: crate::hash::Hash,
    /// Number of sales so far.
    pub buyer_count: u32,
}

/// The value of an [`AccountBookCellData`].
pub struct AccountBookCellDataView {
    pub auther_id: Seq<u8>,
    pub platform_id: Seq<u8>,
    pub price: u128,
    pub profit_distribution_ratio: Seq<u8>,
    pub profit_distribution_number: Seq<u8>,
    pub smt_root_hash: Seq<u8>,
    pub buyer_count: u32,
}

impl View for AccountBookCellData {
    type V = AccountBookCellDataView;

    open spec fn view(&self) -> AccountBookCellDataView {
        AccountBookCellDataView {
            auther_id: self.auther_id@,
            platform_id: self.platform_id@,
            price: self.price,
            profit_distribution_ratio: self.profit_distribution_ratio@,
            profit_distribution_number: self.profit_distribution_number@,
            smt_root_hash: self.smt_root_hash@,
            buyer_count: self.buyer_count,
        }
    }
}

impl AccountBookCellDataView {
    /// Both tables fit a 32-bit length.
    pub open spec fn tables_fit(self) -> bool {
        &&& self.profit_distribution_ratio.len() <= u32::MAX
        &&& self.profit_distribution_number.len() <= u32::MAX
    }

    /// Every hash has 32 bytes and both tables fit a 32-bit length.
    pub open spec fn well_formed(self) -> bool {
        &&& self.auther_id.len() == 32
        &&& self.platform_id.len() == 32
        &&& self.smt_root_hash.len() == 32
        &&& self.tables_fit()
    }

    /// The 116 bytes of fields with a fixed length.
    pub open spec fn encode_fixed(self) -> Seq<u8> {
        self.auther_id + self.platform_id + spec_u128_to_le_bytes(self.price) + self.smt_root_hash
            + spec_u32_to_le_bytes(self.buyer_count)
    }

    /// The record on the wire: the fixed fields, then the two tables, each
    /// behind its length.
    pub open spec fn encode(self) -> Seq<u8> {
        self.encode_fixed() + spec_prefixed(self.profit_distribution_ratio) + spec_prefixed(
            self.profit_distribution_number,
        )
    }

    /// Whether every field but the root and the buyer counter is the same in
    /// both records.
    pub open spec fn same_terms(self, other: AccountBookCellDataView) -> bool {
        &&& self.auther_id == other.auther_id
        &&& self.platform_id == other.platform_id
        &&& self.price == other.price
        &&& self.profit_distribution_ratio == other.profit_distribution_ratio
        &&& self.profit_distribution_number == other.profit_distribution_number
    }
}

impl AccountBookCellData {
    /// Length of the fields with a fixed length.
    pub const FIXED_LEN: usize = 116;

    /// Whether `s` is laid out as a record: the fixed fields, then two
    /// length-prefixed tables that end where `s` ends.
    pub open spec fn spec_layout(s: Seq<u8>) -> bool {
        &&& s.len() >= 116
        &&& spec_has_prefixed(s, 116)
        &&& spec_has_prefixed(s, spec_prefixed_end(s, 116))
        &&& spec_prefixed_end(s, spec_prefixed_end(s, 116)) == s.len()
    }

    /// The record that `s` holds, if `s` is the encoding of one.
    pub open spec fn spec_parse(s: Seq<u8>) -> Option<AccountBookCellDataView> {
        if Self::spec_layout(s) {
            Some(
                AccountBookCellDataView {
                    auther_id: spec_hash_at(s, 0),
                    platform_id: spec_hash_at(s, 32),
                    price: spec_u128_at(s, 64),
                    profit_distribution_ratio: spec_prefixed_at(s, 116),
                    profit_distribution_number: spec_prefixed_at(s, spec_prefixed_end(s, 116)),
                    smt_root_hash: spec_hash_at(s, 80),
                    buyer_count: spec_u32_at(s, 112),
                },
            )
        } else {
            None
        }
    }

    /// Decodes a record; bytes that are not the encoding of one are a
    /// `MolVerification` failure.
    pub fn from_slice(data: &[u8]) -> (r: Result<AccountBookCellData, SilentBerryError>)
        ensures
            match r {
                Ok(v) => Self::spec_parse(data@) == Some(v@) && v@.encode() == data@
                    && v@.well_formed(),
                Err(e) => e == SilentBerryError::MolVerification && Self::spec_parse(data@) is None,
            },
    {
        proof {
            if Self::spec_parse(data@) is Some {
                Self::lemma_encode_parse(data@);
            }
        }
        if data.len() < 116 {
            return Err(SilentBerryError::MolVerification);
        }
        let (ratio, ratio_end) = match read_prefixed(data, 116) {
            Some(found) => found,
            None => {
                return Err(SilentBerryError::MolVerification);
            },
        };
        let (number, number_end) = match read_prefixed(data, ratio_end) {
            Some(found) => found,
            None => {
                return Err(SilentBerryError::MolVerification);
            },
        };
        if number_end != data.len() {
            return Err(SilentBerryError::MolVerification);
        }
        Ok(
            AccountBookCellData {
                auther_id: read_hash(data, 0),
                platform_id: read_hash(data, 32),
                price: read_u128(data, 64),
                profit_distribution_ratio: ratio,
                profit_distribution_number: number,
                smt_root_hash: read_hash(data, 80),
                buyer_count: read_u32(data, 112),
            },
        )
    }

    /// Encodes the record, whose tables must fit a 32-bit length.
    pub fn as_bytes(&self) -> (out: Vec<u8>)
        requires
            self@.tables_fit(),
        ensures
            out@ == self@.encode(),
    {
        let mut out: Vec<u8> = Vec::new();
        push_hash(&mut out, &self.auther_id);
        push_hash(&mut out, &self.platform_id);
        push_u128(&mut out, self.price);
        push_hash(&mut out, &self.smt_root_hash);
        push_u32(&mut out, self.buyer_count);
        assert(out@ =~= self@.encode_fixed());
        push_prefixed(&mut out, self.profit_distribution_ratio.as_slice());
        push_prefixed(&mut out, self.profit_distribution_number.as_slice());
        out
    }

    /// Decoding undoes encoding.
    pub proof fn lemma_parse_encode(v: AccountBookCellDataView)
        requires
            v.well_formed(),
        ensures
            Self::spec_parse(v.encode()) == Some(v),
    {
        lemma_auto_spec_u32_to_from_le_bytes();
        lemma_auto_spec_u128_to_from_le_bytes();
        let s = v.encode();
        let fixed = v.encode_fixed();
        let ratio = spec_prefixed(v.profit_distribution_ratio);
        let number = spec_prefixed(v.profit_distribution_number);
        assert(fixed.len() == 116);
        lemma_prefixed_round_trip(fixed, v.profit_distribution_ratio, number);
        lemma_prefixed_round_trip(fixed + ratio, v.profit_distribution_number, Seq::empty());
        assert(fixed + ratio + number + Seq::<u8>::empty() =~= s);
        assert(s.subrange(0, 32) =~= v.auther_id);
        assert(s.subrange(32, 64) =~= v.platform_id);
        assert(s.subrange(64, 80) =~= spec_u128_to_le_bytes(v.price));
        assert(s.subrange(80, 112) =~= v.smt_root_hash);
        assert(s.subrange(112, 116) =~= spec_u32_to_le_bytes(v.buyer_count));
    }

    /// Only the encoding of a record decodes to it.
    pub proof fn lemma_encode_parse(s: Seq<u8>)
        requires
            Self::spec_parse(s) is Some,
        ensures
            Self::spec_parse(s).unwrap().encode() == s,
            Self::spec_parse(s).unwrap().well_formed(),
    {
        lemma_auto_spec_u32_to_from_le_bytes();
        lemma_auto_spec_u128_to_from_le_bytes();
        let v = Self::spec_parse(s).unwrap();
        let mid = spec_prefixed_end(s, 116);
        lemma_prefixed_canonical(s, 116);
        lemma_prefixed_canonical(s, mid);
        assert(v.encode_fixed() =~= s.subrange(0, 116));
        assert(s =~= s.subrange(0, 116) + s.subrange(116, mid) + s.subrange(mid, s.len() as int));
    }
}

/// The witness of a transition. It carries the terms under which the ledger
/// runs (the programs it cooperates with, its token, its collection and its
/// level), which no transition may change, and what a transition updates:
/// the cumulative income before the transition, what the withdrawing party
/// had withdrawn before it, if anything, and the proof that ties the declared
/// balances to the committed roots.
#[derive(Clone, Debug)]
pub struct AccountBookData {
    /// Code hash of the listing program.
    pub dob_selling_code_hash: crate::hash::Hash,
    /// Code hash of the buy-intent program.
    pub buy_intent_code_hash: crate::hash::Hash,
    /// Code hash of the withdrawal-intent program.
    pub withdrawal_intent_code_hash: crate::hash::Hash,
    /// Identity of the token in which revenue is held.
    pub xudt_script_hash: crate::hash::Hash,
    /// Code hash of the lock that holds the token escrow.
    pub input_type_proxy_lock_code_hash: crate::hash::Hash,
    /// The collection whose objects are sold.
    pub cluster_id: crate::hash::Hash,
    /// Number of buyer tiers.
    pub level: u8,
    pub total_income_udt: u128,
    pub withdrawn_udt: Option<u128>,
    pub proof: Vec<u8>,
}

/// The value of an [`AccountBookData`].
pub struct AccountBookDataView {
    pub dob_selling_code_hash: Seq<u8>,
    pub buy_intent_code_hash: Seq<u8>,
    pub withdrawal_intent_code_hash: Seq<u8>,
    pub xudt_script_hash: Seq<u8>,
    pub input_type_proxy_lock_code_hash: Seq<u8>,
    pub cluster_id: Seq<u8>,
    pub level: u8,
    pub total_income_udt: u128,
    pub withdrawn_udt: Option<u128>,
    pub proof: Seq<u8>,
}

impl View for AccountBookData {
    type V = AccountBookDataView;

    open spec fn view(&self) -> AccountBookDataView {
        AccountBookDataView {
            dob_selling_code_hash: self.dob_selling_code_hash@,
            buy_intent_code_hash: self.buy_intent_code_hash@,
            withdrawal_intent_code_hash: self.withdrawal_intent_code_hash@,
            xudt_script_hash: self.xudt_script_hash@,
            input_type_proxy_lock_code_hash: self.input_type_proxy_lock_code_hash@,
            cluster_id: self.cluster_id@,
            level: self.level,
            total_income_udt: self.total_income_udt,
            withdrawn_udt: self.withdrawn_udt,
            proof: self.proof@,
        }
    }
}

impl AccountBookDataView {
    /// Every hash has 32 bytes and the proof fits a 32-bit length.
    pub open spec fn well_formed(self) -> bool {
        &&& self.dob_selling_code_hash.len() == 32
        &&& self.buy_intent_code_hash.len() == 32
        &&& self.withdrawal_intent_code_hash.len() == 32
        &&& self.xudt_script_hash.len() == 32
        &&& self.input_type_proxy_lock_code_hash.len() == 32
        &&& self.cluster_id.len() == 32
        &&& self.proof.len() <= u32::MAX
    }

    /// The 193 bytes of the terms: six hashes and the level.
    pub open spec fn encode_terms(self) -> Seq<u8> {
        self.dob_selling_code_hash + self.buy_intent_code_hash + self.withdrawal_intent_code_hash
            + self.xudt_script_hash + self.input_type_proxy_lock_code_hash + self.cluster_id
            + seq![self.level]
    }

    /// An optional amount on the wire: a presence byte, then the amount if
    /// it is present.
    pub open spec fn encode_withdrawn(self) -> Seq<u8> {
        match self.withdrawn_udt {
            Some(a) => seq![1u8] + spec_u128_to_le_bytes(a),
            None => seq![0u8],
        }
    }

    /// The witness on the wire: the terms, the income, the optional
    /// withdrawn amount, then the proof behind its length.
    pub open spec fn encode(self) -> Seq<u8> {
        self.encode_terms() + spec_u128_to_le_bytes(self.total_income_udt)
            + self.encode_withdrawn() + spec_prefixed(self.proof)
    }

    /// Whether both witnesses state the same terms: they may differ in the
    /// income, the withdrawn amount and the proof, and in nothing else.
    pub open spec fn same_terms(self, other: AccountBookDataView) -> bool {
        &&& self.dob_selling_code_hash == other.dob_selling_code_hash
        &&& self.buy_intent_code_hash == other.buy_intent_code_hash
        &&& self.withdrawal_intent_code_hash == other.withdrawal_intent_code_hash
        &&& self.xudt_script_hash == other.xudt_script_hash
        &&& self.input_type_proxy_lock_code_hash == other.input_type_proxy_lock_code_hash
        &&& self.cluster_id == other.cluster_id
        &&& self.level == other.level
    }
}

impl AccountBookData {
    /// Length of the terms on the wire.
    pub const TERMS_LEN: usize = 193;

    /// Where the proof starts in `s`, if the presence byte is valid and the
    /// optional amount lies within `s`.
    pub open spec fn spec_proof_start(s: Seq<u8>) -> Option<int> {
        if s.len() >= 210 && s[209] == 0 {
            Some(210)
        } else if s.len() >= 226 && s[209] == 1 {
            Some(226)
        } else {
            None
        }
    }

    /// The witness that `s` holds, if `s` is the encoding of one.
    pub open spec fn spec_parse(s: Seq<u8>) -> Option<AccountBookDataView> {
        match Self::spec_proof_start(s) {
            Some(start) => if spec_has_prefixed(s, start) && spec_prefixed_end(s, start)
                == s.len() {
                Some(
                    AccountBookDataView {
                        dob_selling_code_hash: spec_hash_at(s, 0),
                        buy_intent_code_hash: spec_hash_at(s, 32),
                        withdrawal_intent_code_hash: spec_hash_at(s, 64),
                        xudt_script_hash: spec_hash_at(s, 96),
                        input_type_proxy_lock_code_hash: spec_hash_at(s, 128),
                        cluster_id: spec_hash_at(s, 160),
                        level: s[192],
                        total_income_udt: spec_u128_at(s, 193),
                        withdrawn_udt: if start == 226 {
                            Some(spec_u128_at(s, 210))
                        } else {
                            None
                        },
                        proof: spec_prefixed_at(s, start),
                    },
                )
            } else {
                None
            },
            None => None,
        }
    }

    /// Decodes a witness; bytes that are not the encoding of one are a
    /// `MolVerification` failure.
    pub fn from_slice(data: &[u8]) -> (r: Result<AccountBookData, SilentBerryError>)
        ensures
            match r {
                Ok(v) => Self::spec_parse(data@) == Some(v@) && v@.encode() == data@
                    && v@.well_formed(),
                Err(e) => e == SilentBerryError::MolVerification && Self::spec_parse(data@) is None,
            },
    {
        proof {
            if Self::spec_parse(data@) is Some {
                Self::lemma_encode_parse(data@);
            }
        }
        let len: usize = data.len();
        if len < 210 {
            return Err(SilentBerryError::MolVerification);
        }
        let presence: u8 = *slice_index_get(data, 209);
        let (withdrawn_udt, start): (Option<u128>, usize) = if presence == 0 {
            (None, 210)
        } else if presence == 1 && len >= 226 {
            (Some(read_u128(data, 210)), 226)
        } else {
            return Err(SilentBerryError::MolVerification);
        };
        let (proof, end) = match read_prefixed(data, start) {
            Some(found) => found,
            None => {
                return Err(SilentBerryError::MolVerification);
            },
        };
        if end != len {
            return Err(SilentBerryError::MolVerification);
        }
        Ok(
            AccountBookData {
                dob_selling_code_hash: read_hash(data, 0),
                buy_intent_code_hash: read_hash(data, 32),
                withdrawal_intent_code_hash: read_hash(data, 64),
                xudt_script_hash: read_hash(data, 96),
                input_type_proxy_lock_code_hash: read_hash(data, 128),
                cluster_id: read_hash(data, 160),
                level: *slice_index_get(data, 192),
                total_income_udt: read_u128(data, 193),
                withdrawn_udt,
                proof,
            },
        )
    }

    /// Encodes the witness, whose proof must fit a 32-bit length.
    pub fn as_bytes(&self) -> (out: Vec<u8>)
        requires
            self@.proof.len() <= u32::MAX,
        ensures
            out@ == self@.encode(),
    {
        let mut out: Vec<u8> = Vec::new();
        push_hash(&mut out, &self.dob_selling_code_hash);
        push_hash(&mut out, &self.buy_intent_code_hash);
        push_hash(&mut out, &self.withdrawal_intent_code_hash);
        push_hash(&mut out, &self.xudt_script_hash);
        push_hash(&mut out, &self.input_type_proxy_lock_code_hash);
        push_hash(&mut out, &self.cluster_id);
        out.push(self.level);
        assert(out@ =~= self@.encode_terms());
        push_u128(&mut out, self.total_income_udt);
        match self.withdrawn_udt {
            Some(a) => {
                out.push(1u8);
                push_u128(&mut out, a);
            },
            None => {
                out.push(0u8);
            },
        }
        assert(out@ =~= self@.encode_terms() + spec_u128_to_le_bytes(self.total_income_udt)
            + self@.encode_withdrawn());
        push_prefixed(&mut out, self.proof.as_slice());
        out
    }

    /// Decoding undoes encoding.
    pub proof fn lemma_parse_encode(v: AccountBookDataView)
        requires
            v.well_formed(),
        ensures
            Self::spec_parse(v.encode()) == Some(v),
    {
        lemma_auto_spec_u32_to_from_le_bytes();
        lemma_auto_spec_u128_to_from_le_bytes();
        let s = v.encode();
        let head = v.encode_terms() + spec_u128_to_le_bytes(v.total_income_udt)
            + v.encode_withdrawn();
        lemma_prefixed_round_trip(head, v.proof, Seq::empty());
        assert(head + spec_prefixed(v.proof) + Seq::<u8>::empty() =~= s);
        assert(v.encode_terms().len() == 193);
        assert(s.subrange(0, 32) =~= v.dob_selling_code_hash);
        assert(s.subrange(32, 64) =~= v.buy_intent_code_hash);
        assert(s.subrange(64, 96) =~= v.withdrawal_intent_code_hash);
        assert(s.subrange(96, 128) =~= v.xudt_script_hash);
        assert(s.subrange(128, 160) =~= v.input_type_proxy_lock_code_hash);
        assert(s.subrange(160, 192) =~= v.cluster_id);
        assert(s[192] == v.level);
        assert(s.subrange(193, 209) =~= spec_u128_to_le_bytes(v.total_income_udt));
        match v.withdrawn_udt {
            Some(a) => {
                assert(head.len() == 226);
                assert(s[209] == 1);
                assert(s.subrange(210, 226) =~= spec_u128_to_le_bytes(a));
                assert(Self::spec_proof_start(s) == Some(226int));
            },
            None => {
                assert(head.len() == 210);
                assert(s[209] == 0);
                assert(Self::spec_proof_start(s) == Some(210int));
            },
        }
    }

    /// Only the encoding of a witness decodes to it.
    pub proof fn lemma_encode_parse(s: Seq<u8>)
        requires
            Self::spec_parse(s) is Some,
        ensures
            Self::spec_parse(s).unwrap().encode() == s,
            Self::spec_parse(s).unwrap().well_formed(),
    {
        lemma_auto_spec_u32_to_from_le_bytes();
        lemma_auto_spec_u128_to_from_le_bytes();
        let v = Self::spec_parse(s).unwrap();
        let start = Self::spec_proof_start(s).unwrap();
        lemma_prefixed_canonical(s, start);
        assert(v.encode_terms() =~= s.subrange(0, 193));
        assert(v.encode_terms() + spec_u128_to_le_bytes(v.total_income_udt) + v.encode_withdrawn()
            =~= s.subrange(0, start));
        assert(s =~= s.subrange(0, start) + s.subrange(start, s.len() as int));
    }
}

} // verus!
