//! Intent records: a buy intent, a withdrawal intent and a listing. Each is
//! created as a standalone record and consumed once, by fulfilment or by
//! revocation.
use crate::error::SilentBerryError;
use crate::wire::{
    push_hash, push_u128, push_u64, read_hash, read_u128, read_u64, spec_hash_at, spec_u128_at,
    spec_u64_at,
};
use vstd::slice::slice_index_get;
use vstd::bytes::*;
use vstd::prelude::*;

verus! {

/// A commitment to buy: the token, the listing it pays, the price, and the
/// terms under which the payment returns to its owner.
#[derive(Clone, Copy, Debug)]
pub struct BuyIntentData {
    pub xudt_script_hash: crate::hash::Hash,
    pub dob_selling_script_hash: crate::hash::Hash,
    pub price: u128,
    pub min_capacity: u64,
    pub expire_since: u64,
    pub owner_script_hash: crate::hash::Hash,
}

/// The value of a [`BuyIntentData`].
pub struct BuyIntentDataView {
    pub xudt_script_hash: Seq<u8>,
    pub dob_selling_script_hash: Seq<u8>,
    pub price: u128,
    pub min_capacity: u64,
    pub expire_since: u64,
    pub owner_script_hash: Seq<u8>,
}

impl View for BuyIntentData {
    type V = BuyIntentDataView;

    open spec fn view(&self) -> BuyIntentDataView {
        BuyIntentDataView {
            xudt_script_hash: self.xudt_script_hash@,
            dob_selling_script_hash: self.dob_selling_script_hash@,
            price: self.price,
            min_capacity: self.min_capacity,
            expire_since: self.expire_since,
            owner_script_hash: self.owner_script_hash@,
        }
    }
}

impl BuyIntentDataView {
    /// Every hash has 32 bytes.
    pub open spec fn well_formed(self) -> bool {
        &&& self.xudt_script_hash.len() == 32
        &&& self.dob_selling_script_hash.len() == 32
        &&& self.owner_script_hash.len() == 32
    }

    /// The record on the wire: its fields in declaration order, 128 bytes.
    pub open spec fn encode(self) -> Seq<u8> {
        self.xudt_script_hash + self.dob_selling_script_hash + spec_u128_to_le_bytes(self.price)
            + spec_u64_to_le_bytes(self.min_capacity) + spec_u64_to_le_bytes(self.expire_since)
            + self.owner_script_hash
    }
}

impl BuyIntentData {
    /// Length of the record on the wire.
    pub const WIRE_LEN: usize = 128;

    /// The record that `s` holds, if `s` has the record's length.
    pub open spec fn spec_parse(s: Seq<u8>) -> Option<BuyIntentDataView> {
        if s.len() == 128 {
            Some(
                BuyIntentDataView {
                    xudt_script_hash: spec_hash_at(s, 0),
                    dob_selling_script_hash: spec_hash_at(s, 32),
                    price: spec_u128_at(s, 64),
                    min_capacity: spec_u64_at(s, 80),
                    expire_since: spec_u64_at(s, 88),
                    owner_script_hash: spec_hash_at(s, 96),
                },
            )
        } else {
            None
        }
    }

    /// Decodes a record; bytes of any other length are a `MolVerification`
    /// failure.
    pub fn from_slice(data: &[u8]) -> (r: Result<BuyIntentData, SilentBerryError>)
        ensures
            match r {
                Ok(v) => Self::spec_parse(data@) == Some(v@) && v@.encode() == data@
                    && v@.well_formed(),
                Err(e) => e == SilentBerryError::MolVerification && Self::spec_parse(data@) is None,
            },
    {
        proof {
            if Self::spec_parse(data@) is Some {
                Self::lemma_encode_parse(data@);
            }
        }
        if data.len() != 128 {
            return Err(SilentBerryError::MolVerification);
        }
        Ok(
            BuyIntentData {
                xudt_script_hash: read_hash(data, 0),
                dob_selling_script_hash: read_hash(data, 32),
                price: read_u128(data, 64),
                min_capacity: read_u64(data, 80),
                expire_since: read_u64(data, 88),
                owner_script_hash: read_hash(data, 96),
            },
        )
    }

    /// Encodes the record.
    pub fn as_bytes(&self) -> (out: Vec<u8>)
        ensures
            out@ == self@.encode(),
    {
        let mut out: Vec<u8> = Vec::new();
        push_hash(&mut out, &self.xudt_script_hash);
        push_hash(&mut out, &self.dob_selling_script_hash);
        push_u128(&mut out, self.price);
        push_u64(&mut out, self.min_capacity);
        push_u64(&mut out, self.expire_since);
        push_hash(&mut out, &self.owner_script_hash);
        assert(out@ =~= self@.encode());
        out
    }

    /// Decoding undoes encoding.
    pub proof fn lemma_parse_encode(v: BuyIntentDataView)
        requires
            v.well_formed(),
        ensures
            Self::spec_parse(v.encode()) == Some(v),
    {
        lemma_auto_spec_u64_to_from_le_bytes();
        lemma_auto_spec_u128_to_from_le_bytes();
        let s = v.encode();
        assert(s.subrange(0, 32) =~= v.xudt_script_hash);
        assert(s.subrange(32, 64) =~= v.dob_selling_script_hash);
        assert(s.subrange(64, 80) =~= spec_u128_to_le_bytes(v.price));
        assert(s.subrange(80, 88) =~= spec_u64_to_le_bytes(v.min_capacity));
        assert(s.subrange(88, 96) =~= spec_u64_to_le_bytes(v.expire_since));
        assert(s.subrange(96, 128) =~= v.owner_script_hash);
    }

    /// Only the encoding of a record decodes to it.
    pub proof fn lemma_encode_parse(s: Seq<u8>)
        requires
            Self::spec_parse(s) is Some,
        ensures
            Self::spec_parse(s).unwrap().encode() == s,
            Self::spec_parse(s).unwrap().well_formed(),
    {
        lemma_auto_spec_u64_to_from_le_bytes();
        lemma_auto_spec_u128_to_from_le_bytes();
        let v = Self::spec_parse(s).unwrap();
        assert(v.encode() =~= s);
    }
}

/// A listing: the digital object on sale, the buy intent that pays for it,
/// the account book that takes the payment, and the owner to whom the payment
/// returns when the sale is revoked.
#[derive(Clone, Copy, Debug)]
pub struct DobSellingData {
    pub spore_code_hash: crate::hash::Hash,
    pub spore_data_hash: crate::hash::Hash,
    pub buy_intent_code_hash: crate::hash::Hash,
    pub account_book_script_hash: crate::hash::Hash,
    pub owner_script_hash: crate::hash::Hash,
    pub spore_lock_script_hash: crate::hash::Hash,
}

/// The value of a [`DobSellingData`].
pub struct DobSellingDataView {
    pub spore_code_hash: Seq<u8>,
    pub spore_data_hash: Seq<u8>,
    pub buy_intent_code_hash: Seq<u8>,
    pub account_book_script_hash: Seq<u8>,
    pub owner_script_hash: Seq<u8>,
    pub spore_lock_script_hash: Seq<u8>,
}

impl View for DobSellingData {
    type V = DobSellingDataView;

    open spec fn view(&self) -> DobSellingDataView {
        DobSellingDataView {
            spore_code_hash: self.spore_code_hash@,
            spore_data_hash: self.spore_data_hash@,
            buy_intent_code_hash: self.buy_intent_code_hash@,
            account_book_script_hash: self.account_book_script_hash@,
            owner_script_hash: self.owner_script_hash@,
            spore_lock_script_hash: self.spore_lock_script_hash@,
        }
    }
}

impl DobSellingDataView {
    /// Every hash has 32 bytes.
    pub open spec fn well_formed(self) -> bool {
        &&& self.spore_code_hash.len() == 32
        &&& self.spore_data_hash.len() == 32
        &&& self.buy_intent_code_hash.len() == 32
        &&& self.account_book_script_hash.len() == 32
        &&& self.owner_script_hash.len() == 32
        &&& self.spore_lock_script_hash.len() == 32
    }

    /// The record on the wire: its six hashes in declaration order.
    pub open spec fn encode(self) -> Seq<u8> {
        self.spore_code_hash + self.spore_data_hash + self.buy_intent_code_hash
            + self.account_book_script_hash + self.owner_script_hash + self.spore_lock_script_hash
    }
}

impl DobSellingData {
    /// Length of the record on the wire.
    pub const WIRE_LEN: usize = 192;

    /// The record that `s` holds, if `s` has the record's length.
    pub open spec fn spec_parse(s: Seq<u8>) -> Option<DobSellingDataView> {
        if s.len() == 192 {
            Some(
                DobSellingDataView {
                    spore_code_hash: spec_hash_at(s, 0),
                    spore_data_hash: spec_hash_at(s, 32),
                    buy_intent_code_hash: spec_hash_at(s, 64),
                    account_book_script_hash: spec_hash_at(s, 96),
                    owner_script_hash: spec_hash_at(s, 128),
                    spore_lock_script_hash: spec_hash_at(s, 160),
                },
            )
        } else {
            None
        }
    }

    /// Decodes a record; bytes of any other length are a `MolVerification`
    /// failure.
    pub fn from_slice(data: &[u8]) -> (r: Result<DobSellingData, SilentBerryError>)
        ensures
            match r {
                Ok(v) => Self::spec_parse(data@) == Some(v@) && v@.encode() == data@
                    && v@.well_formed(),
                Err(e) => e == SilentBerryError::MolVerification && Self::spec_parse(data@) is None,
            },
    {
        proof {
            if Self::spec_parse(data@) is Some {
                Self::lemma_encode_parse(data@);
            }
        }
        if data.len() != 192 {
            return Err(SilentBerryError::MolVerification);
        }
        Ok(
            DobSellingData {
                spore_code_hash: read_hash(data, 0),
                spore_data_hash: read_hash(data, 32),
                buy_intent_code_hash: read_hash(data, 64),
                account_book_script_hash: read_hash(data, 96),
                owner_script_hash: read_hash(data, 128),
                spore_lock_script_hash: read_hash(data, 160),
            },
        )
    }

    /// Encodes the record.
    pub fn as_bytes(&self) -> (out: Vec<u8>)
        ensures
            out@ == self@.encode(),
    {
        let mut out: Vec<u8> = Vec::new();
        push_hash(&mut out, &self.spore_code_hash);
        push_hash(&mut out, &self.spore_data_hash);
        push_hash(&mut out, &self.buy_intent_code_hash);
        push_hash(&mut out, &self.account_book_script_hash);
        push_hash(&mut out, &self.owner_script_hash);
        push_hash(&mut out, &self.spore_lock_script_hash);
        assert(out@ =~= self@.encode());
        out
    }

    /// Decoding undoes encoding.
    pub proof fn lemma_parse_encode(v: DobSellingDataView)
        requires
            v.well_formed(),
        ensures
            Self::spec_parse(v.encode()) == Some(v),
    {
        let s = v.encode();
        assert(s.subrange(0, 32) =~= v.spore_code_hash);
        assert(s.subrange(32, 64) =~= v.spore_data_hash);
        assert(s.subrange(64, 96) =~= v.buy_intent_code_hash);
        assert(s.subrange(96, 128) =~= v.account_book_script_hash);
        assert(s.subrange(128, 160) =~= v.owner_script_hash);
        assert(s.subrange(160, 192) =~= v.spore_lock_script_hash);
    }

    /// Only the encoding of a record decodes to it.
    pub proof fn lemma_encode_parse(s: Seq<u8>)
        requires
            Self::spec_parse(s) is Some,
        ensures
            Self::spec_parse(s).unwrap().encode() == s,
            Self::spec_parse(s).unwrap().well_formed(),
    {
        let v = Self::spec_parse(s).unwrap();
        assert(v.encode() =~= s);
    }
}

/// What a buyer states of the digital object that entitles to a share: the
/// program that governs it, its tier, its identity and its collection.
#[derive(Clone, Copy, Debug)]
pub struct WithdrawalSporeInfo {
    pub spore_code_hash: crate::hash::Hash,
    pub spore_level: u8,
    pub spore_id: crate::hash::Hash,
    pub cluster_id: crate::hash::Hash,
}

/// The value of a [`WithdrawalSporeInfo`].
pub struct WithdrawalSporeInfoView {
    pub spore_code_hash: Seq<u8>,
    pub spore_level: u8,
    pub spore_id: Seq<u8>,
    pub cluster_id: Seq<u8>,
}

impl View for WithdrawalSporeInfo {
    type V = WithdrawalSporeInfoView;

    open spec fn view(&self) -> WithdrawalSporeInfoView {
        WithdrawalSporeInfoView {
            spore_code_hash: self.spore_code_hash@,
            spore_level: self.spore_level,
            spore_id: self.spore_id@,
            cluster_id: self.cluster_id@,
        }
    }
}

impl WithdrawalSporeInfoView {
    /// Every hash has 32 bytes.
    pub open spec fn well_formed(self) -> bool {
        &&& self.spore_code_hash.len() == 32
        &&& self.spore_id.len() == 32
        &&& self.cluster_id.len() == 32
    }

    /// The 97 bytes of the record: code hash, tier, identity, collection.
    pub open spec fn encode(self) -> Seq<u8> {
        self.spore_code_hash + seq![self.spore_level] + self.spore_id + self.cluster_id
    }
}

/// The party that withdraws: the holder of a digital object of some tier, or
/// a party known by its script hash (the platform or the author).
#[derive(Clone, Copy, Debug)]
pub enum WithdrawalBuyer {
    Byte32(crate::hash::Hash),
    WithdrawalSporeInfo(WithdrawalSporeInfo),
}

/// The value of a [`WithdrawalBuyer`].
pub enum WithdrawalBuyerView {
    Byte32(Seq<u8>),
    WithdrawalSporeInfo(WithdrawalSporeInfoView),
}

impl View for WithdrawalBuyer {
    type V = WithdrawalBuyerView;

    open spec fn view(&self) -> WithdrawalBuyerView {
        match self {
            WithdrawalBuyer::Byte32(h) => WithdrawalBuyerView::Byte32(h@),
            WithdrawalBuyer::WithdrawalSporeInfo(info) => WithdrawalBuyerView::WithdrawalSporeInfo(
                info@,
            ),
        }
    }
}

impl WithdrawalBuyerView {
    /// Every hash has 32 bytes.
    pub open spec fn well_formed(self) -> bool {
        match self {
            WithdrawalBuyerView::Byte32(h) => h.len() == 32,
            WithdrawalBuyerView::WithdrawalSporeInfo(info) => info.well_formed(),
        }
    }

    /// The party on the wire: a tag byte, 0 for a script hash and 1 for a
    /// digital object, then the fields of that alternative.
    pub open spec fn encode(self) -> Seq<u8> {
        match self {
            WithdrawalBuyerView::Byte32(h) => seq![0u8] + h,
            WithdrawalBuyerView::WithdrawalSporeInfo(info) => seq![1u8] + info.encode(),
        }
    }
}

/// A request to withdraw a share: the token, where the payout goes, who asks,
/// and the terms under which the request lapses.
#[derive(Clone, Copy, Debug)]
pub struct WithdrawalIntentData {
    pub xudt_script_hash: crate::hash::Hash,
    pub xudt_lock_script_hash: crate::hash::Hash,
    pub expire_since: u64,
    pub owner_script_hash: crate::hash::Hash,
    pub buyer: WithdrawalBuyer,
}

/// The value of a [`WithdrawalIntentData`].
pub struct WithdrawalIntentDataView {
    pub xudt_script_hash: Seq<u8>,
    pub xudt_lock_script_hash: Seq<u8>,
    pub expire_since: u64,
    pub owner_script_hash: Seq<u8>,
    pub buyer: WithdrawalBuyerView,
}

impl View for WithdrawalIntentData {
    type V = WithdrawalIntentDataView;

    open spec fn view(&self) -> WithdrawalIntentDataView {
        WithdrawalIntentDataView {
            xudt_script_hash: self.xudt_script_hash@,
            xudt_lock_script_hash: self.xudt_lock_script_hash@,
            expire_since: self.expire_since,
            owner_script_hash: self.owner_script_hash@,
            buyer: self.buyer@,
        }
    }
}

impl WithdrawalIntentDataView {
    /// Every hash has 32 bytes.
    pub open spec fn well_formed(self) -> bool {
        &&& self.xudt_script_hash.len() == 32
        &&& self.xudt_lock_script_hash.len() == 32
        &&& self.owner_script_hash.len() == 32
        &&& self.buyer.well_formed()
    }

    /// The record on the wire: 104 bytes of fixed fields, then the party.
    pub open spec fn encode(self) -> Seq<u8> {
        self.xudt_script_hash + self.xudt_lock_script_hash + spec_u64_to_le_bytes(
            self.expire_since,
        ) + self.owner_script_hash + self.buyer.encode()
    }
}

impl WithdrawalIntentData {
    /// The party that `s` holds from position 104 on, if the tag and the
    /// length agree.
    pub open spec fn spec_parse_buyer(s: Seq<u8>) -> Option<WithdrawalBuyerView> {
        if s.len() == 137 && s[104] == 0 {
            Some(WithdrawalBuyerView::Byte32(spec_hash_at(s, 105)))
        } else if s.len() == 202 && s[104] == 1 {
            Some(
                WithdrawalBuyerView::WithdrawalSporeInfo(
                    WithdrawalSporeInfoView {
                        spore_code_hash: spec_hash_at(s, 105),
                        spore_level: s[137],
                        spore_id: spec_hash_at(s, 138),
                        cluster_id: spec_hash_at(s, 170),
                    },
                ),
            )
        } else {
            None
        }
    }

    /// The record that `s` holds, if `s` is the encoding of one.
    pub open spec fn spec_parse(s: Seq<u8>) -> Option<WithdrawalIntentDataView> {
        match Self::spec_parse_buyer(s) {
            Some(buyer) => Some(
                WithdrawalIntentDataView {
                    xudt_script_hash: spec_hash_at(s, 0),
                    xudt_lock_script_hash: spec_hash_at(s, 32),
                    expire_since: spec_u64_at(s, 64),
                    owner_script_hash: spec_hash_at(s, 72),
                    buyer,
                },
            ),
            None => None,
        }
    }

    /// Decodes a record; bytes that are not the encoding of one are a
    /// `MolVerification` failure.
    pub fn from_slice(data: &[u8]) -> (r: Result<WithdrawalIntentData, SilentBerryError>)
        ensures
            match r {
                Ok(v) => Self::spec_parse(data@) == Some(v@) && v@.encode() == data@
                    && v@.well_formed(),
                Err(e) => e == SilentBerryError::MolVerification && Self::spec_parse(data@) is None,
            },
    {
        proof {
            if Self::spec_parse(data@) is Some {
                Self::lemma_encode_parse(data@);
            }
        }
        let len: usize = data.len();
        if len != 137 && len != 202 {
            return Err(SilentBerryError::MolVerification);
        }
        let tag: u8 = *slice_index_get(data, 104);
        let buyer = if len == 137 && tag == 0 {
            WithdrawalBuyer::Byte32(read_hash(data, 105))
        } else if len == 202 && tag == 1 {
            WithdrawalBuyer::WithdrawalSporeInfo(
                WithdrawalSporeInfo {
                    spore_code_hash: read_hash(data, 105),
                    spore_level: *slice_index_get(data, 137),
                    spore_id: read_hash(data, 138),
                    cluster_id: read_hash(data, 170),
                },
            )
        } else {
            return Err(SilentBerryError::MolVerification);
        };
        Ok(
            WithdrawalIntentData {
                xudt_script_hash: read_hash(data, 0),
                xudt_lock_script_hash: read_hash(data, 32),
                expire_since: read_u64(data, 64),
                owner_script_hash: read_hash(data, 72),
                buyer,
            },
        )
    }

    /// Encodes the record.
    pub fn as_bytes(&self) -> (out: Vec<u8>)
        ensures
            out@ == self@.encode(),
    {
        let mut out: Vec<u8> = Vec::new();
        push_hash(&mut out, &self.xudt_script_hash);
        push_hash(&mut out, &self.xudt_lock_script_hash);
        push_u64(&mut out, self.expire_since);
        push_hash(&mut out, &self.owner_script_hash);
        match &self.buyer {
            WithdrawalBuyer::Byte32(h) => {
                out.push(0u8);
                push_hash(&mut out, h);
            },
            WithdrawalBuyer::WithdrawalSporeInfo(info) => {
                out.push(1u8);
                push_hash(&mut out, &info.spore_code_hash);
                out.push(info.spore_level);
                push_hash(&mut out, &info.spore_id);
                push_hash(&mut out, &info.cluster_id);
            },
        }
        assert(out@ =~= self@.encode());
        out
    }

    /// Decoding undoes encoding.
    pub proof fn lemma_parse_encode(v: WithdrawalIntentDataView)
        requires
            v.well_formed(),
        ensures
            Self::spec_parse(v.encode()) == Some(v),
    {
        lemma_auto_spec_u64_to_from_le_bytes();
        let s = v.encode();
        assert(s.subrange(0, 32) =~= v.xudt_script_hash);
        assert(s.subrange(32, 64) =~= v.xudt_lock_script_hash);
        assert(s.subrange(64, 72) =~= spec_u64_to_le_bytes(v.expire_since));
        assert(s.subrange(72, 104) =~= v.owner_script_hash);
        match v.buyer {
            WithdrawalBuyerView::Byte32(h) => {
                assert(s.len() == 137);
                assert(s[104] == 0);
                assert(s.subrange(105, 137) =~= h);
            },
            WithdrawalBuyerView::WithdrawalSporeInfo(info) => {
                assert(s.len() == 202);
                assert(s[104] == 1);
                assert(s.subrange(105, 137) =~= info.spore_code_hash);
                assert(s[137] == info.spore_level);
                assert(s.subrange(138, 170) =~= info.spore_id);
                assert(s.subrange(170, 202) =~= info.cluster_id);
            },
        }
    }

    /// Only the encoding of a record decodes to it.
    pub proof fn lemma_encode_parse(s: Seq<u8>)
        requires
            Self::spec_parse(s) is Some,
        ensures
            Self::spec_parse(s).unwrap().encode() == s,
            Self::spec_parse(s).unwrap().well_formed(),
    {
        lemma_auto_spec_u64_to_from_le_bytes();
        let v = Self::spec_parse(s).unwrap();
        assert(v.encode() =~= s);
    }
}

} // verus!
