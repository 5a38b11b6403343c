//! The content record of a digital object and the tier it declares.
use crate::error::SilentBerryError;
use crate::wire::{
    lemma_prefixed_canonical, lemma_prefixed_round_trip, push_prefixed, read_prefixed,
    spec_has_prefixed, spec_prefixed, spec_prefixed_at, spec_prefixed_end,
};
use vstd::bytes::lemma_auto_spec_u32_to_from_le_bytes;
use vstd::prelude::*;
use vstd::slice::{slice_index_get, slice_to_vec};
use vstd::utf8::{encode_utf8, valid_utf8};

verus! {

/// A digital object as its author describes it.
#[derive(Debug, Clone)]
pub struct NativeNFTData {
    pub content_type: String,
    pub content: Vec<u8>,
    pub cluster_id: Option<Vec<u8>>,
}

/// The content record of a digital object: what kind of content it holds,
/// the content, and the collection it belongs to, if any.
#[derive(Debug, Clone)]
pub struct SporeData {
    pub content_type: Vec<u8>,
    pub content: Vec<u8>,
    pub cluster_id: Option<Vec<u8>>,
}

/// The value of a [`SporeData`].
pub struct SporeDataView {
    pub content_type: Seq<u8>,
    pub content: Seq<u8>,
    pub cluster_id: Option<Seq<u8>>,
}

impl View for SporeData {
    type V = SporeDataView;

    open spec fn view(&self) -> SporeDataView {
        SporeDataView {
            content_type: self.content_type@,
            content: self.content@,
            cluster_id: crate::tx::opt_bytes(self.cluster_id),
        }
    }
}

impl SporeDataView {
    /// Every byte string fits a 32-bit length.
    pub open spec fn well_formed(self) -> bool {
        &&& self.content_type.len() <= u32::MAX
        &&& self.content.len() <= u32::MAX
        &&& self.cluster_id matches Some(id) ==> id.len() <= u32::MAX
    }

    /// The optional collection on the wire: a presence byte, then the
    /// identifier behind its length if it is present.
    pub open spec fn encode_cluster(self) -> Seq<u8> {
        match self.cluster_id {
            Some(id) => seq![1u8] + spec_prefixed(id),
            None => seq![0u8],
        }
    }

    /// The record on the wire: content type and content, each behind its
    /// length, then the optional collection.
    pub open spec fn encode(self) -> Seq<u8> {
        spec_prefixed(self.content_type) + spec_prefixed(self.content) + self.encode_cluster()
    }
}

impl SporeData {
    /// Position of the presence byte in `s`, if the two byte strings before
    /// it lie within `s` and leave room for it.
    pub open spec fn spec_presence_pos(s: Seq<u8>) -> Option<int> {
        if spec_has_prefixed(s, 0) && spec_has_prefixed(s, spec_prefixed_end(s, 0))
            && spec_prefixed_end(s, spec_prefixed_end(s, 0)) < s.len() {
            Some(spec_prefixed_end(s, spec_prefixed_end(s, 0)))
        } else {
            None
        }
    }

    /// The collection that `s` holds from the presence byte at `p` on, if
    /// the byte is valid and the field ends where `s` ends.
    pub open spec fn spec_parse_cluster(s: Seq<u8>, p: int) -> Option<Option<Seq<u8>>> {
        if s[p] == 0 && p + 1 == s.len() {
            Some(None)
        } else if s[p] == 1 && spec_has_prefixed(s, p + 1) && spec_prefixed_end(s, p + 1)
            == s.len() {
            Some(Some(spec_prefixed_at(s, p + 1)))
        } else {
            None
        }
    }

    /// The record that `s` holds, if `s` is the encoding of one.
    pub open spec fn spec_parse(s: Seq<u8>) -> Option<SporeDataView> {
        match Self::spec_presence_pos(s) {
            Some(p) => match Self::spec_parse_cluster(s, p) {
                Some(cluster_id) => Some(
                    SporeDataView {
                        content_type: spec_prefixed_at(s, 0),
                        content: spec_prefixed_at(s, spec_prefixed_end(s, 0)),
                        cluster_id,
                    },
                ),
                None => None,
            },
            None => None,
        }
    }

    /// Decodes a record; bytes that are not the encoding of one are a
    /// `MolVerification` failure.
    pub fn from_slice(data: &[u8]) -> (r: Result<SporeData, SilentBerryError>)
        ensures
            match r {
                Ok(v) => Self::spec_parse(data@) == Some(v@) && v@.encode() == data@
                    && v@.well_formed(),
                Err(e) => e == SilentBerryError::MolVerification && Self::spec_parse(data@) is None,
            },
    {
        proof {
            if Self::spec_parse(data@) is Some {
                Self::lemma_encode_parse(data@);
            }
        }
        let len: usize = data.len();
        let (content_type, type_end) = match read_prefixed(data, 0) {
            Some(found) => found,
            None => {
                return Err(SilentBerryError::MolVerification);
            },
        };
        let (content, p) = match read_prefixed(data, type_end) {
            Some(found) => found,
            None => {
                return Err(SilentBerryError::MolVerification);
            },
        };
        if p >= len {
            return Err(SilentBerryError::MolVerification);
        }
        let presence: u8 = *slice_index_get(data, p);
        let cluster_id: Option<Vec<u8>> = if presence == 0 && p + 1 == len {
            None
        } else if presence == 1 {
            match read_prefixed(data, p + 1) {
                Some((id, end)) => {
                    if end != len {
                        return Err(SilentBerryError::MolVerification);
                    }
                    Some(id)
                },
                None => {
                    return Err(SilentBerryError::MolVerification);
                },
            }
        } else {
            return Err(SilentBerryError::MolVerification);
        };
        Ok(SporeData { content_type, content, cluster_id })
    }

    /// Encodes the record, whose byte strings must fit a 32-bit length.
    pub fn as_bytes(&self) -> (out: Vec<u8>)
        requires
            self@.well_formed(),
        ensures
            out@ == self@.encode(),
    {
        let mut out: Vec<u8> = Vec::new();
        push_prefixed(&mut out, self.content_type.as_slice());
        push_prefixed(&mut out, self.content.as_slice());
        match &self.cluster_id {
            Some(id) => {
                out.push(1u8);
                push_prefixed(&mut out, id.as_slice());
            },
            None => {
                out.push(0u8);
            },
        }
        assert(out@ =~= self@.encode());
        out
    }

    /// The content record of a digital object described by its author: the
    /// content type as the bytes of its text, the rest as given.
    pub fn from_native(data: NativeNFTData) -> (r: SporeData)
        ensures
            r@ == (SporeDataView {
                content_type: encode_utf8(data.content_type@),
                content: data.content@,
                cluster_id: crate::tx::opt_bytes(data.cluster_id),
            }),
    {
        let content_type = slice_to_vec(data.content_type.as_str().as_bytes());
        SporeData { content_type, content: data.content, cluster_id: data.cluster_id }
    }

    /// Decoding undoes encoding.
    pub proof fn lemma_parse_encode(v: SporeDataView)
        requires
            v.well_formed(),
        ensures
            Self::spec_parse(v.encode()) == Some(v),
    {
        lemma_auto_spec_u32_to_from_le_bytes();
        let s = v.encode();
        let a = spec_prefixed(v.content_type);
        let b = spec_prefixed(v.content);
        let c = v.encode_cluster();
        lemma_prefixed_round_trip(Seq::empty(), v.content_type, b + c);
        assert(Seq::<u8>::empty() + a + (b + c) =~= s);
        lemma_prefixed_round_trip(a, v.content, c);
        assert(a + b + c =~= s);
        let p = (a.len() + b.len()) as int;
        assert(Self::spec_presence_pos(s) == Some(p));
        match v.cluster_id {
            Some(id) => {
                lemma_prefixed_round_trip(a + b + seq![1u8], id, Seq::empty());
                assert(a + b + seq![1u8] + spec_prefixed(id) + Seq::<u8>::empty() =~= s);
                assert(s[p] == 1);
            },
            None => {
                assert(s[p] == 0);
            },
        }
    }

    /// Only the encoding of a record decodes to it.
    pub proof fn lemma_encode_parse(s: Seq<u8>)
        requires
            Self::spec_parse(s) is Some,
        ensures
            Self::spec_parse(s).unwrap().encode() == s,
            Self::spec_parse(s).unwrap().well_formed(),
    {
        lemma_auto_spec_u32_to_from_le_bytes();
        let v = Self::spec_parse(s).unwrap();
        let mid = spec_prefixed_end(s, 0);
        let p = Self::spec_presence_pos(s).unwrap();
        lemma_prefixed_canonical(s, 0);
        lemma_prefixed_canonical(s, mid);
        if s[p] == 1 {
            lemma_prefixed_canonical(s, p + 1);
            assert(v.encode_cluster() =~= s.subrange(p, s.len() as int));
        } else {
            assert(v.encode_cluster() =~= s.subrange(p, s.len() as int));
        }
        assert(s =~= s.subrange(0, mid) + s.subrange(mid, p) + s.subrange(p, s.len() as int));
    }
}

/// Calls `core::str::from_utf8`, which accepts a byte string exactly when it
/// is well-formed UTF-8.
#[verifier::external_body]
fn is_utf8(bytes: &[u8]) -> (r: bool)
    ensures
        r == valid_utf8(bytes@),
{
    core::str::from_utf8(bytes).is_ok()
}

/// Whether `b` is an ASCII hexadecimal digit.
pub open spec fn spec_is_hex_digit(b: u8) -> bool {
    (0x30 <= b <= 0x39) || (0x41 <= b <= 0x46) || (0x61 <= b <= 0x66)
}

/// The value of a hexadecimal digit; meaningful for digits only.
pub open spec fn spec_hex_value(b: u8) -> int {
    if b <= 0x39 {
        b - 0x30
    } else if b <= 0x46 {
        b - 0x41 + 10
    } else {
        b - 0x61 + 10
    }
}

/// Whether two hexadecimal digits stand at positions `i - 1` and `i`.
pub open spec fn spec_hex_pair_at(content: Seq<u8>, i: int) -> bool {
    1 <= i < content.len() && spec_is_hex_digit(content[i]) && spec_is_hex_digit(content[i - 1])
}

/// The greatest position up to `upto` at which a pair of hexadecimal digits
/// ends, if there is one.
pub open spec fn spec_last_hex_pair(content: Seq<u8>, upto: int) -> Option<int>
    decreases upto,
{
    if upto < 1 {
        None
    } else if spec_hex_pair_at(content, upto) {
        Some(upto)
    } else {
        spec_last_hex_pair(content, upto - 1)
    }
}

/// The tier that a content declares: the value of the last two adjacent
/// hexadecimal digits of its text. A content that is not UTF-8 text, or that
/// holds no two adjacent hexadecimal digits, is a `Spore` failure.
///
/// Hexadecimal digits are single bytes in UTF-8 and no byte of a longer
/// character is one, so adjacency by bytes is adjacency by characters.
pub open spec fn spec_get_spore_level(content: Seq<u8>) -> Result<u8, SilentBerryError> {
    if !valid_utf8(content) {
        Err(SilentBerryError::Spore)
    } else {
        match spec_last_hex_pair(content, content.len() - 1) {
            Some(i) => Ok(
                (spec_hex_value(content[i - 1]) * 16 + spec_hex_value(content[i])) as u8,
            ),
            None => Err(SilentBerryError::Spore),
        }
    }
}

/// What the last pair is: a pair, with no pair behind it.
pub proof fn lemma_last_hex_pair(content: Seq<u8>, upto: int)
    ensures
        match spec_last_hex_pair(content, upto) {
            Some(i) => i <= upto && spec_hex_pair_at(content, i) && forall|j: int|
                i < j <= upto ==> !spec_hex_pair_at(content, j),
            None => forall|j: int| j <= upto ==> !spec_hex_pair_at(content, j),
        },
    decreases upto,
{
    if upto >= 1 && !spec_hex_pair_at(content, upto) {
        lemma_last_hex_pair(content, upto - 1);
    }
}

/// Whether `b` is an ASCII hexadecimal digit.
pub fn is_hex_digit(b: u8) -> (r: bool)
    ensures
        r == spec_is_hex_digit(b),
{
    (0x30 <= b && b <= 0x39) || (0x41 <= b && b <= 0x46) || (0x61 <= b && b <= 0x66)
}

/// The value of a hexadecimal digit, below 16; nothing for any other byte.
pub fn hex_value(b: u8) -> (r: Option<u8>)
    ensures
        match r {
            Some(v) => spec_is_hex_digit(b) && v == spec_hex_value(b) && v < 16,
            None => !spec_is_hex_digit(b),
        },
{
    if 0x30 <= b && b <= 0x39 {
        Some(b - 0x30)
    } else if 0x41 <= b && b <= 0x46 {
        Some(b - 0x41 + 10)
    } else if 0x61 <= b && b <= 0x66 {
        Some(b - 0x61 + 10)
    } else {
        None
    }
}

/// The tier that the digital object declares in its content: the value of
/// the two hexadecimal digits of the pair that no other pair follows.
pub fn get_spore_level(spore_data: &SporeData) -> (r: Result<u8, SilentBerryError>)
    ensures
        r == spec_get_spore_level(spore_data.content@),
        r matches Ok(level) ==> exists|i: int|
            {
                &&& #[trigger] spec_hex_pair_at(spore_data.content@, i)
                &&& forall|j: int| i < j ==> !spec_hex_pair_at(spore_data.content@, j)
                &&& level == spec_hex_value(spore_data.content@[i - 1]) * 16 + spec_hex_value(
                    spore_data.content@[i],
                )
            },
        r is Err ==> !valid_utf8(spore_data.content@) || forall|j: int|
            !spec_hex_pair_at(spore_data.content@, j),
{
    proof {
        lemma_last_hex_pair(spore_data.content@, spore_data.content@.len() - 1);
    }
    let content = spore_data.content.as_slice();
    if !is_utf8(content) {
        return Err(SilentBerryError::Spore);
    }
    let len: usize = content.len();
    if len < 2 {
        return Err(SilentBerryError::Spore);
    }
    let mut i: usize = len - 1;
    while i >= 1
        invariant
            content@ == spore_data.content@,
            valid_utf8(content@),
            len == content@.len(),
            i < len,
            spec_last_hex_pair(content@, len - 1) == spec_last_hex_pair(content@, i as int),
        decreases i,
    {
        let low: u8 = *slice_index_get(content, i);
        let high: u8 = *slice_index_get(content, i - 1);
        match (hex_value(high), hex_value(low)) {
            (Some(sixteens), Some(ones)) => {
                proof {
                    lemma_last_hex_pair(content@, len - 1);
                    assert(spec_hex_pair_at(content@, i as int));
                }
                return Ok(sixteens * 16 + ones);
            },
            _ => {},
        }
        i -= 1;
    }
    Err(SilentBerryError::Spore)
}

} // verus!
