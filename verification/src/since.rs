//! Comparison of the elapsed-time field of an input against an expiry
//! threshold.
//!
//! A since value says in its first bit whether it is relative, in the next
//! two what it measures (a block number, an epoch with a fraction, or a time
//! in seconds), and in its last 56 bits how much.
use crate::error::SilentBerryError;
use crate::tx::{Source, Transaction};
use vstd::prelude::*;

verus! {

/// The bit of a since value that says whether it is relative.
pub const RELATIVE_FLAG: u64 = 0x8000_0000_0000_0000;

/// Bits of a since value that say what it measures.
pub const METRIC_MASK: u64 = 0x6000_0000_0000_0000;

/// The measure of a since value in block numbers.
pub const METRIC_BLOCK_NUMBER: u64 = 0x0000_0000_0000_0000;

/// The measure of a since value in epochs with a fraction.
pub const METRIC_EPOCH: u64 = 0x2000_0000_0000_0000;

/// The measure of a since value in seconds.
pub const METRIC_TIMESTAMP: u64 = 0x4000_0000_0000_0000;

/// Bits of a since value that hold the amount.
pub const VALUE_MASK: u64 = 0x00ff_ffff_ffff_ffff;

/// The largest number of seconds that still fits 64 bits in milliseconds.
pub const MAX_SECONDS: u64 = 18_446_744_073_709_551;

/// The number of whole epochs in an amount of epochs: its lowest 24 bits.
pub open spec fn spec_epoch_number(value: u64) -> u64 {
    value & 0xff_ffff
}

/// The length of the epoch in an amount of epochs, in blocks: 16 bits from
/// bit 40 on. A length of zero stands for a length of one.
pub open spec fn spec_epoch_length(value: u64) -> u64 {
    if (value >> 40) & 0xffff == 0 {
        1
    } else {
        (value >> 40) & 0xffff
    }
}

/// The number of blocks into the epoch in an amount of epochs: 16 bits from
/// bit 24 on, or none where the length of the epoch is zero.
pub open spec fn spec_epoch_index(value: u64) -> u64 {
    if (value >> 40) & 0xffff == 0 {
        0
    } else {
        (value >> 24) & 0xffff
    }
}

/// Whether an amount of epochs is no less than another: it has more whole
/// epochs, or as many and no smaller a fraction of the next.
pub open spec fn spec_epoch_reached(value: u64, threshold: u64) -> bool {
    spec_epoch_number(value) > spec_epoch_number(threshold) || (spec_epoch_number(value)
        == spec_epoch_number(threshold) && spec_epoch_index(value) * spec_epoch_length(threshold)
        >= spec_epoch_index(threshold) * spec_epoch_length(value))
}

/// Whether `since` has reached `threshold` in the order of
/// `ckb_std::since::Since`: both are absolute or both relative, both measure
/// the same thing, and the amount of `since` is no less than that of
/// `threshold`. Values that differ in kind or measure, and values of the
/// fourth measure that the two bits allow, are in no order.
pub open spec fn since_reached(since: u64, threshold: u64) -> bool {
    &&& since & RELATIVE_FLAG == threshold & RELATIVE_FLAG
    &&& since & METRIC_MASK == threshold & METRIC_MASK
    &&& if since & METRIC_MASK == METRIC_BLOCK_NUMBER {
        since & VALUE_MASK >= threshold & VALUE_MASK
    } else if since & METRIC_MASK == METRIC_EPOCH {
        spec_epoch_reached(since & VALUE_MASK, threshold & VALUE_MASK)
    } else if since & METRIC_MASK == METRIC_TIMESTAMP {
        since & VALUE_MASK >= threshold & VALUE_MASK
    } else {
        false
    }
}

/// Whether a since value can be compared: one that measures time holds a
/// number of seconds that fits 64 bits once scaled to milliseconds.
pub open spec fn spec_comparable(v: u64) -> bool {
    (v & METRIC_MASK) != METRIC_TIMESTAMP || (v & VALUE_MASK) <= MAX_SECONDS
}

/// Whether a since value can be compared.
pub fn comparable(v: u64) -> (r: bool)
    ensures
        r == spec_comparable(v),
{
    (v & METRIC_MASK) != METRIC_TIMESTAMP || (v & VALUE_MASK) <= MAX_SECONDS
}

/// Calls `>=` of `ckb_std::since::Since` on the two values. The order reads
/// nothing but the two values. It compares times in milliseconds, to which
/// it scales the seconds by a plain multiplication that must not overflow;
/// the scaling does not change the order.
#[verifier::external_body]
fn since_at_least(since: u64, threshold: u64) -> (r: bool)
    requires
        spec_comparable(since),
        spec_comparable(threshold),
    ensures
        r == since_reached(since, threshold),
{
    ckb_std::since::Since::new(since) >= ckb_std::since::Since::new(threshold)
}

/// Whether `since` has reached `expire_since`; an `ExpireSince` failure
/// where one of the two cannot be compared, so that the expiry cannot be
/// shown to be reached.
pub open spec fn spec_compare_since(since: u64, expire_since: u64) -> Result<
    bool,
    SilentBerryError,
> {
    if spec_comparable(since) && spec_comparable(expire_since) {
        Ok(since_reached(since, expire_since))
    } else {
        Err(SilentBerryError::ExpireSince)
    }
}

/// Whether `since` has reached `expire_since`.
pub fn compare_since(since: u64, expire_since: u64) -> (r: Result<bool, SilentBerryError>)
    ensures
        r == spec_compare_since(since, expire_since),
{
    if comparable(since) && comparable(expire_since) {
        Ok(since_at_least(since, expire_since))
    } else {
        Err(SilentBerryError::ExpireSince)
    }
}

/// Whether the input at a position declares an elapsed time that has reached
/// `expire_since`. A position without an input is a `SysError` failure.
pub open spec fn spec_check_since(
    tx: &Transaction,
    index: int,
    source: Source,
    expire_since: u64,
) -> Result<bool, SilentBerryError> {
    match tx.spec_input_since(index, source) {
        Ok(since) => spec_compare_since(since, expire_since),
        Err(_) => Err(SilentBerryError::SysError),
    }
}

/// Whether the input at a position has reached `expire_since`.
pub fn check_since(tx: &Transaction, index: usize, source: Source, expire_since: u64) -> (r: Result<
    bool,
    SilentBerryError,
>)
    ensures
        r == spec_check_since(tx, index as int, source, expire_since),
{
    match tx.load_input_since(index, source) {
        Ok(since) => compare_since(since, expire_since),
        Err(_) => Err(SilentBerryError::SysError),
    }
}

} // verus!
