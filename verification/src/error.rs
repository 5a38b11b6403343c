//! Error kinds reported by the validators and the exit status derived from them.
use vstd::prelude::*;
use vstd::std_specs::convert::FromSpecImpl;

verus! {

/// Failure of a read-only query against the enclosing transaction.
#[derive(Debug, Clone, Copy, PartialEq, Eq, Structural)]
pub enum SysError {
    /// No entry exists at the requested position.
    IndexOutOfBound,
    /// The requested field is absent on the entry.
    ItemMissing,
    /// The supplied buffer was too short; carries the full length.
    LengthNotEnough(usize),
    /// The entry could not be decoded.
    Encoding,
    WaitFailure,
    InvalidFd,
    OtherEndClosed,
    MaxVmsSpawned,
    MaxFdsCreated,
    /// The type-id rule of the host was violated.
    TypeIDError,
    /// Any other host error number.
    Unknown(u64),
}

/// Every way a validation can fail. The first violated rule ends the
/// validation; no failure is recovered from.
#[derive(Debug, Clone, Copy, PartialEq, Eq, Structural)]
pub enum SilentBerryError {
    Unknow,
    SysError,
    MolVerification,
    TypeConversion,
    ParseWitness,
    TxStructure,
    VerifiedData,
    CheckXUDT,
    CheckScript,
    Spore,
    Smt,
    AccountBook,
    AccountBookOverflow,
    CapacityError,
    ExpireSince,
    AccountBookModified,
}

impl SilentBerryError {
    /// The code a failure is reported as: the variants are numbered from 1
    /// in declaration order.
    pub open spec fn spec_code(self) -> u8 {
        match self {
            SilentBerryError::Unknow => 1,
            SilentBerryError::SysError => 2,
            SilentBerryError::MolVerification => 3,
            SilentBerryError::TypeConversion => 4,
            SilentBerryError::ParseWitness => 5,
            SilentBerryError::TxStructure => 6,
            SilentBerryError::VerifiedData => 7,
            SilentBerryError::CheckXUDT => 8,
            SilentBerryError::CheckScript => 9,
            SilentBerryError::Spore => 10,
            SilentBerryError::Smt => 11,
            SilentBerryError::AccountBook => 12,
            SilentBerryError::AccountBookOverflow => 13,
            SilentBerryError::CapacityError => 14,
            SilentBerryError::ExpireSince => 15,
            SilentBerryError::AccountBookModified => 16,
        }
    }

    /// The code this failure is reported as.
    pub fn code(&self) -> (c: u8)
        ensures
            c == self.spec_code(),
            1 <= c <= 16,
    {
        match self {
            SilentBerryError::Unknow => 1,
            SilentBerryError::SysError => 2,
            SilentBerryError::MolVerification => 3,
            SilentBerryError::TypeConversion => 4,
            SilentBerryError::ParseWitness => 5,
            SilentBerryError::TxStructure => 6,
            SilentBerryError::VerifiedData => 7,
            SilentBerryError::CheckXUDT => 8,
            SilentBerryError::CheckScript => 9,
            SilentBerryError::Spore => 10,
            SilentBerryError::Smt => 11,
            SilentBerryError::AccountBook => 12,
            SilentBerryError::AccountBookOverflow => 13,
            SilentBerryError::CapacityError => 14,
            SilentBerryError::ExpireSince => 15,
            SilentBerryError::AccountBookModified => 16,
        }
    }
}

impl From<SysError> for SilentBerryError {
    /// Every failed query is reported as the one kind `SysError`.
    fn from(value: SysError) -> (e: Self) {
        SilentBerryError::SysError
    }
}

impl FromSpecImpl<SysError> for SilentBerryError {
    open spec fn obeys_from_spec() -> bool {
        true
    }

    open spec fn from_spec(value: SysError) -> Self {
        SilentBerryError::SysError
    }
}

impl From<SilentBerryError> for u8 {
    fn from(value: SilentBerryError) -> (c: u8) {
        value.code()
    }
}

impl FromSpecImpl<SilentBerryError> for u8 {
    open spec fn obeys_from_spec() -> bool {
        true
    }

    open spec fn from_spec(value: SilentBerryError) -> u8 {
        value.spec_code()
    }
}

/// Zero when validation succeeded, otherwise the code of the failure.
pub open spec fn spec_exit_code(verdict: Result<(), SilentBerryError>) -> i8 {
    match verdict {
        Ok(()) => 0i8,
        Err(e) => e.spec_code() as i8,
    }
}

/// Turns a verdict into the exit status handed to the host.
pub fn exit_code(verdict: Result<(), SilentBerryError>) -> (status: i8)
    ensures
        status == spec_exit_code(verdict),
        (status == 0) == verdict.is_ok(),
        0 <= status <= 16,
{
    match verdict {
        Ok(()) => 0,
        Err(e) => {
            let c: u8 = e.code();
            c as i8
        },
    }
}

/// Tells a missing position from a failed query: `true` when the query
/// answered, `false` when it found no such position, and a failure for any
/// other query error.
pub open spec fn spec_is_not_out_of_bound<T>(r: Result<T, SysError>) -> Result<
    bool,
    SilentBerryError,
> {
    match r {
        Ok(_) => Ok(true),
        Err(SysError::IndexOutOfBound) => Ok(false),
        Err(_) => Err(SilentBerryError::SysError),
    }
}

/// Whether a query found its position.
pub fn is_not_out_of_bound<T>(r: Result<T, SysError>) -> (present: Result<bool, SilentBerryError>)
    ensures
        present == spec_is_not_out_of_bound(r),
{
    match r {
        Ok(_) => Ok(true),
        Err(SysError::IndexOutOfBound) => Ok(false),
        Err(_) => Err(SilentBerryError::SysError),
    }
}

} // verus!
