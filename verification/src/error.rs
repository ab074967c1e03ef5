//! Terminal outcomes of one validation run, and the mapping from host-level
//! query failures into them.

use vstd::prelude::*;

verus! {

/// One failure kind per terminal outcome: four host-level query failures and
/// five policy violations. A run that fails reports exactly one of these as
/// its exit code.
#[derive(Clone, Copy, Debug, PartialEq, Eq, Structural)]
pub enum Error {
    IndexOutOfBound,
    ItemMissing,
    LengthNotEnough,
    Encoding,
    UDTNotMatch,
    NotOwner,
    CannotUseAsInput,
    MultipleOutputs,
    DataLengthNotEnough,
}

/// A failure reported by the host's cell/script query primitives. `Unknown`
/// carries a host error code outside the documented taxonomy; the policy
/// treats it as a contract violation and never maps it to an `Error`.
#[derive(Clone, Copy, Debug, PartialEq, Eq, Structural)]
pub enum HostError {
    IndexOutOfBound,
    ItemMissing,
    LengthNotEnough(usize),
    Encoding,
    Unknown(u64),
}

impl Error {
    /// The signed 8-bit status code reported for this failure.
    pub open spec fn spec_code(self) -> i8 {
        match self {
            Error::IndexOutOfBound => 1,
            Error::ItemMissing => 2,
            Error::LengthNotEnough => 3,
            Error::Encoding => 4,
            Error::UDTNotMatch => 5,
            Error::NotOwner => 6,
            Error::CannotUseAsInput => 7,
            Error::MultipleOutputs => 8,
            Error::DataLengthNotEnough => 9,
        }
    }

    pub fn code(&self) -> (r: i8)
        ensures
            r == self.spec_code(),
    {
        match self {
            Error::IndexOutOfBound => 1,
            Error::ItemMissing => 2,
            Error::LengthNotEnough => 3,
            Error::Encoding => 4,
            Error::UDTNotMatch => 5,
            Error::NotOwner => 6,
            Error::CannotUseAsInput => 7,
            Error::MultipleOutputs => 8,
            Error::DataLengthNotEnough => 9,
        }
    }

    /// The `Error` standing for a recognized host failure. The `Unknown`
    /// arm is vacuous: `from_host` rules that input out.
    pub open spec fn spec_from_host(err: HostError) -> Error {
        match err {
            HostError::IndexOutOfBound => Error::IndexOutOfBound,
            HostError::ItemMissing => Error::ItemMissing,
            HostError::LengthNotEnough(_) => Error::LengthNotEnough,
            HostError::Encoding => Error::Encoding,
            HostError::Unknown(_) => Error::Encoding,
        }
    }

    /// Maps a recognized host failure to its terminal code. An `Unknown` host
    /// error is a contract violation that must abort the process instead of
    /// being coerced into a known code, so callers rule it out first.
    pub fn from_host(err: HostError) -> (r: Error)
        requires
            !(err is Unknown),
        ensures
            r == Error::spec_from_host(err),
    {
        match err {
            HostError::IndexOutOfBound => Error::IndexOutOfBound,
            HostError::ItemMissing => Error::ItemMissing,
            HostError::LengthNotEnough(_) => Error::LengthNotEnough,
            HostError::Encoding => Error::Encoding,
            HostError::Unknown(_) => Error::Encoding,
        }
    }
}

} // verus!
