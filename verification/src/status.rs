use vstd::prelude::*;

verus! {

/// Why a calculation was refused or failed.
#[derive(Clone, Copy, Debug, PartialEq, Eq, Structural)]
pub enum Status {
    /// The backend did not accept the secret as a key.
    UnspecifiedNonpersistentExecutionError,
    /// The backend accepted the key but did not yield a usable digest.
    UnspecifiedPersistentExecutionError,
    /// The calculator has no keyed hash for the algorithm.
    FunctionNotSupported,
    /// Challenge-response has no keyed hash for the algorithm.
    InstructionNotSupportedOrInvalid,
}

/// The three kinds of failure a caller has to tell apart.
#[derive(Clone, Copy, Debug, PartialEq, Eq, Structural)]
pub enum ErrorKind {
    KeyInjectionFailed,
    ComputationFailed,
    AlgorithmUnsupported,
}

impl Status {
    /// The kind of failure that the status stands for.
    pub open spec fn spec_kind(self) -> ErrorKind {
        match self {
            Status::UnspecifiedNonpersistentExecutionError => ErrorKind::KeyInjectionFailed,
            Status::UnspecifiedPersistentExecutionError => ErrorKind::ComputationFailed,
            Status::FunctionNotSupported => ErrorKind::AlgorithmUnsupported,
            Status::InstructionNotSupportedOrInvalid => ErrorKind::AlgorithmUnsupported,
        }
    }

    #[verifier::when_used_as_spec(spec_kind)]
    pub fn kind(self) -> (kind: ErrorKind)
        ensures
            kind == self.spec_kind(),
    {
        match self {
            Status::UnspecifiedNonpersistentExecutionError => ErrorKind::KeyInjectionFailed,
            Status::UnspecifiedPersistentExecutionError => ErrorKind::ComputationFailed,
            Status::FunctionNotSupported => ErrorKind::AlgorithmUnsupported,
            Status::InstructionNotSupportedOrInvalid => ErrorKind::AlgorithmUnsupported,
        }
    }
}

} // verus!
