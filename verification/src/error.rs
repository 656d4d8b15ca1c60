//! The reasons for which the pool refuses an operation.

use vstd::prelude::*;

verus! {

/// A rule of the lottery that an operation broke.
#[derive(Clone, Copy, Debug, PartialEq, Eq, Structural)]
pub enum LottoError {
    /// A round is already open, or its winner has not been paid yet.
    GameOngoing,
    /// The pool is not in the state that the operation needs.
    NoGameOngoing,
    /// Every ticket of the round is sold.
    MaxPlayers,
    /// The reveal does not open the commitment, or holds no seed.
    WrongWinningSeed,
    /// The account to be paid is not the winner of the round.
    WrongWinner,
}

/// Why an operation on the pool failed. A failed operation leaves the pool as
/// it was.
#[derive(Clone, Copy, Debug, PartialEq, Eq, Structural)]
pub enum Error {
    /// The caller is not the identity that the operation is reserved to.
    MissingRequiredSignature,
    /// The lottery's own rules refused the operation.
    Lotto(LottoError),
}

/// The classes into which the failures fall.
#[derive(Clone, Copy, Debug, PartialEq, Eq, Structural)]
pub enum ErrorKind {
    /// The caller is not who the operation is reserved to.
    AuthorizationFailure,
    /// The operation does not fit the state of the round.
    InvalidStateTransition,
    /// The round has no ticket left.
    CapacityExceeded,
    /// The revealed value does not open the commitment, or is malformed.
    CommitmentMismatch,
    /// The recipient of the payout is not the winner.
    WinnerMismatch,
}

impl LottoError {
    /// The class of this failure.
    pub open spec fn spec_kind(self) -> ErrorKind {
        match self {
            LottoError::GameOngoing => ErrorKind::InvalidStateTransition,
            LottoError::NoGameOngoing => ErrorKind::InvalidStateTransition,
            LottoError::MaxPlayers => ErrorKind::CapacityExceeded,
            LottoError::WrongWinningSeed => ErrorKind::CommitmentMismatch,
            LottoError::WrongWinner => ErrorKind::WinnerMismatch,
        }
    }

    /// The class of this failure.
    #[verifier::when_used_as_spec(spec_kind)]
    pub fn kind(self) -> (kind: ErrorKind)
        ensures
            kind == self.spec_kind(),
    {
        match self {
            LottoError::GameOngoing => ErrorKind::InvalidStateTransition,
            LottoError::NoGameOngoing => ErrorKind::InvalidStateTransition,
            LottoError::MaxPlayers => ErrorKind::CapacityExceeded,
            LottoError::WrongWinningSeed => ErrorKind::CommitmentMismatch,
            LottoError::WrongWinner => ErrorKind::WinnerMismatch,
        }
    }
}

impl Error {
    /// The class of this failure.
    pub open spec fn spec_kind(self) -> ErrorKind {
        match self {
            Error::MissingRequiredSignature => ErrorKind::AuthorizationFailure,
            Error::Lotto(e) => e.spec_kind(),
        }
    }

    /// The class of this failure.
    #[verifier::when_used_as_spec(spec_kind)]
    pub fn kind(self) -> (kind: ErrorKind)
        ensures
            kind == self.spec_kind(),
    {
        match self {
            Error::MissingRequiredSignature => ErrorKind::AuthorizationFailure,
            Error::Lotto(e) => e.kind(),
        }
    }
}

} // verus!
