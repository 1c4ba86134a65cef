use vstd::prelude::*;

verus! {

/// A fatal, unrecoverable defect: an invariant that correct operation can
/// never violate was observed, so there is no recovery path. Surfacing these
/// as silent defaults would corrupt observable game state; failures of the
/// surrounding ledger runtime are recoverable and are reported separately.
#[derive(Clone, Copy, Debug, PartialEq, Eq, Structural)]
pub enum FatalError {
    /// A position was queried at a tick earlier than the stored baseline.
    TickBeforeBaseline,
    /// A wall-clock timestamp earlier than the contract's stored start time.
    TimeBeforeStart,
    /// A heading code outside its defined domain.
    HeadingCodeOutOfRange,
    /// A coordinate outside the representable signed domain, or a wire value
    /// outside the valid unsigned range.
    CoordinateOutOfRange,
    /// A recognized contract function was invoked with the wrong number of
    /// arguments.
    WrongArgumentCount,
    /// A state query named an identity that never spawned.
    UnknownPlayer,
}

impl FatalError {
    /// The diagnostic message carried by this error.
    pub open spec fn spec_message(&self) -> Seq<char> {
        match self {
            FatalError::TickBeforeBaseline => "queried a tick before the stored baseline"@,
            FatalError::TimeBeforeStart => "timestamp earlier than the contract start time"@,
            FatalError::HeadingCodeOutOfRange => "heading code outside its defined domain"@,
            FatalError::CoordinateOutOfRange => "coordinate outside the representable range"@,
            FatalError::WrongArgumentCount => "wrong number of arguments for a recognized function"@,
            FatalError::UnknownPlayer => "no state stored for this identity"@,
        }
    }

    /// A diagnostic description of the violated invariant.
    pub fn message(&self) -> (m: &'static str)
        ensures
            m@ == self.spec_message(),
    {
        match self {
            FatalError::TickBeforeBaseline => "queried a tick before the stored baseline",
            FatalError::TimeBeforeStart => "timestamp earlier than the contract start time",
            FatalError::HeadingCodeOutOfRange => "heading code outside its defined domain",
            FatalError::CoordinateOutOfRange => "coordinate outside the representable range",
            FatalError::WrongArgumentCount => "wrong number of arguments for a recognized function",
            FatalError::UnknownPlayer => "no state stored for this identity",
        }
    }
}

} // verus!
