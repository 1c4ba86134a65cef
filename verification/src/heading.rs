use vstd::prelude::*;

use crate::error::FatalError;

verus! {

/// The direction a player is currently moving. `NoHeading` means "not
/// moving": a freshly spawned player stands still until its first input,
/// rather than drifting in an arbitrary initial direction.
#[derive(Debug, Eq, PartialEq, Copy, Clone, Structural)]
pub enum PlayerHeading {
    Up,
    Down,
    Left,
    Right,
    NoHeading,
}

impl PlayerHeading {
    /// The small unsigned code a heading travels as on the wire and sits as
    /// in ledger storage.
    pub open spec fn spec_code(self) -> int {
        match self {
            PlayerHeading::Up => 0,
            PlayerHeading::Down => 1,
            PlayerHeading::Left => 2,
            PlayerHeading::Right => 3,
            PlayerHeading::NoHeading => 4,
        }
    }

    /// The heading a storage code in the defined domain stands for.
    pub open spec fn spec_of_code(c: int) -> PlayerHeading
        recommends
            0 <= c <= 4,
    {
        if c == 0 {
            PlayerHeading::Up
        } else if c == 1 {
            PlayerHeading::Down
        } else if c == 2 {
            PlayerHeading::Left
        } else if c == 3 {
            PlayerHeading::Right
        } else {
            PlayerHeading::NoHeading
        }
    }

    /// The storage code of this heading.
    pub fn as_i64(&self) -> (c: i64)
        ensures
            c == self.spec_code(),
    {
        match self {
            PlayerHeading::Up => 0,
            PlayerHeading::Down => 1,
            PlayerHeading::Left => 2,
            PlayerHeading::Right => 3,
            PlayerHeading::NoHeading => 4,
        }
    }

    /// Fail-fast conversion from a stored or received heading code: a code
    /// outside the defined domain indicates corrupted state and is reported
    /// as a typed fatal error.
    pub fn from_i64(value: i64) -> (r: Result<PlayerHeading, FatalError>)
        ensures
            r is Ok <==> 0 <= value <= 4,
            r matches Ok(h) ==> h.spec_code() == value && h == PlayerHeading::spec_of_code(
                value as int,
            ),
            r matches Err(e) ==> e == FatalError::HeadingCodeOutOfRange,
    {
        match value {
            0 => Ok(PlayerHeading::Up),
            1 => Ok(PlayerHeading::Down),
            2 => Ok(PlayerHeading::Left),
            3 => Ok(PlayerHeading::Right),
            4 => Ok(PlayerHeading::NoHeading),
            _ => Err(FatalError::HeadingCodeOutOfRange),
        }
    }
}

impl From<PlayerHeading> for i64 {
    fn from(value: PlayerHeading) -> (c: i64) {
        value.as_i64()
    }
}

impl vstd::std_specs::convert::FromSpecImpl<PlayerHeading> for i64 {
    open spec fn obeys_from_spec() -> bool {
        true
    }

    open spec fn from_spec(v: PlayerHeading) -> i64 {
        v.spec_code() as i64
    }
}

} // verus!
