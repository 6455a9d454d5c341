use vstd::prelude::*;

verus! {

/// Why a move was refused. A refused move leaves the board unchanged.
#[derive(PartialEq, Eq, Structural, Debug, Clone, Copy)]
pub enum BadMoveError {
    /// The position names no cell of the board.
    InvalidPosition,
    /// The cell at the position already holds a mark.
    AlreadyOccupied,
}

/// The text shown to the player for an error.
pub open spec fn message_of(e: BadMoveError) -> Seq<char> {
    match e {
        BadMoveError::InvalidPosition => "Invalid position"@,
        BadMoveError::AlreadyOccupied => "Position already occupied"@,
    }
}

impl BadMoveError {
    /// A human-readable description of the error.
    pub fn message(&self) -> (r: &'static str)
        ensures
            r@ == message_of(*self),
    {
        match self {
            BadMoveError::InvalidPosition => "Invalid position",
            BadMoveError::AlreadyOccupied => "Position already occupied",
        }
    }
}

} // verus!
