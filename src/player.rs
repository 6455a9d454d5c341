use vstd::prelude::*;

verus! {

/// One of the two participants: `X` moves first (the human), `O` second
/// (the automated opponent).
#[derive(PartialEq, Eq, Structural, Debug, Clone, Copy)]
pub enum Player {
    X,
    O,
}

/// The one-character mark that stands for a player on the board.
pub open spec fn symbol_of(p: Player) -> Seq<char> {
    match p {
        Player::X => seq!['X'],
        Player::O => seq!['O'],
    }
}

impl Player {
    /// The player's mark, `"X"` or `"O"`.
    pub fn symbol(&self) -> (r: &'static str)
        ensures
            r@ == symbol_of(*self),
    {
        match self {
            Player::X => {
                proof {
                    reveal_strlit("X");
                }
                "X"
            },
            Player::O => {
                proof {
                    reveal_strlit("O");
                }
                "O"
            },
        }
    }
}

} // verus!
