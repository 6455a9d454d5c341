use vstd::prelude::*;

use crate::error::BadMoveError;
use crate::player::{symbol_of, Player};

verus! {

/// The character of a decimal digit.
pub open spec fn digit_char(d: nat) -> char {
    (48 + d) as char
}

/// The decimal notation of a natural number, without leading zeros.
pub open spec fn decimal(n: nat) -> Seq<char>
    decreases n,
{
    if n < 10 {
        seq![digit_char(n)]
    } else {
        decimal(n / 10) + seq![digit_char(n % 10)]
    }
}

/// How a cell is shown: its occupant's mark, or else its own position as a
/// hint to the player.
pub open spec fn cell_text(owner: Option<Player>, position: nat) -> Seq<char> {
    match owner {
        Some(p) => symbol_of(p),
        None => decimal(position),
    }
}

/// One position of the board and the mark it holds, if any.
pub struct Tile {
    pub owner: Option<Player>,
    position: u8,
}

fn digit_str(d: u8) -> (r: &'static str)
    requires
        d < 10,
    ensures
        r@ == seq![digit_char(d as nat)],
{
    proof {
        reveal_strlit("0");
        reveal_strlit("1");
        reveal_strlit("2");
        reveal_strlit("3");
        reveal_strlit("4");
        reveal_strlit("5");
        reveal_strlit("6");
        reveal_strlit("7");
        reveal_strlit("8");
        reveal_strlit("9");
    }
    match d {
        0 => "0",
        1 => "1",
        2 => "2",
        3 => "3",
        4 => "4",
        5 => "5",
        6 => "6",
        7 => "7",
        8 => "8",
        _ => "9",
    }
}

/// The decimal notation of `n`.
fn decimal_text(n: u8) -> (r: String)
    ensures
        r@ == decimal(n as nat),
{
    let mut s = String::new();
    if n >= 100 {
        s.append(digit_str(n / 100));
    }
    if n >= 10 {
        s.append(digit_str((n / 10) % 10));
    }
    s.append(digit_str(n % 10));
    proof {
        let ones = seq![digit_char((n % 10) as nat)];
        let tens = seq![digit_char(((n / 10) % 10) as nat)];
        if n >= 100 {
            assert(decimal((n / 10) as nat) == decimal((n / 100) as nat) + tens);
            assert(s@ =~= seq![digit_char((n / 100) as nat)] + tens + ones);
        } else if n >= 10 {
            assert(decimal((n / 10) as nat) == tens);
            assert(s@ =~= tens + ones);
        } else {
            assert(s@ =~= ones);
        }
    }
    s
}

impl Tile {
    /// The mark this cell holds, if any.
    pub closed spec fn spec_owner(&self) -> Option<Player> {
        self.owner
    }

    /// The position of this cell on the board.
    pub closed spec fn spec_position(&self) -> nat {
        self.position as nat
    }

    /// An empty cell at `position`.
    pub fn new(position: u8) -> (r: Tile)
        ensures
            r.spec_owner() is None,
            r.spec_position() == position,
    {
        Tile { position: position, owner: None }
    }

    /// The mark this cell holds, if any.
    pub fn owner(&self) -> (r: Option<Player>)
        ensures
            r == self.spec_owner(),
    {
        self.owner
    }

    /// The position this cell was created with.
    pub fn position(&self) -> (r: u8)
        ensures
            r == self.spec_position(),
    {
        self.position
    }

    /// Marks the cell for `player`. Fails, changing nothing, when the cell
    /// already holds a mark: a mark once set is never replaced.
    pub fn play(&mut self, player: Player) -> (r: Result<(), BadMoveError>)
        ensures
            final(self).spec_position() == old(self).spec_position(),
            old(self).spec_owner() is Some ==> r == Err::<(), BadMoveError>(BadMoveError::AlreadyOccupied)
                && final(self).spec_owner() == old(self).spec_owner(),
            old(self).spec_owner() is None ==> r is Ok && final(self).spec_owner() == Some(player),
        no_unwind
    {
        match self.owner {
            Some(_) => Err(BadMoveError::AlreadyOccupied),
            None => {
                self.owner = Some(player);
                Ok(())
            },
        }
    }

    /// Marks the cell for `X`, as `play(Player::X)` does.
    pub fn play_x(&mut self) -> (r: Result<(), BadMoveError>)
        ensures
            final(self).spec_position() == old(self).spec_position(),
            old(self).spec_owner() is Some ==> r == Err::<(), BadMoveError>(BadMoveError::AlreadyOccupied)
                && final(self).spec_owner() == old(self).spec_owner(),
            old(self).spec_owner() is None ==> r is Ok && final(self).spec_owner() == Some(Player::X),
        no_unwind
    {
        self.play(Player::X)
    }

    /// Marks the cell for `O`, as `play(Player::O)` does.
    pub fn play_o(&mut self) -> (r: Result<(), BadMoveError>)
        ensures
            final(self).spec_position() == old(self).spec_position(),
            old(self).spec_owner() is Some ==> r == Err::<(), BadMoveError>(BadMoveError::AlreadyOccupied)
                && final(self).spec_owner() == old(self).spec_owner(),
            old(self).spec_owner() is None ==> r is Ok && final(self).spec_owner() == Some(Player::O),
        no_unwind
    {
        self.play(Player::O)
    }

    /// The cell as shown on the board: the occupant's mark, else its position.
    pub fn render(&self) -> (r: String)
        ensures
            r@ == cell_text(self.spec_owner(), self.spec_position()),
    {
        match self.owner {
            Some(p) => String::from_str(p.symbol()),
            None => decimal_text(self.position),
        }
    }
}

} // verus!
