use vstd::prelude::*;

use crate::error::BadMoveError;
use crate::player::Player;
use crate::tile::{cell_text, Tile};

verus! {

/// The state of a finished game. An ongoing game has no outcome.
#[derive(PartialEq, Eq, Structural, Debug, Clone, Copy)]
pub enum GameOutcome {
    Winner(Player),
    Draw,
}

/// The `k`-th winning line, in the order in which lines are examined: the
/// three rows, the three columns, then the two diagonals.
pub open spec fn line(k: int) -> (int, int, int) {
    if k == 0 {
        (0, 1, 2)
    } else if k == 1 {
        (3, 4, 5)
    } else if k == 2 {
        (6, 7, 8)
    } else if k == 3 {
        (0, 3, 6)
    } else if k == 4 {
        (1, 4, 7)
    } else if k == 5 {
        (2, 5, 8)
    } else if k == 6 {
        (0, 4, 8)
    } else {
        (6, 4, 2)
    }
}

/// The player who holds all three cells of line `k`, if one does.
pub open spec fn line_owner(cells: Seq<Option<Player>>, k: int) -> Option<Player> {
    let (a, b, c) = line(k);
    if cells[a] is Some && cells[b] == cells[a] && cells[c] == cells[a] {
        cells[a]
    } else {
        None
    }
}

/// The owner of the first completed line among lines `k..8`.
pub open spec fn winner_from(cells: Seq<Option<Player>>, k: int) -> Option<Player>
    decreases 8 - k,
{
    if k >= 8 {
        None
    } else if line_owner(cells, k) is Some {
        line_owner(cells, k)
    } else {
        winner_from(cells, k + 1)
    }
}

/// The owner of the first completed line, in line order.
pub open spec fn winner_of(cells: Seq<Option<Player>>) -> Option<Player> {
    winner_from(cells, 0)
}

/// Every cell holds a mark.
pub open spec fn is_full(cells: Seq<Option<Player>>) -> bool {
    forall|i: int| 0 <= i < 9 ==> (#[trigger] cells[i]) is Some
}

/// The board is full and nobody has completed a line.
pub open spec fn is_draw_of(cells: Seq<Option<Player>>) -> bool {
    is_full(cells) && winner_of(cells) is None
}

/// The outcome of the game on these cells; `None` while it goes on.
pub open spec fn outcome_of(cells: Seq<Option<Player>>) -> Option<GameOutcome> {
    match winner_of(cells) {
        Some(p) => Some(GameOutcome::Winner(p)),
        None => if is_draw_of(cells) {
            Some(GameOutcome::Draw)
        } else {
            None
        },
    }
}

/// `k` is the lowest index of an empty cell.
pub open spec fn is_first_empty(cells: Seq<Option<Player>>, k: int) -> bool {
    &&& 0 <= k < 9
    &&& cells[k] is None
    &&& forall|j: int| 0 <= j < k ==> (#[trigger] cells[j]) is Some
}

/// The three cells of row `r`, separated by `|`.
pub open spec fn row_text(cells: Seq<Option<Player>>, r: int) -> Seq<char> {
    cell_text(cells[3 * r], (3 * r) as nat) + seq!['|'] + cell_text(cells[3 * r + 1], (3 * r
        + 1) as nat) + seq!['|'] + cell_text(cells[3 * r + 2], (3 * r + 2) as nat)
}

/// The line drawn between two rows.
pub open spec fn row_separator() -> Seq<char> {
    seq!['\n', '-', '+', '-', '+', '-', '\n']
}

/// The board as a 3x3 grid of cells.
pub open spec fn board_text(cells: Seq<Option<Player>>) -> Seq<char> {
    row_text(cells, 0) + row_separator() + row_text(cells, 1) + row_separator() + row_text(
        cells,
        2,
    )
}

/// The nine cells of a game, in row-major order.
pub struct Board {
    tiles: [Tile; 9],
}

impl Board {
    /// The mark held by cell `i`.
    pub closed spec fn spec_cell(&self, i: int) -> Option<Player> {
        self.tiles[i].spec_owner()
    }

    /// The tile at index `i` sits at position `i`.
    #[verifier::type_invariant]
    spec fn positions_fixed(&self) -> bool {
        forall|i: int| 0 <= i < 9 ==> (#[trigger] self.tiles[i]).spec_position() == i
    }
}

/// The cells of the `k`-th winning line.
fn winning_line(k: usize) -> (r: (usize, usize, usize))
    requires
        k < 8,
    ensures
        (r.0 as int, r.1 as int, r.2 as int) == line(k as int),
        r.0 < 9 && r.1 < 9 && r.2 < 9,
{
    match k {
        0 => (0, 1, 2),
        1 => (3, 4, 5),
        2 => (6, 7, 8),
        3 => (0, 3, 6),
        4 => (1, 4, 7),
        5 => (2, 5, 8),
        6 => (0, 4, 8),
        _ => (6, 4, 2),
    }
}

impl View for Board {
    type V = Seq<Option<Player>>;

    open spec fn view(&self) -> Seq<Option<Player>> {
        Seq::new(9, |i: int| self.spec_cell(i))
    }
}

impl Board {
    /// A board of nine empty cells at positions 0 to 8.
    pub fn new() -> (r: Board)
        ensures
            forall|i: int| 0 <= i < 9 ==> (#[trigger] r@[i]) is None,
    {
        Board {
            tiles: [
                Tile::new(0),
                Tile::new(1),
                Tile::new(2),
                Tile::new(3),
                Tile::new(4),
                Tile::new(5),
                Tile::new(6),
                Tile::new(7),
                Tile::new(8),
            ],
        }
    }

    /// The human's move: marks the cell at `position` for `X`. Fails with
    /// `InvalidPosition` when `position` is not in 0..=8 and with
    /// `AlreadyOccupied` when the cell holds a mark; a failed move changes
    /// nothing.
    pub fn play_x(&mut self, position: u8) -> (r: Result<(), BadMoveError>)
        ensures
            position > 8 ==> r == Err::<(), BadMoveError>(BadMoveError::InvalidPosition)
                && final(self)@ == old(self)@,
            position <= 8 && old(self)@[position as int] is Some ==> r == Err::<(), BadMoveError>(
                BadMoveError::AlreadyOccupied,
            ) && final(self)@ == old(self)@,
            position <= 8 && old(self)@[position as int] is None ==> r is Ok && final(self)@
                == old(self)@.update(position as int, Some(Player::X)),
    {
        if position > 8 {
            return Err(BadMoveError::InvalidPosition);
        }
        proof {
            use_type_invariant(&*self);
        }
        let i = position as usize;
        let r = self.tiles[i].play_x();
        assert(self@ =~= old(self)@.update(i as int, self@[i as int]));
        r
    }

    /// The lowest index of an empty cell, or `None` on a full board.
    fn pick_empty_tile(&self) -> (r: Option<usize>)
        ensures
            r is None ==> is_full(self@),
            r matches Some(k) ==> is_first_empty(self@, k as int),
    {
        let mut i: usize = 0;
        while i < 9
            invariant
                i <= 9,
                forall|j: int| 0 <= j < i ==> (#[trigger] self@[j]) is Some,
            decreases 9 - i,
        {
            if self.tiles[i].owner().is_none() {
                return Some(i);
            }
            i += 1;
        }
        None
    }

    /// The automated opponent's move: marks the lowest empty cell for `O`.
    /// On a full board nothing changes.
    pub fn play_o(&mut self)
        ensures
            is_full(old(self)@) ==> final(self)@ == old(self)@,
            forall|k: int| #[trigger]
                is_first_empty(old(self)@, k) ==> final(self)@ == old(self)@.update(
                    k,
                    Some(Player::O),
                ),
    {
        proof {
            use_type_invariant(&*self);
        }
        match self.pick_empty_tile() {
            Some(i) => {
                let _ = self.tiles[i].play_o();
                assert(self@ =~= old(self)@.update(i as int, Some(Player::O)));
                assert forall|k: int| #[trigger] is_first_empty(old(self)@, k) implies k == i by {
                    if k < i {
                        assert(old(self)@[k] is Some);
                    } else if k > i {
                        assert(old(self)@[i as int] is Some);
                    }
                }
            },
            None => {
                assert(self@ =~= old(self)@);
            },
        }
    }

    /// The player who holds all of line `k`, if one does.
    fn line_owner(&self, k: usize) -> (r: Option<Player>)
        requires
            k < 8,
        ensures
            r == line_owner(self@, k as int),
    {
        let (a, b, c) = winning_line(k);
        match (self.tiles[a].owner(), self.tiles[b].owner(), self.tiles[c].owner()) {
            (Some(x), Some(y), Some(z)) => {
                if x == y && y == z {
                    Some(x)
                } else {
                    None
                }
            },
            _ => None,
        }
    }

    /// The owner of the first completed line, examining rows, then columns,
    /// then diagonals; `None` when no line is complete.
    pub fn winner(&self) -> (r: Option<Player>)
        ensures
            r == winner_of(self@),
    {
        let mut k: usize = 0;
        while k < 8
            invariant
                k <= 8,
                winner_of(self@) == winner_from(self@, k as int),
            decreases 8 - k,
        {
            let owner = self.line_owner(k);
            if owner.is_some() {
                return owner;
            }
            k += 1;
        }
        None
    }

    /// Every cell holds a mark and nobody has completed a line.
    pub fn is_draw(&self) -> (r: bool)
        ensures
            r == is_draw_of(self@),
    {
        let mut i: usize = 0;
        while i < 9
            invariant
                i <= 9,
                forall|j: int| 0 <= j < i ==> (#[trigger] self@[j]) is Some,
            decreases 9 - i,
        {
            if self.tiles[i].owner().is_none() {
                assert(self@[i as int] is None);
                return false;
            }
            i += 1;
        }
        self.winner().is_none()
    }

    /// The outcome of the game: the winner if a line is complete, a draw if
    /// the board is full without one, else `None` while the game goes on.
    /// It is computed afresh from the cells on every call.
    pub fn outcome(&self) -> (r: Option<GameOutcome>)
        ensures
            r == outcome_of(self@),
    {
        match self.winner() {
            Some(p) => Some(GameOutcome::Winner(p)),
            None => if self.is_draw() {
                Some(GameOutcome::Draw)
            } else {
                None
            },
        }
    }

    /// Row `row` of the board: its three cells separated by `|`.
    fn render_row(&self, row: usize) -> (r: String)
        requires
            row < 3,
        ensures
            r@ == row_text(self@, row as int),
    {
        proof {
            use_type_invariant(self);
            reveal_strlit("|");
        }
        let first = 3 * row;
        let t0 = self.tiles[first].render();
        let t1 = self.tiles[first + 1].render();
        let t2 = self.tiles[first + 2].render();
        let mut s = t0;
        s.append("|");
        s.append(t1.as_str());
        s.append("|");
        s.append(t2.as_str());
        proof {
            assert(self.tiles[first as int].spec_position() == first);
            assert(self.tiles[first + 1].spec_position() == first + 1);
            assert(self.tiles[first + 2].spec_position() == first + 2);
            assert(self@[first as int] == self.tiles[first as int].spec_owner());
            assert(self@[first + 1] == self.tiles[first + 1].spec_owner());
            assert(self@[first + 2] == self.tiles[first + 2].spec_owner());
            assert(s@ =~= row_text(self@, row as int));
        }
        s
    }

    /// The board as three rows of cells separated by `|`, with `-+-+-`
    /// between rows; an empty cell shows its position.
    pub fn render(&self) -> (r: String)
        ensures
            r@ == board_text(self@),
    {
        proof {
            reveal_strlit("\n-+-+-\n");
        }
        let mut s = self.render_row(0);
        s.append("\n-+-+-\n");
        s.append(self.render_row(1).as_str());
        s.append("\n-+-+-\n");
        s.append(self.render_row(2).as_str());
        assert(s@ =~= board_text(self@));
        s
    }
}

/// The outcome is a function of the cells alone: two boards whose cells hold
/// the same marks have the same outcome, so asking again without a move in
/// between gives the same answer.
pub proof fn lemma_outcome_stable(a: &Board, b: &Board)
    requires
        a@ == b@,
    ensures
        outcome_of(a@) == outcome_of(b@),
        winner_of(a@) == winner_of(b@),
        is_draw_of(a@) == is_draw_of(b@),
{
}

} // verus!
