use vstd::prelude::*;

verus! {

/// One of the two players. `X` always moves first.
#[derive(Debug, Clone, Copy, PartialEq, Eq, Structural)]
pub enum Player {
    X,
    O,
}

impl Player {
    /// The other player.
    pub open spec fn spec_opponent(self) -> Player {
        match self {
            Player::X => Player::O,
            Player::O => Player::X,
        }
    }

    /// The mark this player leaves on a cell.
    pub open spec fn spec_mark(self) -> Cell {
        match self {
            Player::X => Cell::X,
            Player::O => Cell::O,
        }
    }

    /// Returns the opponent of this player.
    pub fn opponent(&self) -> (r: Player)
        ensures
            r == self.spec_opponent(),
            r != *self,
            r.spec_opponent() == *self,
    {
        match self {
            Player::X => Player::O,
            Player::O => Player::X,
        }
    }

    /// Returns the mark this player places on the board.
    pub fn mark(&self) -> (r: Cell)
        ensures
            r == self.spec_mark(),
            r != Cell::Empty,
    {
        match self {
            Player::X => Cell::X,
            Player::O => Cell::O,
        }
    }
}

/// The content of one board cell.
#[derive(Debug, Clone, Copy, PartialEq, Eq, Structural)]
pub enum Cell {
    X,
    O,
    Empty,
}

impl Cell {
    /// The character used to draw this cell: `X`, `O`, or `.` for an empty cell.
    pub fn symbol(&self) -> (r: char)
        ensures
            r == match *self {
                Cell::X => 'X',
                Cell::O => 'O',
                Cell::Empty => '.',
            },
    {
        match self {
            Cell::X => 'X',
            Cell::O => 'O',
            Cell::Empty => '.',
        }
    }
}

/// The classification of a board.
#[derive(Debug, Clone, Copy, PartialEq, Eq, Structural)]
pub enum GameState {
    Win(Player),
    Tie,
    InProgress,
}

/// Why a requested move was rejected.
#[derive(Debug, Clone, Copy, PartialEq, Eq, Structural)]
pub enum MoveError {
    OutOfBounds,
    CellOccupied,
}

} // verus!
