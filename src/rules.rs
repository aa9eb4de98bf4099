use vstd::prelude::*;

use crate::types::{Cell, GameState, Player};

verus! {

/// The number of cells on a board.
pub const BOARD_SIZE: usize = 9;

/// The number of winning lines: three rows, three columns, two diagonals.
pub const LINE_COUNT: usize = 8;

/// The cell indices of winning line `k`, rows first, then columns, then diagonals.
pub open spec fn line(k: int) -> (int, int, int) {
    if k == 0 {
        (0, 1, 2)
    } else if k == 1 {
        (3, 4, 5)
    } else if k == 2 {
        (6, 7, 8)
    } else if k == 3 {
        (0, 3, 6)
    } else if k == 4 {
        (1, 4, 7)
    } else if k == 5 {
        (2, 5, 8)
    } else if k == 6 {
        (0, 4, 8)
    } else {
        (2, 4, 6)
    }
}

/// Line `k` holds three equal marks.
pub open spec fn line_complete(b: Seq<Cell>, k: int) -> bool {
    let (i, j, l) = line(k);
    &&& b[i] != Cell::Empty
    &&& b[i] == b[j]
    &&& b[j] == b[l]
}

/// Line `k` is marked by `p` in all three of its cells.
pub open spec fn line_owned_by(b: Seq<Cell>, k: int, p: Player) -> bool {
    let (i, j, l) = line(k);
    &&& b[i] == p.spec_mark()
    &&& b[j] == p.spec_mark()
    &&& b[l] == p.spec_mark()
}

/// Some winning line is marked by `p` in all three of its cells.
pub open spec fn has_line(b: Seq<Cell>, p: Player) -> bool {
    exists|k: int| 0 <= k < LINE_COUNT && #[trigger] line_owned_by(b, k, p)
}

/// Every cell of the board holds a mark.
pub open spec fn is_full(b: Seq<Cell>) -> bool {
    forall|i: int| 0 <= i < BOARD_SIZE ==> #[trigger] b[i] != Cell::Empty
}

/// The player whose mark fills a cell.
pub open spec fn owner(c: Cell) -> Player {
    match c {
        Cell::O => Player::O,
        _ => Player::X,
    }
}

/// 1 when cell `c` holds `m`, 0 otherwise.
pub open spec fn holds(c: Cell, m: Cell) -> nat {
    if c == m {
        1
    } else {
        0
    }
}

/// The number of cells of the board that hold `m`.
pub open spec fn mark_count(b: Seq<Cell>, m: Cell) -> nat {
    holds(b[0], m) + holds(b[1], m) + holds(b[2], m) + holds(b[3], m) + holds(b[4], m) + holds(
        b[5],
        m,
    ) + holds(b[6], m) + holds(b[7], m) + holds(b[8], m)
}

/// Marking an empty cell with `m` adds one to the count of `m` and leaves the count
/// of every other mark as it was.
pub proof fn lemma_mark_count_update(b: Seq<Cell>, i: int, m: Cell, other: Cell)
    requires
        b.len() == BOARD_SIZE,
        0 <= i < BOARD_SIZE,
        b[i] == Cell::Empty,
        m != Cell::Empty,
        other != Cell::Empty,
        other != m,
    ensures
        mark_count(b.update(i, m), m) == mark_count(b, m) + 1,
        mark_count(b.update(i, m), other) == mark_count(b, other),
{
    let c = b.update(i, m);
    assert(forall|j: int| 0 <= j < BOARD_SIZE && j != i ==> c[j] == b[j]);
}

/// The owner of the first complete line at index `k` or later, scanning in line order.
pub open spec fn winner_from(b: Seq<Cell>, k: int) -> Option<Player>
    decreases LINE_COUNT - k,
{
    if k >= LINE_COUNT {
        None
    } else if line_complete(b, k) {
        Some(owner(b[line(k).0]))
    } else {
        winner_from(b, k + 1)
    }
}

/// The classification of a board: the owner of the first complete line wins; with no
/// complete line a full board is a tie, and any other board is still in progress.
pub open spec fn classify(b: Seq<Cell>) -> GameState {
    match winner_from(b, 0) {
        Some(p) => GameState::Win(p),
        None => if is_full(b) {
            GameState::Tie
        } else {
            GameState::InProgress
        },
    }
}

/// The scan from line `k` finds no winner exactly when no line from `k` on is
/// complete, and a winner it finds owns a complete line from `k` on.
pub proof fn lemma_winner_from(b: Seq<Cell>, k: int)
    requires
        0 <= k <= LINE_COUNT,
    ensures
        winner_from(b, k) is None <==> forall|m: int| k <= m < LINE_COUNT ==> !line_complete(b, m),
        forall|p: Player|
            winner_from(b, k) == Some(p) ==> exists|m: int|
                k <= m < LINE_COUNT && #[trigger] line_owned_by(b, m, p),
    decreases LINE_COUNT - k,
{
    if k < LINE_COUNT {
        lemma_winner_from(b, k + 1);
        if line_complete(b, k) {
            assert(line_owned_by(b, k, owner(b[line(k).0])));
        }
    }
}

/// A line marked by one player in all three cells is complete, and a complete line is
/// marked in all three cells by the owner of its cells.
pub proof fn lemma_line_owned(b: Seq<Cell>, k: int, p: Player)
    ensures
        line_owned_by(b, k, p) ==> line_complete(b, k) && owner(b[line(k).0]) == p,
        line_complete(b, k) ==> line_owned_by(b, k, owner(b[line(k).0])),
{
}

/// A board is a tie exactly when every cell is marked and no winning line is complete.
pub proof fn lemma_tie_iff_full_without_line(b: Seq<Cell>)
    requires
        b.len() == BOARD_SIZE,
    ensures
        classify(b) == GameState::Tie <==> is_full(b) && forall|k: int|
            0 <= k < LINE_COUNT ==> !#[trigger] line_complete(b, k),
{
    lemma_winner_from(b, 0);
}

/// A board is won by `p` exactly when some winning line is marked by `p` in all three
/// cells, on every board where the two players do not both have such a line.
pub proof fn lemma_win_iff_line(b: Seq<Cell>, p: Player)
    requires
        b.len() == BOARD_SIZE,
        !(has_line(b, Player::X) && has_line(b, Player::O)),
    ensures
        classify(b) == GameState::Win(p) <==> has_line(b, p),
{
    lemma_winner_from(b, 0);
    if has_line(b, p) {
        let k = choose|k: int| 0 <= k < LINE_COUNT && line_owned_by(b, k, p);
        lemma_line_owned(b, k, p);
        let w = winner_from(b, 0)->0;
        let m = choose|m: int| 0 <= m < LINE_COUNT && line_owned_by(b, m, w);
        assert(has_line(b, w));
        assert(w == p || w == p.spec_opponent());
    }
}

/// Returns the cell indices of winning line `k`.
pub fn winning_line(k: usize) -> (r: (usize, usize, usize))
    requires
        k < LINE_COUNT,
    ensures
        r.0 as int == line(k as int).0,
        r.1 as int == line(k as int).1,
        r.2 as int == line(k as int).2,
        r.0 < BOARD_SIZE && r.1 < BOARD_SIZE && r.2 < BOARD_SIZE,
{
    match k {
        0 => (0, 1, 2),
        1 => (3, 4, 5),
        2 => (6, 7, 8),
        3 => (0, 3, 6),
        4 => (1, 4, 7),
        5 => (2, 5, 8),
        6 => (0, 4, 8),
        _ => (2, 4, 6),
    }
}

} // verus!
