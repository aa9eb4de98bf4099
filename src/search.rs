use vstd::prelude::*;

use crate::rules::{classify, is_full, BOARD_SIZE};
use crate::types::{Cell, GameState, Player};

verus! {

/// The score of a position won by the player the search is run for.
pub const WIN_SCORE: i32 = 10;

/// A score beyond every real score, used as the starting value of a search level.
pub const SCORE_BOUND: i32 = 11;

/// 1 for an empty cell, 0 for a marked one.
pub open spec fn empty_count_of(c: Cell) -> nat {
    if c == Cell::Empty {
        1
    } else {
        0
    }
}

/// The number of empty cells on a board.
pub open spec fn count_empty(b: Seq<Cell>) -> nat {
    empty_count_of(b[0]) + empty_count_of(b[1]) + empty_count_of(b[2]) + empty_count_of(b[3])
        + empty_count_of(b[4]) + empty_count_of(b[5]) + empty_count_of(b[6]) + empty_count_of(
        b[7],
    ) + empty_count_of(b[8])
}

/// The board after `p` marks cell `i`.
pub open spec fn place(b: Seq<Cell>, i: int, p: Player) -> Seq<Cell> {
    b.update(i, p.spec_mark())
}

/// The starting value of a level where `p` moves: below every score when `p` is
/// the player the search is run for, above every score otherwise.
pub open spec fn worst_for(p: Player, root: Player) -> int {
    if p == root {
        -SCORE_BOUND
    } else {
        SCORE_BOUND as int
    }
}

/// The minimax value of board `b` with `p` to move, scored for `root`: a won board
/// is worth +10 when `root` won and -10 when the other player did, a tie 0, and a
/// board in progress the best value over its moves, the greatest when `p` is
/// `root` and the least otherwise.
#[verifier::opaque]
pub open spec fn score(b: Seq<Cell>, p: Player, root: Player) -> int
    decreases count_empty(b), 10int,
{
    if b.len() != BOARD_SIZE {
        0
    } else {
        match classify(b) {
            GameState::Win(w) => if w == root {
                WIN_SCORE as int
            } else {
                -WIN_SCORE
            },
            GameState::Tie => 0,
            GameState::InProgress => best_of_moves(b, p, root, 9),
        }
    }
}

/// The best value over the moves of `p` on the cells below `n`, as `score` picks it;
/// `worst_for(p, root)` when there is no such move.
#[verifier::opaque]
pub open spec fn best_of_moves(b: Seq<Cell>, p: Player, root: Player, n: int) -> int
    decreases count_empty(b), n,
{
    if n <= 0 || n > BOARD_SIZE || b.len() != BOARD_SIZE {
        worst_for(p, root)
    } else {
        let prev = best_of_moves(b, p, root, n - 1);
        if b[n - 1] == Cell::Empty {
            let c = score(place(b, n - 1, p), p.spec_opponent(), root);
            if p == root {
                if c > prev {
                    c
                } else {
                    prev
                }
            } else {
                if c < prev {
                    c
                } else {
                    prev
                }
            }
        } else {
            prev
        }
    }
}

/// Taking in more moves can only raise the best value of a level where the player
/// the search is run for moves, and only lower it elsewhere.
pub proof fn lemma_best_of_moves_monotone(b: Seq<Cell>, p: Player, root: Player, k: int, n: int)
    requires
        b.len() == BOARD_SIZE,
        0 <= k <= n <= BOARD_SIZE,
    ensures
        p == root ==> best_of_moves(b, p, root, k) <= best_of_moves(b, p, root, n),
        p != root ==> best_of_moves(b, p, root, k) >= best_of_moves(b, p, root, n),
    decreases n - k,
{
    reveal(best_of_moves);
    if k < n {
        lemma_best_of_moves_monotone(b, p, root, k, n - 1);
    }
}

/// One more cell taken into `best_of_moves`: the value of the move on it, when it is
/// empty, is combined with the best value so far.
pub proof fn lemma_best_of_moves_step(b: Seq<Cell>, p: Player, root: Player, i: int)
    requires
        b.len() == BOARD_SIZE,
        0 <= i < BOARD_SIZE,
    ensures
        b[i] != Cell::Empty ==> best_of_moves(b, p, root, i + 1) == best_of_moves(b, p, root, i),
        b[i] == Cell::Empty && p == root ==> best_of_moves(b, p, root, i + 1) == if score(
            place(b, i, p),
            p.spec_opponent(),
            root,
        ) > best_of_moves(b, p, root, i) {
            score(place(b, i, p), p.spec_opponent(), root)
        } else {
            best_of_moves(b, p, root, i)
        },
        b[i] == Cell::Empty && p != root ==> best_of_moves(b, p, root, i + 1) == if score(
            place(b, i, p),
            p.spec_opponent(),
            root,
        ) < best_of_moves(b, p, root, i) {
            score(place(b, i, p), p.spec_opponent(), root)
        } else {
            best_of_moves(b, p, root, i)
        },
{
    reveal(score);
    reveal(best_of_moves);
}

/// The value of a board, one step unfolded.
pub proof fn lemma_score_unfold(b: Seq<Cell>, p: Player, root: Player)
    requires
        b.len() == BOARD_SIZE,
    ensures
        score(b, p, root) == match classify(b) {
            GameState::Win(w) => if w == root {
                WIN_SCORE as int
            } else {
                -WIN_SCORE
            },
            GameState::Tie => 0,
            GameState::InProgress => best_of_moves(b, p, root, 9),
        },
{
    reveal(score);
    reveal(best_of_moves);
}

/// With no cell taken in, `best_of_moves` is the starting value of the level.
pub proof fn lemma_best_of_moves_none(b: Seq<Cell>, p: Player, root: Player)
    ensures
        best_of_moves(b, p, root, 0) == worst_for(p, root),
{
    reveal(best_of_moves);
}

/// Marking an empty cell leaves one empty cell fewer.
pub proof fn lemma_place_count(b: Seq<Cell>, i: int, p: Player)
    requires
        b.len() == BOARD_SIZE,
        0 <= i < BOARD_SIZE,
        b[i] == Cell::Empty,
    ensures
        count_empty(place(b, i, p)) + 1 == count_empty(b),
{
    let c = place(b, i, p);
    assert(c[i] != Cell::Empty);
    assert(forall|j: int| 0 <= j < BOARD_SIZE && j != i ==> c[j] == b[j]);
}

/// Every minimax value lies between -10 and +10.
pub proof fn lemma_score_bounds(b: Seq<Cell>, p: Player, root: Player)
    requires
        b.len() == BOARD_SIZE,
    ensures
        -WIN_SCORE <= score(b, p, root) <= WIN_SCORE,
    decreases count_empty(b), 10int,
{
    lemma_score_unfold(b, p, root);
    if classify(b) == GameState::InProgress {
        assert(!is_full(b));
        lemma_best_of_moves_bounds(b, p, root, 9);
    }
}

/// `best_of_moves` is a real value once an empty cell has been taken in, and the
/// starting value of the level before that.
pub proof fn lemma_best_of_moves_bounds(b: Seq<Cell>, p: Player, root: Player, n: int)
    requires
        b.len() == BOARD_SIZE,
        0 <= n <= BOARD_SIZE,
    ensures
        (exists|j: int| 0 <= j < n && b[j] == Cell::Empty) ==> -WIN_SCORE <= best_of_moves(
            b,
            p,
            root,
            n,
        ) <= WIN_SCORE,
        (forall|j: int| 0 <= j < n ==> b[j] != Cell::Empty) ==> best_of_moves(b, p, root, n)
            == worst_for(p, root),
    decreases count_empty(b), n,
{
    if n == 0 {
        lemma_best_of_moves_none(b, p, root);
    } else {
        lemma_best_of_moves_bounds(b, p, root, n - 1);
        lemma_best_of_moves_step(b, p, root, n - 1);
        if b[n - 1] == Cell::Empty {
            lemma_place_count(b, n - 1, p);
            lemma_score_bounds(place(b, n - 1, p), p.spec_opponent(), root);
        } else {
            if exists|j: int| 0 <= j < n && b[j] == Cell::Empty {
                let j = choose|j: int| 0 <= j < n && b[j] == Cell::Empty;
                assert(0 <= j < n - 1);
            }
        }
    }
}

/// The value, for `p`, of `p` marking cell `i`.
pub open spec fn move_score(b: Seq<Cell>, p: Player, i: int) -> int {
    score(place(b, i, p), p.spec_opponent(), p)
}

/// The move of `p` chosen among the cells below `n`, with its value: the empty cell
/// of greatest value, the lowest such cell on ties; `None` with a value below every
/// score when no cell below `n` is empty.
pub open spec fn best_pick(b: Seq<Cell>, p: Player, n: int) -> (int, Option<usize>)
    decreases n,
{
    if n <= 0 {
        (-SCORE_BOUND as int, None)
    } else {
        let prev = best_pick(b, p, n - 1);
        if b[n - 1] == Cell::Empty && move_score(b, p, n - 1) > prev.0 {
            (move_score(b, p, n - 1), Some((n - 1) as usize))
        } else {
            prev
        }
    }
}

/// What `best_pick` holds: a chosen cell is empty and of greatest value among the
/// empty cells below `n`, and of strictly greater value than every empty cell before
/// it; nothing is chosen only when no cell below `n` is empty.
pub proof fn lemma_best_pick(b: Seq<Cell>, p: Player, n: int)
    requires
        b.len() == BOARD_SIZE,
        0 <= n <= BOARD_SIZE,
    ensures
        best_pick(b, p, n).1 is None ==> best_pick(b, p, n).0 == -SCORE_BOUND && forall|j: int|
            0 <= j < n ==> b[j] != Cell::Empty,
        best_pick(b, p, n).1 matches Some(i) ==> {
            &&& i < n
            &&& b[i as int] == Cell::Empty
            &&& best_pick(b, p, n).0 == move_score(b, p, i as int)
            &&& forall|j: int|
                0 <= j < n && b[j] == Cell::Empty ==> #[trigger] move_score(b, p, j) <= move_score(
                    b,
                    p,
                    i as int,
                )
            &&& forall|j: int|
                0 <= j < i && b[j] == Cell::Empty ==> #[trigger] move_score(b, p, j) < move_score(
                    b,
                    p,
                    i as int,
                )
        },
    decreases n,
{
    if n > 0 {
        lemma_best_pick(b, p, n - 1);
        if b[n - 1] == Cell::Empty {
            lemma_score_bounds(place(b, n - 1, p), p.spec_opponent(), p);
        }
    }
}

/// The greater of two integers.
pub open spec fn max_of(x: int, y: int) -> int {
    if x > y {
        x
    } else {
        y
    }
}

/// The lesser of two integers.
pub open spec fn min_of(x: int, y: int) -> int {
    if x < y {
        x
    } else {
        y
    }
}

/// One child of an alpha-beta level. `t` is the true best value over the children
/// seen so far and `best` the one the search holds; the child searched over the
/// window (`a`, `z`) returned `v` for true value `c`. After the child, either the
/// window is still open and the relation between true and held values is kept, or
/// the window closed and the held value bounds the true one from the cut side.
pub proof fn lemma_alpha_beta_step(
    maximizing: bool,
    alpha: int,
    beta: int,
    a: int,
    z: int,
    best: int,
    t: int,
    c: int,
    v: int,
)
    requires
        alpha <= a < z <= beta,
        maximizing ==> z == beta && a == max_of(alpha, best) && t <= best && (best > alpha ==> t
            == best),
        !maximizing ==> a == alpha && z == min_of(beta, best) && t >= best && (best < beta ==> t
            == best),
        v <= a ==> c <= v,
        v >= z ==> c >= v,
        a < v < z ==> c == v,
    ensures
        maximizing && max_of(a, v) < z ==> max_of(a, v) == max_of(alpha, max_of(best, v))
            && max_of(t, c) <= max_of(best, v) && (max_of(best, v) > alpha ==> max_of(t, c)
            == max_of(best, v)),
        maximizing && max_of(a, v) >= z ==> max_of(t, c) >= max_of(best, v) && max_of(best, v)
            >= beta,
        !maximizing && a < min_of(z, v) ==> min_of(z, v) == min_of(beta, min_of(best, v))
            && min_of(t, c) >= min_of(best, v) && (min_of(best, v) < beta ==> min_of(t, c)
            == min_of(best, v)),
        !maximizing && a >= min_of(z, v) ==> min_of(t, c) <= min_of(best, v) && min_of(best, v)
            <= alpha,
{
}

} // verus!
