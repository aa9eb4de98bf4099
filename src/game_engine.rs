use vstd::prelude::*;

use crate::rules::{
    classify, lemma_mark_count_update, line_complete, mark_count, winner_from, winning_line,
    BOARD_SIZE, LINE_COUNT,
};
use crate::search::{
    best_of_moves, best_pick, count_empty, lemma_alpha_beta_step, lemma_best_of_moves_monotone,
    lemma_best_of_moves_none, lemma_best_of_moves_step, lemma_best_pick, lemma_place_count,
    lemma_score_bounds, lemma_score_unfold, max_of, min_of, move_score, place, score, SCORE_BOUND,
    WIN_SCORE,
};
use crate::types::{Cell, GameState, MoveError, Player};

verus! {

/// A game of Tic-Tac-Toe: the live board, the player to move, and whether the
/// built-in opponent may be asked for moves.
pub struct GameEngine {
    board: [Cell; 9],
    current_player: Player,
    ai_enabled: bool,
}

impl GameEngine {
    /// The cells of the live board, in index order.
    pub closed spec fn cells(&self) -> Seq<Cell> {
        self.board@
    }

    /// Turns alternate from `X`: with `X` to move both players have as many marks on
    /// the board, and with `O` to move `X` has one more.
    #[verifier::type_invariant]
    closed spec fn turn_matches_marks(&self) -> bool {
        if self.current_player == Player::X {
            mark_count(self.board@, Cell::X) == mark_count(self.board@, Cell::O)
        } else {
            mark_count(self.board@, Cell::X) == mark_count(self.board@, Cell::O) + 1
        }
    }

    /// The player whose turn it is.
    pub closed spec fn turn(&self) -> Player {
        self.current_player
    }

    /// Whether the built-in opponent is enabled: `true` for a game against it,
    /// `false` for two human players.
    pub closed spec fn ai_on(&self) -> bool {
        self.ai_enabled
    }

    /// Creates a game with an empty board, `X` to move and the opponent enabled.
    pub fn new() -> (r: GameEngine)
        ensures
            r.cells() == Seq::new(9, |i: int| Cell::Empty),
            r.turn() == Player::X,
            r.ai_on(),
    {
        let r = GameEngine { board: [Cell::Empty; 9], current_player: Player::X, ai_enabled: true };
        assert(r.cells() =~= Seq::new(9, |i: int| Cell::Empty));
        r
    }

    /// Creates a game with an empty board and `X` to move, with the opponent
    /// enabled or not.
    pub fn with_ai(ai_enabled: bool) -> (r: GameEngine)
        ensures
            r.cells() == Seq::new(9, |i: int| Cell::Empty),
            r.turn() == Player::X,
            r.ai_on() == ai_enabled,
    {
        let r = GameEngine { board: [Cell::Empty; 9], current_player: Player::X, ai_enabled };
        assert(r.cells() =~= Seq::new(9, |i: int| Cell::Empty));
        r
    }

    /// The move the search picks for the player to move: none when the built-in
    /// opponent is disabled or the game is over, and otherwise the empty cell of
    /// greatest minimax value, the lowest such cell on ties.
    pub open spec fn spec_best_move(&self) -> Option<usize> {
        if !self.ai_on() || classify(self.cells()) != GameState::InProgress {
            None
        } else {
            best_pick(self.cells(), self.turn(), 9).1
        }
    }

    /// Returns the player whose turn it is. Turns alternate, starting with `X`: `X`
    /// is to move exactly when both players have as many marks on the board, and `O`
    /// exactly when `X` has one more.
    pub fn current_player(&self) -> (r: Player)
        ensures
            r == self.turn(),
            r == Player::X <==> mark_count(self.cells(), Cell::X) == mark_count(
                self.cells(),
                Cell::O,
            ),
            r == Player::O <==> mark_count(self.cells(), Cell::X) == mark_count(
                self.cells(),
                Cell::O,
            ) + 1,
    {
        proof {
            use_type_invariant(self);
        }
        self.current_player
    }

    /// Returns whether the built-in opponent is enabled.
    pub fn ai_enabled(&self) -> (r: bool)
        ensures
            r == self.ai_on(),
    {
        self.ai_enabled
    }

    /// Returns the live board.
    pub fn get_board(&self) -> (r: &[Cell; 9])
        ensures
            r@ == self.cells(),
    {
        &self.board
    }

    /// Places the current player's mark at `index` and passes the turn.
    ///
    /// Fails with `OutOfBounds` when `index` is 9 or more, and otherwise with
    /// `CellOccupied` when the cell already holds a mark; a failed move changes nothing.
    pub fn make_move(&mut self, index: usize) -> (r: Result<(), MoveError>)
        ensures
            index >= BOARD_SIZE ==> r == Err::<(), MoveError>(MoveError::OutOfBounds),
            index < BOARD_SIZE && old(self).cells()[index as int] != Cell::Empty ==> r == Err::<
                (),
                MoveError,
            >(MoveError::CellOccupied),
            r is Ok <==> index < BOARD_SIZE && old(self).cells()[index as int] == Cell::Empty,
            r is Ok ==> final(self).cells() == old(self).cells().update(
                index as int,
                old(self).turn().spec_mark(),
            ),
            r is Ok ==> final(self).turn() == old(self).turn().spec_opponent(),
            r is Err ==> *final(self) == *old(self),
            final(self).ai_on() == old(self).ai_on(),
    {
        if index >= BOARD_SIZE {
            return Err(MoveError::OutOfBounds);
        }
        if self.board[index] != Cell::Empty {
            return Err(MoveError::CellOccupied);
        }
        proof {
            use_type_invariant(&*self);
        }
        let mut board = self.board;
        board[index] = self.current_player.mark();
        proof {
            lemma_mark_count_update(
                self.board@,
                index as int,
                self.current_player.spec_mark(),
                self.current_player.spec_opponent().spec_mark(),
            );
        }
        *self = GameEngine {
            board,
            current_player: self.current_player.opponent(),
            ai_enabled: self.ai_enabled,
        };
        Ok(())
    }

    /// Classifies a board: a win for the owner of the first complete line (rows,
    /// then columns, then diagonals), else a tie when no cell is empty, else in progress.
    pub fn check_board_state(board: [Cell; 9]) -> (r: GameState)
        ensures
            r == classify(board@),
    {
        let mut k: usize = 0;
        while k < LINE_COUNT
            invariant
                k <= LINE_COUNT,
                winner_from(board@, 0) == winner_from(board@, k as int),
            decreases LINE_COUNT - k,
        {
            let (i, j, l) = winning_line(k);
            let c = board[i];
            if c != Cell::Empty && c == board[j] && board[j] == board[l] {
                assert(line_complete(board@, k as int));
                return match c {
                    Cell::O => GameState::Win(Player::O),
                    _ => GameState::Win(Player::X),
                };
            }
            k = k + 1;
        }
        let mut n: usize = 0;
        while n < BOARD_SIZE
            invariant
                n <= BOARD_SIZE,
                winner_from(board@, 0) is None,
                forall|m: int| 0 <= m < n ==> board@[m] != Cell::Empty,
            decreases BOARD_SIZE - n,
        {
            if board[n] == Cell::Empty {
                assert(board@[n as int] == Cell::Empty);
                return GameState::InProgress;
            }
            n = n + 1;
        }
        GameState::Tie
    }

    /// Classifies the live board.
    pub fn check_state(&self) -> (r: GameState)
        ensures
            r == classify(self.cells()),
    {
        Self::check_board_state(self.board)
    }

    /// Whether the game has ended in a win or a tie.
    pub fn is_over(&self) -> (r: bool)
        ensures
            r <==> classify(self.cells()) != GameState::InProgress,
    {
        match self.check_state() {
            GameState::InProgress => false,
            _ => true,
        }
    }

    /// Scores `board`, with `player` to move, for the player whose turn it is on the
    /// live board, by minimax search with alpha-beta pruning over the window
    /// (`alpha`, `beta`). A result inside the window is the exact minimax value; a
    /// result at or below `alpha` bounds the value from above, and one at or above
    /// `beta` bounds it from below.
    fn minimax_with_pruning(
        &self,
        board: [Cell; 9],
        player: Player,
        alpha: i32,
        beta: i32,
    ) -> (r: i32)
        requires
            -SCORE_BOUND <= alpha < beta <= SCORE_BOUND,
        ensures
            -SCORE_BOUND <= r <= SCORE_BOUND,
            r <= alpha ==> score(board@, player, self.current_player) <= r,
            r >= beta ==> score(board@, player, self.current_player) >= r,
            alpha < r < beta ==> score(board@, player, self.current_player) == r,
        decreases count_empty(board@),
    {
        let root = self.current_player;
        proof {
            lemma_score_unfold(board@, player, root);
            lemma_best_of_moves_none(board@, player, root);
        }
        match Self::check_board_state(board) {
            GameState::Win(winner) => {
                return if winner == root {
                    WIN_SCORE
                } else {
                    -WIN_SCORE
                };
            },
            GameState::Tie => {
                return 0;
            },
            GameState::InProgress => {},
        }
        let ghost b = board@;
        let maximizing = player == root;
        let mut a = alpha;
        let mut z = beta;
        let mut best: i32 = if maximizing {
            -SCORE_BOUND
        } else {
            SCORE_BOUND
        };
        let mut i: usize = 0;
        while i < BOARD_SIZE
            invariant
                b == board@,
                b.len() == BOARD_SIZE,
                score(b, player, root) == best_of_moves(b, player, root, 9),
                root == self.current_player,
                maximizing == (player == root),
                i <= BOARD_SIZE,
                -SCORE_BOUND <= alpha <= a < z <= beta <= SCORE_BOUND,
                -SCORE_BOUND <= best <= SCORE_BOUND,
                maximizing ==> z == beta && a == max_of(alpha as int, best as int),
                maximizing ==> best_of_moves(b, player, root, i as int) <= best,
                maximizing && best > alpha ==> best_of_moves(b, player, root, i as int) == best,
                !maximizing ==> a == alpha && z == min_of(beta as int, best as int),
                !maximizing ==> best_of_moves(b, player, root, i as int) >= best,
                !maximizing && best < beta ==> best_of_moves(b, player, root, i as int) == best,
            decreases BOARD_SIZE - i,
        {
            proof {
                lemma_best_of_moves_step(b, player, root, i as int);
            }
            if board[i] == Cell::Empty {
                let mut next = board;
                next[i] = player.mark();
                assert(next@ == place(b, i as int, player));
                proof {
                    lemma_place_count(b, i as int, player);
                }
                let v = self.minimax_with_pruning(next, player.opponent(), a, z);
                proof {
                    lemma_alpha_beta_step(
                        maximizing,
                        alpha as int,
                        beta as int,
                        a as int,
                        z as int,
                        best as int,
                        best_of_moves(b, player, root, i as int),
                        score(next@, player.spec_opponent(), root),
                        v as int,
                    );
                }
                if maximizing {
                    if v > best {
                        best = v;
                    }
                    if v > a {
                        a = v;
                    }
                } else {
                    if v < best {
                        best = v;
                    }
                    if v < z {
                        z = v;
                    }
                }
                if z <= a {
                    proof {
                        lemma_best_of_moves_monotone(b, player, root, i as int + 1, 9);
                    }
                    return best;
                }
            }
            i = i + 1;
        }
        best
    }

    /// Picks the move of the player to move: the empty cell whose minimax value is
    /// greatest, the lowest such cell on ties. Returns `None` when the built-in
    /// opponent is disabled or the game is over.
    pub fn get_best_move(&self) -> (r: Option<usize>)
        ensures
            r == self.spec_best_move(),
    {
        if !self.ai_enabled || self.is_over() {
            return None;
        }
        let player = self.current_player;
        let ghost b = self.board@;
        let mut best_score: i32 = -SCORE_BOUND;
        let mut best_move: Option<usize> = None;
        let mut i: usize = 0;
        while i < BOARD_SIZE
            invariant
                b == self.board@,
                b.len() == BOARD_SIZE,
                player == self.current_player,
                i <= BOARD_SIZE,
                best_pick(b, player, i as int) == (best_score as int, best_move),
            decreases BOARD_SIZE - i,
        {
            if self.board[i] == Cell::Empty {
                let mut next = self.board;
                next[i] = player.mark();
                assert(next@ == place(b, i as int, player));
                let s = self.minimax_with_pruning(next, player.opponent(), -SCORE_BOUND, SCORE_BOUND);
                proof {
                    lemma_score_bounds(next@, player.spec_opponent(), player);
                }
                assert(s == move_score(b, player, i as int));
                if s > best_score {
                    best_score = s;
                    best_move = Some(i);
                }
            }
            i = i + 1;
        }
        best_move
    }

    /// A move picked by the search is always accepted by `make_move`: its index is
    /// on the board and its cell is empty.
    pub proof fn lemma_best_move_accepted(&self)
        ensures
            self.spec_best_move() matches Some(i) ==> i < BOARD_SIZE && self.cells()[i as int]
                == Cell::Empty,
    {
        lemma_best_pick(self.cells(), self.turn(), 9);
    }

    /// While the game is in progress and the built-in opponent is enabled, the search
    /// picks a move, and no other move has a greater minimax value for the player to
    /// move: when some move keeps the opponent from forcing a win, the picked one does
    /// too. Among moves of equal value the lowest index is picked.
    pub proof fn lemma_best_move_optimal(&self)
        ensures
            self.ai_on() && classify(self.cells()) == GameState::InProgress ==> self.spec_best_move() is Some,
            self.spec_best_move() matches Some(i) ==> {
                &&& forall|j: int|
                    0 <= j < BOARD_SIZE && self.cells()[j] == Cell::Empty ==> #[trigger] move_score(
                        self.cells(),
                        self.turn(),
                        j,
                    ) <= move_score(self.cells(), self.turn(), i as int)
                &&& forall|j: int|
                    0 <= j < i && self.cells()[j] == Cell::Empty ==> #[trigger] move_score(
                        self.cells(),
                        self.turn(),
                        j,
                    ) < move_score(self.cells(), self.turn(), i as int)
                &&& (exists|j: int|
                    0 <= j < BOARD_SIZE && self.cells()[j] == Cell::Empty && #[trigger] move_score(
                        self.cells(),
                        self.turn(),
                        j,
                    ) >= 0) ==> move_score(self.cells(), self.turn(), i as int) >= 0
            },
    {
        lemma_best_pick(self.cells(), self.turn(), 9);
    }
}

} // verus!
