use vstd::prelude::*;
use crate::board::{
    count_marks, has_line, has_open_line, is_line_open, line_filled_by, line_open, line_winner,
    lemma_place, mark_at, placed, occupied, outcome_after, Board,
};
use crate::types::{FieldName, FieldState, Side, State};

verus! {

/// Marks of both sides are balanced as strict alternation from `X` allows:
/// `X` has as many marks as `O`, or one more.
pub open spec fn balanced(b: Board) -> bool {
    let x = count_marks(b, Some(Side::X));
    let o = count_marks(b, Some(Side::O));
    x == o || x == o + 1
}

/// A board and the state of play on it.
#[derive(Clone, Debug)]
pub struct Game {
    state: State,
    board: Board,
}

impl Game {
    /// The state of play.
    pub closed spec fn spec_state(&self) -> State {
        self.state
    }

    /// The board.
    pub closed spec fn spec_board(&self) -> Board {
        self.board
    }

    /// The mark on the field `name`.
    pub open spec fn mark(&self, name: FieldName) -> Option<Side> {
        mark_at(self.spec_board(), name.v.row(), name.h.col())
    }

    /// The state of play agrees with the board: while play goes on no side
    /// has a line, some line is open and the side to move is the one that
    /// strict alternation from `X` gives; a win belongs to the one side with
    /// a line; a draw leaves no line open and no side with a line.
    pub open spec fn wf(&self) -> bool {
        let b = self.spec_board();
        &&& balanced(b)
        &&& match self.spec_state() {
            State::Play(s) => {
                &&& !has_line(b, Side::X)
                &&& !has_line(b, Side::O)
                &&& has_open_line(b)
                &&& (s == Side::X <==> count_marks(b, Some(Side::X)) == count_marks(
                    b,
                    Some(Side::O),
                ))
            },
            State::Win(s) => has_line(b, s) && !has_line(b, s.opponent()),
            State::Draw => !has_line(b, Side::X) && !has_line(b, Side::O) && !has_open_line(b),
        }
    }

    /// The state of play.
    #[must_use]
    pub fn state(&self) -> (r: State)
        ensures
            r == self.spec_state(),
    {
        self.state
    }

    /// Whether play goes on.
    #[must_use]
    pub fn playing(&self) -> (r: bool)
        ensures
            r == (self.spec_state() is Play),
    {
        matches!(self.state, State::Play(_))
    }

    /// The board, row by row.
    #[must_use]
    pub fn board(&self) -> (r: &Board)
        ensures
            *r == self.spec_board(),
    {
        &self.board
    }

    /// A game on an empty board, with `X` to move.
    #[must_use]
    pub fn new() -> (r: Game)
        ensures
            r.wf(),
            r.spec_state() == State::Play(Side::X),
            forall|i: int, j: int| 0 <= i < 3 && 0 <= j < 3 ==> mark_at(r.spec_board(), i, j) is None,
    {
        let r = Game { state: State::Play(Side::X), board: [[FieldState(None); 3]; 3] };
        assert(line_open(r.board, 0));
        r
    }

    /// What the field `name` holds.
    #[must_use]
    pub fn get(&self, name: FieldName) -> (r: FieldState)
        ensures
            r.0 == self.mark(name),
    {
        self.board[name.v.index()][name.h.index()]
    }

    /// Whether a move on `name` is allowed now: play goes on and the field is
    /// empty.
    #[must_use]
    pub fn is_legal_move(&self, name: FieldName) -> (r: bool)
        ensures
            r == self.legal_at(name.v.row(), name.h.col()),
    {
        match self.state {
            State::Play(_) => self.is_empty(name),
            _ => false,
        }
    }

    #[must_use]
    fn is_empty(&self, field_name: FieldName) -> (r: bool)
        ensures
            r == (self.mark(field_name) is None),
    {
        self.get(field_name).is_empty()
    }

    /// A move on the field at row `row`, column `col` is legal: play goes on,
    /// the field lies on the board and is empty.
    pub open spec fn legal_at(&self, row: int, col: int) -> bool {
        &&& self.spec_state() is Play
        &&& 0 <= row < 3
        &&& 0 <= col < 3
        &&& mark_at(self.spec_board(), row, col) is None
    }

    /// `next` is `self` after the side to move has placed its mark on the
    /// field at row `row`, column `col`, and the state of play was settled.
    pub open spec fn moved_to(&self, next: Game, row: int, col: int) -> bool {
        &&& self.spec_state() matches State::Play(s)
        &&& placed(self.spec_board(), next.spec_board(), row, col, s)
        &&& next.spec_state() == outcome_after(next.spec_board(), s)
    }

    /// Places the mark of the side to move on `field_name` where that move is
    /// legal, and then settles the state of play; otherwise changes nothing.
    /// Returns whether the move was made.
    pub fn act(&mut self, field_name: FieldName) -> (r: bool)
        requires
            old(self).wf(),
        ensures
            final(self).wf(),
            r == old(self).legal_at(field_name.v.row(), field_name.h.col()),
            r ==> old(self).moved_to(*final(self), field_name.v.row(), field_name.h.col()),
            r ==> final(self).mark(field_name) == Some(old(self).spec_state()->Play_0),
            !r ==> final(self).spec_state() == old(self).spec_state() && final(self).spec_board()
                == old(self).spec_board(),
            occupied(final(self).spec_board()) == occupied(old(self).spec_board()) + if r {
                1int
            } else {
                0int
            },
    {
        match self.state {
            State::Play(side) => {
                if self.is_empty(field_name) {
                    self.set(field_name, FieldState(Some(side)));
                    proof {
                        lemma_place(
                            old(self).board,
                            self.board,
                            field_name.v.row(),
                            field_name.h.col(),
                            side,
                        );
                    }
                    self.update_state(side);
                    true
                } else {
                    false
                }
            },
            _ => false,
        }
    }

    /// Makes a move on the field at row `row`, column `col` (both counted from
    /// 0) as `act` does; a field off the board is refused like any other
    /// illegal move. Returns whether the move was made.
    pub fn attempt_move(&mut self, row: usize, col: usize) -> (r: bool)
        requires
            old(self).wf(),
        ensures
            final(self).wf(),
            r == old(self).legal_at(row as int, col as int),
            r ==> old(self).moved_to(*final(self), row as int, col as int),
            !r ==> final(self).spec_state() == old(self).spec_state() && final(self).spec_board()
                == old(self).spec_board(),
            occupied(final(self).spec_board()) == occupied(old(self).spec_board()) + if r {
                1int
            } else {
                0int
            },
    {
        match FieldName::from_row_col(row, col) {
            Some(name) => self.act(name),
            None => false,
        }
    }

    /// Writes `state` into the field `name`.
    fn set(&mut self, name: FieldName, state: FieldState)
        ensures
            final(self).state == old(self).state,
            forall|i: int, j: int|
                0 <= i < 3 && 0 <= j < 3 ==> #[trigger] mark_at(final(self).board, i, j) == if i
                    == name.v.row() && j == name.h.col() {
                    state.0
                } else {
                    mark_at(old(self).board, i, j)
                },
    {
        self.board[name.v.index()][name.h.index()] = state;
    }

    /// Recomputes the state of play after `side` has placed a mark.
    fn update_state(&mut self, side: Side)
        requires
            !has_line(old(self).board, side.opponent()),
        ensures
            final(self).board == old(self).board,
            final(self).state == outcome_after(old(self).board, side),
    {
        let mut l: usize = 0;
        while l < 8
            invariant
                l <= 8,
                self.board == old(self).board,
                !has_line(self.board, side.opponent()),
                forall|j: int|
                    0 <= j < l ==> !line_filled_by(self.board, j, Side::X) && !line_filled_by(
                        self.board,
                        j,
                        Side::O,
                    ),
            decreases 8 - l,
        {
            if let Some(s) = line_winner(&self.board, l) {
                assert(has_line(self.board, s));
                self.state = State::Win(s);
                return;
            }
            l += 1;
        }
        assert(!has_line(self.board, side)) by {
            if side == Side::X {
                assert(forall|j: int| 0 <= j < 8 ==> !line_filled_by(self.board, j, Side::X));
            } else {
                assert(forall|j: int| 0 <= j < 8 ==> !line_filled_by(self.board, j, Side::O));
            }
        }
        // a line that holds marks of at most one side can still be won
        let mut l: usize = 0;
        while l < 8
            invariant
                l <= 8,
                self.board == old(self).board,
                !has_line(self.board, side),
                forall|j: int| 0 <= j < l ==> !line_open(self.board, j),
            decreases 8 - l,
        {
            if is_line_open(&self.board, l) {
                self.state = State::Play(side.next());
                return;
            }
            l += 1;
        }
        self.state = State::Draw;
    }
}

impl Default for Game {
    fn default() -> (r: Game)
        ensures
            r.wf(),
            r.spec_state() == State::Play(Side::X),
            forall|i: int, j: int| 0 <= i < 3 && 0 <= j < 3 ==> mark_at(r.spec_board(), i, j) is None,
    {
        Game::new()
    }
}

/// A completed line decides the game: in a consistent game where side `s`
/// has filled a win-line, whichever line it is and in whatever order its
/// fields were filled, the state is a win for `s`.
pub proof fn lemma_full_line_wins(g: Game, l: int, s: Side)
    requires
        g.wf(),
        0 <= l < 8,
        line_filled_by(g.spec_board(), l, s),
    ensures
        g.spec_state() == State::Win(s),
{
    assert(has_line(g.spec_board(), s));
}

/// The state of play depends on the board alone: two consistent games on
/// the same board are in the same state, whatever moves led to it.
pub proof fn lemma_state_of_board(g1: Game, g2: Game)
    requires
        g1.wf(),
        g2.wf(),
        g1.spec_board() == g2.spec_board(),
    ensures
        g1.spec_state() == g2.spec_state(),
{
}

/// Once the game is won or drawn no move is legal, so `act` and
/// `attempt_move` refuse every move and leave the game as it was.
pub proof fn lemma_end_is_final(g: Game, row: int, col: int)
    requires
        !(g.spec_state() is Play),
    ensures
        !g.legal_at(row, col),
{
}

/// An occupied field is never written again: no move on it is legal, so
/// `act` and `attempt_move` refuse it and leave the game as it was.
pub proof fn lemma_occupied_field_kept(g: Game, row: int, col: int)
    requires
        mark_at(g.spec_board(), row, col) is Some,
    ensures
        !g.legal_at(row, col),
{
}

} // verus!
