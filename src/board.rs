use vstd::prelude::*;
use crate::types::{FieldState, Side, State};

verus! {

/// The 3×3 grid of fields, indexed by row, then by column.
pub type Board = [[FieldState; 3]; 3];

/// The mark on the field at row `r`, column `c`.
pub open spec fn mark_at(b: Board, r: int, c: int) -> Option<Side> {
    b[r][c].0
}

/// Row and column of field `k` (0 to 2) of win-line `l` (0 to 7): the three
/// rows, then the three columns, then the main diagonal and the anti-diagonal.
pub open spec fn line_field(l: int, k: int) -> (int, int) {
    if l < 3 {
        (l, k)
    } else if l < 6 {
        (k, l - 3)
    } else if l == 6 {
        (k, k)
    } else {
        (k, 2 - k)
    }
}

/// The mark on field `k` of win-line `l`.
pub open spec fn line_mark(b: Board, l: int, k: int) -> Option<Side> {
    mark_at(b, line_field(l, k).0, line_field(l, k).1)
}

/// All three fields of win-line `l` carry the mark of `s`.
pub open spec fn line_filled_by(b: Board, l: int, s: Side) -> bool {
    &&& line_mark(b, l, 0) == Some(s)
    &&& line_mark(b, l, 1) == Some(s)
    &&& line_mark(b, l, 2) == Some(s)
}

/// Side `s` has completed some win-line.
pub open spec fn has_line(b: Board, s: Side) -> bool {
    exists|l: int| 0 <= l < 8 && #[trigger] line_filled_by(b, l, s)
}

/// Some field of win-line `l` carries the mark of `s`.
pub open spec fn line_touched_by(b: Board, l: int, s: Side) -> bool {
    ||| line_mark(b, l, 0) == Some(s)
    ||| line_mark(b, l, 1) == Some(s)
    ||| line_mark(b, l, 2) == Some(s)
}

/// Win-line `l` does not hold marks of both sides, so a side could still
/// complete it.
pub open spec fn line_open(b: Board, l: int) -> bool {
    !(line_touched_by(b, l, Side::X) && line_touched_by(b, l, Side::O))
}

/// Some win-line is still open.
pub open spec fn has_open_line(b: Board) -> bool {
    exists|l: int| 0 <= l < 8 && #[trigger] line_open(b, l)
}

/// 1 where the field at row `r`, column `c` holds `m`, else 0.
pub open spec fn holds(b: Board, r: int, c: int, m: Option<Side>) -> int {
    if mark_at(b, r, c) == m {
        1
    } else {
        0
    }
}

/// Number of fields of the board that hold `m`.
pub open spec fn count_marks(b: Board, m: Option<Side>) -> int {
    holds(b, 0, 0, m) + holds(b, 0, 1, m) + holds(b, 0, 2, m)
        + holds(b, 1, 0, m) + holds(b, 1, 1, m) + holds(b, 1, 2, m)
        + holds(b, 2, 0, m) + holds(b, 2, 1, m) + holds(b, 2, 2, m)
}

/// Number of occupied fields.
pub open spec fn occupied(b: Board) -> int {
    9 - count_marks(b, None)
}

/// The outcome once `mover` has just placed a mark, where the other side has
/// completed no line: a win for `mover` if it has completed one, otherwise
/// play goes on while some line is open, otherwise a draw.
pub open spec fn outcome_after(b: Board, mover: Side) -> State {
    if has_line(b, mover) {
        State::Win(mover)
    } else if has_open_line(b) {
        State::Play(mover.opponent())
    } else {
        State::Draw
    }
}

/// Every field of every win-line lies on the board.
pub proof fn lemma_line_field_on_board(l: int, k: int)
    requires
        0 <= l < 8,
        0 <= k < 3,
    ensures
        0 <= line_field(l, k).0 < 3,
        0 <= line_field(l, k).1 < 3,
{
}

/// `b2` is `b` with the mark of `s` placed on the empty field at row `r`,
/// column `c`.
pub open spec fn placed(b: Board, b2: Board, r: int, c: int, s: Side) -> bool {
    &&& 0 <= r < 3
    &&& 0 <= c < 3
    &&& mark_at(b, r, c) is None
    &&& forall|i: int, j: int|
        0 <= i < 3 && 0 <= j < 3 ==> #[trigger] mark_at(b2, i, j) == if i == r && j == c {
            Some(s)
        } else {
            mark_at(b, i, j)
        }
}

/// Placing a mark of `s` on an empty field adds one mark of `s`, takes one
/// empty field away, leaves the marks of the other side as they were, and so
/// completes no line for the other side.
pub proof fn lemma_place(b: Board, b2: Board, r: int, c: int, s: Side)
    requires
        placed(b, b2, r, c, s),
    ensures
        count_marks(b2, Some(s)) == count_marks(b, Some(s)) + 1,
        count_marks(b2, Some(s.opponent())) == count_marks(b, Some(s.opponent())),
        count_marks(b2, None) == count_marks(b, None) - 1,
        !has_line(b, s.opponent()) ==> !has_line(b2, s.opponent()),
{
    assert forall|l: int| 0 <= l < 8 && #[trigger] line_filled_by(b2, l, s.opponent()) implies line_filled_by(
        b,
        l,
        s.opponent(),
    ) by {
        lemma_line_field_on_board(l, 0);
        lemma_line_field_on_board(l, 1);
        lemma_line_field_on_board(l, 2);
    }
}

/// Row and column of field `k` of win-line `l`.
pub fn win_line_field(l: usize, k: usize) -> (r: (usize, usize))
    requires
        l < 8,
        k < 3,
    ensures
        r.0 == line_field(l as int, k as int).0,
        r.1 == line_field(l as int, k as int).1,
        r.0 < 3,
        r.1 < 3,
{
    if l < 3 {
        (l, k)
    } else if l < 6 {
        (k, l - 3)
    } else if l == 6 {
        (k, k)
    } else {
        (k, 2 - k)
    }
}

/// The mark on field `k` of win-line `l`.
fn line_mark_at(b: &Board, l: usize, k: usize) -> (r: Option<Side>)
    requires
        l < 8,
        k < 3,
    ensures
        r == line_mark(*b, l as int, k as int),
{
    let (row, col) = win_line_field(l, k);
    b[row][col].0
}

/// `f` is the mark of `s`.
fn is_mark_of(f: Option<Side>, s: Side) -> (r: bool)
    ensures
        r == (f == Some(s)),
{
    match f {
        Some(t) => t == s,
        None => false,
    }
}

/// The side, if any, that has filled all of win-line `l`.
pub fn line_winner(b: &Board, l: usize) -> (r: Option<Side>)
    requires
        l < 8,
    ensures
        r matches Some(s) ==> line_filled_by(*b, l as int, s),
        r is None ==> !line_filled_by(*b, l as int, Side::X) && !line_filled_by(
            *b,
            l as int,
            Side::O,
        ),
{
    let first = line_mark_at(b, l, 0);
    match first {
        Some(s) => {
            if is_mark_of(line_mark_at(b, l, 1), s) && is_mark_of(line_mark_at(b, l, 2), s) {
                Some(s)
            } else {
                None
            }
        },
        None => None,
    }
}

/// Whether win-line `l` is still open, that is holds no marks of both sides.
pub fn is_line_open(b: &Board, l: usize) -> (r: bool)
    requires
        l < 8,
    ensures
        r == line_open(*b, l as int),
{
    let m0 = line_mark_at(b, l, 0);
    let m1 = line_mark_at(b, l, 1);
    let m2 = line_mark_at(b, l, 2);
    let x = is_mark_of(m0, Side::X) || is_mark_of(m1, Side::X) || is_mark_of(m2, Side::X);
    let o = is_mark_of(m0, Side::O) || is_mark_of(m1, Side::O) || is_mark_of(m2, Side::O);
    !(x && o)
}

} // verus!
