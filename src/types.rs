use vstd::prelude::*;

verus! {

/// The two sides of play; `X` always moves first.
#[derive(Clone, Copy, Debug, PartialEq, Eq, Structural)]
pub enum Side {
    X,
    O,
}

impl Side {
    /// The side that moves after `self`.
    pub open spec fn opponent(self) -> Side {
        match self {
            Side::X => Side::O,
            Side::O => Side::X,
        }
    }

    /// The side that moves after `self`.
    #[must_use]
    pub fn next(self) -> (r: Side)
        ensures
            r == self.opponent(),
    {
        match self {
            Side::X => Side::O,
            Side::O => Side::X,
        }
    }
}

/// What a field of the board holds: nothing, or the mark of a side.
#[derive(Clone, Copy, Debug, PartialEq, Eq, Structural)]
pub struct FieldState(pub Option<Side>);

impl FieldState {
    /// Whether the field holds no mark.
    #[must_use]
    pub fn is_empty(&self) -> (r: bool)
        ensures
            r == (self.0 is None),
    {
        self.0.is_none()
    }
}

/// Horizontal coordinate of a field.
#[derive(Clone, Copy, Debug, PartialEq, Eq, Structural)]
pub enum Hor {
    Left,
    Mid,
    Right,
}

impl Hor {
    /// Column number, counted from the left.
    pub open spec fn col(self) -> int {
        match self {
            Hor::Left => 0,
            Hor::Mid => 1,
            Hor::Right => 2,
        }
    }

    /// Column number, counted from the left.
    pub fn index(self) -> (r: usize)
        ensures
            r == self.col(),
    {
        match self {
            Hor::Left => 0,
            Hor::Mid => 1,
            Hor::Right => 2,
        }
    }

    /// The coordinate of column `c`, if there is such a column.
    pub fn from_index(c: usize) -> (r: Option<Hor>)
        ensures
            c < 3 <==> r is Some,
            r matches Some(h) ==> h.col() == c,
    {
        if c == 0 {
            Some(Hor::Left)
        } else if c == 1 {
            Some(Hor::Mid)
        } else if c == 2 {
            Some(Hor::Right)
        } else {
            None
        }
    }
}

/// Vertical coordinate of a field.
#[derive(Clone, Copy, Debug, PartialEq, Eq, Structural)]
pub enum Vert {
    Top,
    Mid,
    Bottom,
}

impl Vert {
    /// Row number, counted from the top.
    pub open spec fn row(self) -> int {
        match self {
            Vert::Top => 0,
            Vert::Mid => 1,
            Vert::Bottom => 2,
        }
    }

    /// Row number, counted from the top.
    pub fn index(self) -> (r: usize)
        ensures
            r == self.row(),
    {
        match self {
            Vert::Top => 0,
            Vert::Mid => 1,
            Vert::Bottom => 2,
        }
    }

    /// The coordinate of row `r`, if there is such a row.
    pub fn from_index(r: usize) -> (o: Option<Vert>)
        ensures
            r < 3 <==> o is Some,
            o matches Some(v) ==> v.row() == r,
    {
        if r == 0 {
            Some(Vert::Top)
        } else if r == 1 {
            Some(Vert::Mid)
        } else if r == 2 {
            Some(Vert::Bottom)
        } else {
            None
        }
    }
}

/// A field of the board, named by its row and its column.
#[derive(Clone, Copy, Debug, PartialEq, Eq, Structural)]
pub struct FieldName {
    pub v: Vert,
    pub h: Hor,
}

impl FieldName {
    /// The field at `row` and `col` (both counted from 0), or `None` where
    /// either lies off the board.
    pub fn from_row_col(row: usize, col: usize) -> (r: Option<FieldName>)
        ensures
            (row < 3 && col < 3) <==> r is Some,
            r matches Some(n) ==> n.v.row() == row && n.h.col() == col,
    {
        match (Vert::from_index(row), Hor::from_index(col)) {
            (Some(v), Some(h)) => Some(FieldName { v, h }),
            _ => None,
        }
    }
}

/// State of play: a side to move, a side that has won, or a draw.
#[derive(Clone, Copy, Debug, PartialEq, Eq, Structural)]
pub enum State {
    Play(Side),
    Win(Side),
    Draw,
}

} // verus!
