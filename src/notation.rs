use vstd::prelude::*;
use crate::types::{FieldName, Hor, Vert};

verus! {

/// ASCII codes of the letters and digits used in move notation.
pub const LETTER_T: u8 = 116;
pub const LETTER_N: u8 = 110;
pub const LETTER_B: u8 = 98;
pub const LETTER_S: u8 = 115;
pub const LETTER_L: u8 = 108;
pub const LETTER_W: u8 = 119;
pub const LETTER_R: u8 = 114;
pub const LETTER_E: u8 = 101;
pub const LETTER_M: u8 = 109;
pub const LETTER_C: u8 = 99;
pub const DIGIT_ONE: u8 = 49;
pub const DIGIT_NINE: u8 = 57;

// Fields are named in three ways: by position letters (t, b, l, r and m for
// the centre), by compass letters (n, s, w, e and c for the centre), or by the
// digit in the same place on a numeric keypad (7 8 9 / 4 5 6 / 1 2 3). A
// corner takes two letters of one scheme, its row letter and its column
// letter, in either order.

/// Whether `b` is a compass letter rather than a position letter.
pub open spec fn is_compass(b: u8) -> bool {
    b == LETTER_N || b == LETTER_S || b == LETTER_W || b == LETTER_E || b == LETTER_C
}

/// The field that a single letter names: the middle of an edge, or the
/// centre.
pub open spec fn letter_field(b: u8) -> Option<(int, int)> {
    if b == LETTER_T || b == LETTER_N {
        Some((0, 1))
    } else if b == LETTER_B || b == LETTER_S {
        Some((2, 1))
    } else if b == LETTER_L || b == LETTER_W {
        Some((1, 0))
    } else if b == LETTER_R || b == LETTER_E {
        Some((1, 2))
    } else if b == LETTER_M || b == LETTER_C {
        Some((1, 1))
    } else {
        None
    }
}

/// The field that a keypad digit names: 7 8 9 on the top row, 1 2 3 on the
/// bottom one.
pub open spec fn digit_field(b: u8) -> Option<(int, int)> {
    if DIGIT_ONE <= b <= DIGIT_NINE {
        let d = b - DIGIT_ONE;
        Some((2 - d / 3, d % 3))
    } else {
        None
    }
}

/// The corner that row letter `a` and column letter `b` of one scheme name.
pub open spec fn corner_field(a: u8, b: u8) -> Option<(int, int)> {
    match (letter_field(a), letter_field(b)) {
        (Some((ra, ca)), Some((rb, cb))) => {
            if is_compass(a) == is_compass(b) && ra != 1 && ca == 1 && rb == 1 && cb != 1 {
                Some((ra, cb))
            } else {
                None
            }
        },
        _ => None,
    }
}

/// The row and column of the field that `code` names, if it names one.
pub open spec fn notation_field(code: Seq<u8>) -> Option<(int, int)> {
    if code.len() == 1 {
        if letter_field(code[0]) is Some {
            letter_field(code[0])
        } else {
            digit_field(code[0])
        }
    } else if code.len() == 2 {
        if corner_field(code[0], code[1]) is Some {
            corner_field(code[0], code[1])
        } else {
            corner_field(code[1], code[0])
        }
    } else {
        None
    }
}

fn letter_name(b: u8) -> (r: Option<FieldName>)
    ensures
        r matches Some(n) ==> letter_field(b) == Some((n.v.row(), n.h.col())),
        r is None ==> letter_field(b) is None,
{
    if b == LETTER_T || b == LETTER_N {
        Some(FieldName { v: Vert::Top, h: Hor::Mid })
    } else if b == LETTER_B || b == LETTER_S {
        Some(FieldName { v: Vert::Bottom, h: Hor::Mid })
    } else if b == LETTER_L || b == LETTER_W {
        Some(FieldName { v: Vert::Mid, h: Hor::Left })
    } else if b == LETTER_R || b == LETTER_E {
        Some(FieldName { v: Vert::Mid, h: Hor::Right })
    } else if b == LETTER_M || b == LETTER_C {
        Some(FieldName { v: Vert::Mid, h: Hor::Mid })
    } else {
        None
    }
}

fn digit_name(b: u8) -> (r: Option<FieldName>)
    ensures
        r matches Some(n) ==> digit_field(b) == Some((n.v.row(), n.h.col())),
        r is None ==> digit_field(b) is None,
{
    if DIGIT_ONE <= b && b <= DIGIT_NINE {
        let d = b - DIGIT_ONE;
        match (Vert::from_index((2 - d / 3) as usize), Hor::from_index((d % 3) as usize)) {
            (Some(v), Some(h)) => Some(FieldName { v, h }),
            _ => None,
        }
    } else {
        None
    }
}

fn is_compass_letter(b: u8) -> (r: bool)
    ensures
        r == is_compass(b),
{
    b == LETTER_N || b == LETTER_S || b == LETTER_W || b == LETTER_E || b == LETTER_C
}

fn corner_name(a: u8, b: u8) -> (r: Option<FieldName>)
    ensures
        r matches Some(n) ==> corner_field(a, b) == Some((n.v.row(), n.h.col())),
        r is None ==> corner_field(a, b) is None,
{
    match (letter_name(a), letter_name(b)) {
        (Some(na), Some(nb)) => {
            if is_compass_letter(a) == is_compass_letter(b) && na.v != Vert::Mid && na.h
                == Hor::Mid && nb.v == Vert::Mid && nb.h != Hor::Mid {
                Some(FieldName { v: na.v, h: nb.h })
            } else {
                None
            }
        },
        _ => None,
    }
}

impl FieldName {
    /// The field that the move notation `code` names, or `None` where it
    /// names none.
    pub fn parse(code: &[u8]) -> (r: Option<FieldName>)
        ensures
            r matches Some(n) ==> notation_field(code@) == Some((n.v.row(), n.h.col())),
            r is None ==> notation_field(code@) is None,
    {
        if code.len() == 1 {
            match letter_name(code[0]) {
                Some(n) => Some(n),
                None => digit_name(code[0]),
            }
        } else if code.len() == 2 {
            match corner_name(code[0], code[1]) {
                Some(n) => Some(n),
                None => corner_name(code[1], code[0]),
            }
        } else {
            None
        }
    }
}

} // verus!
