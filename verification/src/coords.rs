//! Algebraic coordinate decoding.
//!
//! The input boundary names squares with a file letter A through E and a
//! rank digit 1 through 5. The letter picks a base index on the
//! high-index home rank and the digit walks one rank per step toward the
//! low-index side, yielding a flat index of the playable area.

use vstd::prelude::*;
use vstd::string::StrSliceExecFns;
use crate::board::sq_valid;

verus! {

/// The base index a file letter decodes to, case-insensitively.
pub open spec fn spec_row_base(c: char) -> Option<u8> {
    if c == 'a' || c == 'A' {
        Option::Some(43u8)
    } else if c == 'b' || c == 'B' {
        Option::Some(44u8)
    } else if c == 'c' || c == 'C' {
        Option::Some(45u8)
    } else if c == 'd' || c == 'D' {
        Option::Some(46u8)
    } else if c == 'e' || c == 'E' {
        Option::Some(47u8)
    } else {
        Option::None
    }
}

/// The rank number a digit character decodes to: 1 through 5 only.
pub open spec fn spec_col_num(c: char) -> Option<u8> {
    if c == '1' {
        Option::Some(1u8)
    } else if c == '2' {
        Option::Some(2u8)
    } else if c == '3' {
        Option::Some(3u8)
    } else if c == '4' {
        Option::Some(4u8)
    } else if c == '5' {
        Option::Some(5u8)
    } else {
        Option::None
    }
}

/// The square index a coordinate string decodes to: the first character
/// must be a file letter, the second a rank digit; any trailing
/// characters are ignored.
pub open spec fn spec_square_from_algebraic(s: Seq<char>) -> Option<u8> {
    if s.len() < 2 {
        Option::None
    } else {
        match (spec_row_base(s[0]), spec_col_num(s[1])) {
            (Option::Some(row), Option::Some(col)) => Option::Some(
                (row - 7 * (col - 1)) as u8,
            ),
            _ => Option::None,
        }
    }
}

/// Decodes a file letter, case-insensitively.
pub fn try_get_row(row: char) -> (r: Option<u8>)
    ensures
        r == spec_row_base(row),
{
    match row {
        'a' | 'A' => Option::Some(43),
        'b' | 'B' => Option::Some(44),
        'c' | 'C' => Option::Some(45),
        'd' | 'D' => Option::Some(46),
        'e' | 'E' => Option::Some(47),
        _ => Option::None,
    }
}

/// Decodes a rank digit 1 through 5.
pub fn try_get_col(col: char) -> (r: Option<u8>)
    ensures
        r == spec_col_num(col),
{
    match col {
        '1' => Option::Some(1),
        '2' => Option::Some(2),
        '3' => Option::Some(3),
        '4' => Option::Some(4),
        '5' => Option::Some(5),
        _ => Option::None,
    }
}

/// Decodes a whole coordinate string such as "a1" or "E5" into a flat
/// square index. Every successfully decoded index lies on the playable
/// area. Malformed input yields no index and is left to the boundary to
/// re-prompt; it is never fatal.
pub fn try_get_u8_from_algebraic(s: String) -> (r: Option<u8>)
    ensures
        r == spec_square_from_algebraic(s@),
        (r matches Option::Some(v) ==> sq_valid(v as int)),
{
    let slice = s.as_str();
    if slice.unicode_len() < 2 {
        return Option::None;
    }
    let row_char = slice.get_char(0);
    let col_char = slice.get_char(1);
    let row_val = match try_get_row(row_char) {
        Option::Some(v) => v,
        Option::None => { return Option::None; },
    };
    let col_val = match try_get_col(col_char) {
        Option::Some(v) => v,
        Option::None => { return Option::None; },
    };
    Option::Some(row_val - (7 * (col_val - 1)))
}

} // verus!
