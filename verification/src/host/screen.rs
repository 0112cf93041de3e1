//! `os::screen`: the text-mode screen as a grid of cells.
//!
//! A cell holds an ASCII byte and a colour byte. Rows and columns come from
//! the guest as `i32`s; a negative one makes the call do nothing (or return
//! its error code). Bytes and colours are the low eight bits of the `i32`
//! the guest passes.

use vstd::prelude::*;
use crate::guest::{memory_fits, read_range, utf8_text};
use crate::host::HostModule;

verus! {

/// What `read_at` returns for a cell that does not exist.
pub const NO_CELL: i32 = -1;

/// What `write_str_at` returns for a negative position or a bad string.
pub const BAD_STRING: i32 = -2;

/// The `os::screen` import module.
pub struct ScreenModule;

impl HostModule for ScreenModule {
    fn namespace(&self) -> (r: &'static str)
        ensures
            r@ == "os::screen"@,
    {
        "os::screen"
    }
}

/// A screen position.
#[derive(Clone, Copy, Debug, PartialEq, Eq, Structural)]
pub struct Position {
    pub row: usize,
    pub col: usize,
}

/// One byte to put at a position, in a colour.
#[derive(Clone, Copy, Debug, PartialEq, Eq, Structural)]
pub struct CellWrite {
    pub at: Position,
    pub byte: u8,
    pub color: u8,
}

/// A string to put at a position, in a colour.
pub struct StrWrite {
    pub at: Position,
    pub text: String,
    pub color: u8,
}

/// What a screen cell holds.
#[derive(Clone, Copy, Debug, PartialEq, Eq, Structural)]
pub struct ScreenCell {
    pub ascii: u8,
    pub color: u8,
}

/// The code `read_at` returns for a cell: its colour in bits 8..16 and its
/// byte in bits 0..8.
pub open spec fn cell_code(cell: ScreenCell) -> int {
    cell.color as int * 256 + cell.ascii as int
}

/// The position a guest names, unless a coordinate is negative.
pub open spec fn position_of(row: i32, col: i32) -> Option<Position> {
    if row < 0 || col < 0 {
        None
    } else {
        Some(Position { row: row as usize, col: col as usize })
    }
}

impl ScreenModule {
    /// The position `(row, col)` names, or `None` when either is negative.
    /// Used by `move_cursor` and `read_at`.
    pub fn position(row: i32, col: i32) -> (r: Option<Position>)
        ensures
            r == position_of(row, col),
    {
        if row < 0 || col < 0 {
            None
        } else {
            Some(Position { row: row as usize, col: col as usize })
        }
    }

    /// `os::screen::write_at`: what to write, or `None` (the call does
    /// nothing) when the position is negative.
    pub fn write_at(row: i32, col: i32, byte: i32, color: i32) -> (r: Option<CellWrite>)
        ensures
            match position_of(row, col) {
                Some(at) => r == Some(CellWrite {
                    at,
                    byte: #[verifier::truncate] (byte as u8),
                    color: #[verifier::truncate] (color as u8),
                }),
                None => r is None,
            },
    {
        match Self::position(row, col) {
            Some(at) => Some(CellWrite {
                at,
                byte: #[verifier::truncate] (byte as u8),
                color: #[verifier::truncate] (color as u8),
            }),
            None => None,
        }
    }

    /// `os::screen::write_str_at`: what to write, or -2 when the position
    /// is negative or the string is not valid UTF-8 in guest memory.
    pub fn write_str_at(
        memory: Option<&[u8]>,
        row: i32,
        col: i32,
        ptr: i32,
        len: i32,
        color: i32,
    ) -> (r: Result<StrWrite, i32>)
        requires
            memory matches Some(m) ==> memory_fits(m@),
        ensures
            match position_of(row, col) {
                Some(at) => match memory {
                    Some(m) => match read_range(m@, ptr, len) {
                        Some(bytes) => match utf8_text(bytes) {
                            Some(text) => r matches Ok(w) && w.at == at && w.text@ == text
                                && w.color == #[verifier::truncate] (color as u8),
                            None => r matches Err(code) && code == BAD_STRING,
                        },
                        None => r matches Err(code) && code == BAD_STRING,
                    },
                    None => r matches Err(code) && code == BAD_STRING,
                },
                None => r matches Err(code) && code == BAD_STRING,
            },
    {
        let at = match Self::position(row, col) {
            Some(at) => at,
            None => return Err(BAD_STRING),
        };
        match crate::guest::read_guest_string(memory, ptr, len) {
            Some(text) => Ok(StrWrite { at, text, color: #[verifier::truncate] (color as u8) }),
            None => Err(BAD_STRING),
        }
    }

    /// `os::screen::write_str_at` after the write: the column after the
    /// last character written, as an `i32`.
    pub fn write_str_reply(end_col: usize) -> (r: i32)
        ensures
            r == #[verifier::truncate] (end_col as i32),
    {
        #[verifier::truncate] (end_col as i32)
    }

    /// `os::screen::clear_row`: the row to clear and the colour to clear it
    /// with, or `None` (the call does nothing) when the row is negative.
    pub fn clear_row(row: i32, color: i32) -> (r: Option<(usize, u8)>)
        ensures
            row < 0 ==> r is None,
            row >= 0 ==> r == Some((row as usize, #[verifier::truncate] (color as u8))),
    {
        if row < 0 {
            None
        } else {
            Some((row as usize, #[verifier::truncate] (color as u8)))
        }
    }

    /// `os::screen::read_at`: the code of the cell that was read (see
    /// [`cell_code`]), or -1 when there is no such cell.
    pub fn read_at_reply(cell: Option<ScreenCell>) -> (r: i32)
        ensures
            cell is None ==> r == NO_CELL,
            cell matches Some(c) ==> r == cell_code(c),
    {
        match cell {
            Some(c) => {
                let color = c.color as i32;
                let ascii = c.ascii as i32;
                proof {
                    lemma_shift_or(c.color, c.ascii);
                }
                (color << 8) | ascii
            },
            None => NO_CELL,
        }
    }
}

/// Shifting the colour up by eight bits and or-ing in the byte is
/// `color * 256 + ascii`.
proof fn lemma_shift_or(color: u8, ascii: u8)
    ensures
        ((color as i32) << 8) | (ascii as i32) == color as int * 256 + ascii as int,
{
    let c = color as i32;
    let a = ascii as i32;
    assert(0 <= c < 256 && 0 <= a < 256);
    assert(((c << 8) | a) == c * 256 + a) by (bit_vector)
        requires
            0 <= c < 256,
            0 <= a < 256,
    ;
}

/// A cell's code gives the cell back: it is never -1, its low byte is the
/// character and the byte above it the colour.
pub proof fn lemma_cell_code_decodes(cell: ScreenCell)
    ensures
        cell_code(cell) >= 0,
        cell_code(cell) != NO_CELL,
        cell_code(cell) % 256 == cell.ascii,
        cell_code(cell) / 256 == cell.color,
{
}


/// Every position with non-negative row and column is accepted as itself,
/// and only a negative row or column is refused.
pub proof fn lemma_position_accepts(row: i32, col: i32)
    ensures
        row >= 0 && col >= 0 ==> (position_of(row, col) matches Some(p)
            && p.row as int == row as int && p.col as int == col as int),
        row < 0 || col < 0 ==> position_of(row, col) is None,
{
}

} // verus!
