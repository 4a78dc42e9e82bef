//! The mathematical model of the text console: a grid of character cells, a
//! cursor and the colour in which new cells are written.

use vstd::prelude::*;
use crate::vga::{ColorCode, ScreenChar, BUFFER_HEIGHT, BUFFER_WIDTH, NEWLINE};

verus! {

/// What a console looks like at one instant.
pub struct Screen {
    /// The cells, row by row, from the top of the display.
    pub cells: Seq<Seq<ScreenChar>>,
    /// The row of the cursor.
    pub row: int,
    /// The column of the cursor.
    pub col: int,
    /// The colour given to every cell written from now on.
    pub color_code: ColorCode,
}

/// A full row of blank cells in the given colour.
pub open spec fn blank_row(color_code: ColorCode) -> Seq<ScreenChar> {
    Seq::new(BUFFER_WIDTH as nat, |c: int| ScreenChar::blank(color_code))
}

impl Screen {
    /// The grid has `BUFFER_HEIGHT` rows of `BUFFER_WIDTH` cells and the cursor
    /// lies inside it.
    pub open spec fn wf(self) -> bool {
        &&& self.cells.len() == BUFFER_HEIGHT
        &&& forall|r: int| 0 <= r < BUFFER_HEIGHT ==> (#[trigger] self.cells[r]).len() == BUFFER_WIDTH
        &&& 0 <= self.row < BUFFER_HEIGHT
        &&& 0 <= self.col < BUFFER_WIDTH
    }

    /// Every cell is blank in the current colour.
    pub open spec fn is_blank(self) -> bool {
        forall|r: int, c: int|
            0 <= r < BUFFER_HEIGHT && 0 <= c < BUFFER_WIDTH ==> #[trigger] self.cells[r][c]
                == ScreenChar::blank(self.color_code)
    }

    /// The cell that a byte becomes when it is written now.
    pub open spec fn glyph(self, byte: u8) -> ScreenChar {
        ScreenChar { ascii_character: byte, color_code: self.color_code }
    }

    /// The screen with `byte` stored under the cursor; the cursor stays.
    pub open spec fn put(self, byte: u8) -> Screen {
        Screen {
            cells: self.cells.update(self.row, self.cells[self.row].update(self.col, self.glyph(byte))),
            ..self
        }
    }

    /// The cursor moves to the start of the next row. On the last row the
    /// rows move up by one instead, the top row is lost and the last row
    /// becomes blank.
    pub open spec fn newline(self) -> Screen {
        if self.row + 1 < BUFFER_HEIGHT {
            Screen { row: self.row + 1, col: 0, ..self }
        } else {
            Screen {
                cells: self.cells.subrange(1, BUFFER_HEIGHT as int).push(blank_row(self.color_code)),
                col: 0,
                ..self
            }
        }
    }

    /// One byte of output: a line feed advances the row, any other byte is
    /// stored under the cursor, which then advances and wraps at the end of
    /// the row.
    pub open spec fn write_byte(self, byte: u8) -> Screen {
        if byte == NEWLINE {
            self.newline()
        } else if self.col + 1 < BUFFER_WIDTH {
            Screen { col: self.col + 1, ..self.put(byte) }
        } else {
            self.put(byte).newline()
        }
    }

    /// The bytes written one after the other, first to last.
    pub open spec fn write_bytes(self, bytes: Seq<u8>) -> Screen
        decreases bytes.len(),
    {
        if bytes.len() == 0 {
            self
        } else {
            self.write_bytes(bytes.drop_last()).write_byte(bytes.last())
        }
    }
}


/// Writing keeps the screen well formed: the grid keeps its size and the
/// cursor stays inside it.
pub proof fn lemma_write_byte_wf(s: Screen, byte: u8)
    requires
        s.wf(),
    ensures
        s.newline().wf(),
        s.put(byte).wf(),
        s.write_byte(byte).wf(),
        s.write_byte(byte).color_code == s.color_code,
{
}

/// Writing any bytes keeps the screen well formed and the colour unchanged.
pub proof fn lemma_write_bytes_wf(s: Screen, bytes: Seq<u8>)
    requires
        s.wf(),
    ensures
        s.write_bytes(bytes).wf(),
        s.write_bytes(bytes).color_code == s.color_code,
    decreases bytes.len(),
{
    if bytes.len() > 0 {
        lemma_write_bytes_wf(s, bytes.drop_last());
        lemma_write_byte_wf(s.write_bytes(bytes.drop_last()), bytes.last());
    }
}

/// Output is sequential: writing two runs of bytes one after the other is
/// writing their concatenation.
pub proof fn lemma_write_bytes_concat(s: Screen, first: Seq<u8>, second: Seq<u8>)
    ensures
        s.write_bytes(first + second) == s.write_bytes(first).write_bytes(second),
    decreases second.len(),
{
    if second.len() > 0 {
        lemma_write_bytes_concat(s, first, second.drop_last());
        assert((first + second).drop_last() =~= first + second.drop_last());
    }
}

/// Writing one byte is writing the run that holds just that byte.
pub proof fn lemma_write_bytes_one(s: Screen, byte: u8)
    ensures
        s.write_bytes(seq![byte]) == s.write_byte(byte),
{
    assert(s.write_bytes(seq![byte].drop_last()) == s);
}

/// A byte other than a line feed, written on a blank screen with the cursor
/// in the top left corner, shows in that corner in the current colour; every
/// other cell stays blank, and the cursor stands one column further.
pub proof fn lemma_first_byte_on_blank_screen(s: Screen, byte: u8)
    requires
        s.wf(),
        s.is_blank(),
        s.row == 0,
        s.col == 0,
        byte != NEWLINE,
    ensures
        s.write_byte(byte).cells[0][0] == (ScreenChar {
            ascii_character: byte,
            color_code: s.color_code,
        }),
        forall|r: int, c: int|
            0 <= r < BUFFER_HEIGHT && 0 <= c < BUFFER_WIDTH && !(r == 0 && c == 0)
                ==> #[trigger] s.write_byte(byte).cells[r][c] == ScreenChar::blank(s.color_code),
        s.write_byte(byte).row == 0,
        s.write_byte(byte).col == 1,
{
}

/// Bytes without a line feed that fit in the rest of the row, short of its
/// last cell, are stored from the cursor on, in order; the cursor moves past
/// them and nothing else changes.
pub proof fn lemma_write_within_row(s: Screen, bytes: Seq<u8>)
    requires
        s.wf(),
        s.col + bytes.len() < BUFFER_WIDTH,
        forall|i: int| 0 <= i < bytes.len() ==> bytes[i] != NEWLINE,
    ensures
        s.write_bytes(bytes).wf(),
        s.write_bytes(bytes).row == s.row,
        s.write_bytes(bytes).col == s.col + bytes.len(),
        s.write_bytes(bytes).color_code == s.color_code,
        forall|r: int|
            0 <= r < BUFFER_HEIGHT && r != s.row ==> #[trigger] s.write_bytes(bytes).cells[r]
                == s.cells[r],
        forall|c: int|
            0 <= c < BUFFER_WIDTH ==> #[trigger] s.write_bytes(bytes).cells[s.row][c] == (if s.col
                <= c < s.col + bytes.len() {
                s.glyph(bytes[c - s.col])
            } else {
                s.cells[s.row][c]
            }),
    decreases bytes.len(),
{
    if bytes.len() > 0 {
        let front = bytes.drop_last();
        lemma_write_within_row(s, front);
        let mid = s.write_bytes(front);
        lemma_write_byte_wf(mid, bytes.last());
    }
}

/// A full row of bytes without a line feed, written from the start of a row
/// above the last one, fills exactly that row, in order and in the current
/// colour, and leaves the cursor at the start of the next row.
pub proof fn lemma_full_row(s: Screen, bytes: Seq<u8>)
    requires
        s.wf(),
        s.row + 1 < BUFFER_HEIGHT,
        s.col == 0,
        bytes.len() == BUFFER_WIDTH,
        forall|i: int| 0 <= i < bytes.len() ==> bytes[i] != NEWLINE,
    ensures
        s.write_bytes(bytes).row == s.row + 1,
        s.write_bytes(bytes).col == 0,
        forall|c: int|
            0 <= c < BUFFER_WIDTH ==> #[trigger] s.write_bytes(bytes).cells[s.row][c] == s.glyph(
                bytes[c],
            ),
        forall|r: int|
            0 <= r < BUFFER_HEIGHT && r != s.row ==> #[trigger] s.write_bytes(bytes).cells[r]
                == s.cells[r],
{
    let front = bytes.drop_last();
    lemma_write_within_row(s, front);
}

/// A full row of bytes without a line feed, written from the start of the
/// last row, scrolls the display: the bytes end up in the row above the last
/// one, the last row is blank, and the cursor stands at its start.
pub proof fn lemma_full_last_row(s: Screen, bytes: Seq<u8>)
    requires
        s.wf(),
        s.row + 1 == BUFFER_HEIGHT,
        s.col == 0,
        bytes.len() == BUFFER_WIDTH,
        forall|i: int| 0 <= i < bytes.len() ==> bytes[i] != NEWLINE,
    ensures
        s.write_bytes(bytes).row == s.row,
        s.write_bytes(bytes).col == 0,
        forall|c: int|
            0 <= c < BUFFER_WIDTH ==> #[trigger] s.write_bytes(bytes).cells[s.row - 1][c]
                == s.glyph(bytes[c]),
        forall|r: int|
            0 <= r < BUFFER_HEIGHT - 2 ==> #[trigger] s.write_bytes(bytes).cells[r] == s.cells[r
                + 1],
        s.write_bytes(bytes).cells[s.row] == blank_row(s.color_code),
{
    let front = bytes.drop_last();
    lemma_write_within_row(s, front);
}

/// A line feed on the last row scrolls the display: every row but the last
/// shows what the row below it showed, the last row is blank in the current
/// colour, and the cursor stands at the start of the last row.
pub proof fn lemma_newline_on_last_row_scrolls(s: Screen)
    requires
        s.wf(),
        s.row == BUFFER_HEIGHT - 1,
    ensures
        s.write_byte(NEWLINE) == s.newline(),
        forall|r: int|
            0 <= r <= BUFFER_HEIGHT - 2 ==> #[trigger] s.newline().cells[r] == s.cells[r + 1],
        forall|c: int|
            0 <= c < BUFFER_WIDTH ==> #[trigger] s.newline().cells[BUFFER_HEIGHT - 1][c]
                == ScreenChar::blank(s.color_code),
        s.newline().row == BUFFER_HEIGHT - 1,
        s.newline().col == 0,
        s.newline().color_code == s.color_code,
{
}

/// A line feed above the last row moves the cursor to the start of the next
/// row and changes no cell.
pub proof fn lemma_newline_above_last_row(s: Screen)
    requires
        s.wf(),
        s.row + 1 < BUFFER_HEIGHT,
    ensures
        s.write_byte(NEWLINE) == (Screen { row: s.row + 1, col: 0, ..s }),
{
}

/// The row in which a byte written at the cursor of `s` is found afterwards:
/// the cursor's row, or the row above it where the write scrolled the
/// display.
pub open spec fn row_after_write(s: Screen) -> int {
    if s.col + 1 == BUFFER_WIDTH && s.row + 1 == BUFFER_HEIGHT {
        s.row - 1
    } else {
        s.row
    }
}

/// A byte other than a line feed reads back as written: the cell it went to
/// holds that byte and the colour that was current.
pub proof fn lemma_written_cell_reads_back(s: Screen, byte: u8)
    requires
        s.wf(),
        byte != NEWLINE,
    ensures
        s.write_byte(byte).cells[row_after_write(s)][s.col].ascii_character == byte,
        s.write_byte(byte).cells[row_after_write(s)][s.col].color_code == s.color_code,
{
}

} // verus!
