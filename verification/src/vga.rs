//! A text console on a memory-mapped grid of character cells.

use vstd::prelude::*;
use vstd::string::*;
use volatile::Volatile;
use crate::vga::screen::{blank_row, Screen};

pub mod screen;

verus! {

/// The physical address at which the hardware maps the display grid.
pub const VGA_BUFFER_ADDRESS: usize = 0xb8000;

/// Rows of the display.
pub const BUFFER_HEIGHT: usize = 25;

/// Cells in a row of the display.
pub const BUFFER_WIDTH: usize = 80;

/// The byte that ends a line.
pub const NEWLINE: u8 = 10;

/// The display grid as the hardware lays it out: row after row of 16-bit
/// cells.
pub type VgaBuffer = [[Volatile<u16>; BUFFER_WIDTH]; BUFFER_HEIGHT];

/// The sixteen colours of the hardware palette, in palette order.
#[derive(Copy, Clone, Debug, PartialEq, Eq, Structural)]
pub enum Color {
    Black,
    Blue,
    Green,
    Cyan,
    Red,
    Magenta,
    Brown,
    LightGray,
    DarkGray,
    LightBlue,
    LightGreen,
    LightCyan,
    LightRed,
    Pink,
    Yellow,
    White,
}

impl Color {
    /// The place of the colour in the palette, 0 for black up to 15 for white.
    pub open spec fn index(self) -> u8 {
        match self {
            Color::Black => 0,
            Color::Blue => 1,
            Color::Green => 2,
            Color::Cyan => 3,
            Color::Red => 4,
            Color::Magenta => 5,
            Color::Brown => 6,
            Color::LightGray => 7,
            Color::DarkGray => 8,
            Color::LightBlue => 9,
            Color::LightGreen => 10,
            Color::LightCyan => 11,
            Color::LightRed => 12,
            Color::Pink => 13,
            Color::Yellow => 14,
            Color::White => 15,
        }
    }

    /// The palette index as a byte.
    pub fn to_u8(self) -> (n: u8)
        ensures
            n == self.index(),
            n < 16,
    {
        match self {
            Color::Black => 0,
            Color::Blue => 1,
            Color::Green => 2,
            Color::Cyan => 3,
            Color::Red => 4,
            Color::Magenta => 5,
            Color::Brown => 6,
            Color::LightGray => 7,
            Color::DarkGray => 8,
            Color::LightBlue => 9,
            Color::LightGreen => 10,
            Color::LightCyan => 11,
            Color::LightRed => 12,
            Color::Pink => 13,
            Color::Yellow => 14,
            Color::White => 15,
        }
    }
}

/// A colour attribute byte: foreground in the low four bits, background in
/// the high four.
#[derive(Copy, Clone, Debug, PartialEq, Eq, Structural)]
pub struct ColorCode(pub u8);

impl ColorCode {
    /// The attribute byte of a foreground on a background.
    pub open spec fn of(foreground: Color, background: Color) -> ColorCode {
        ColorCode((background.index() * 16 + foreground.index()) as u8)
    }

    /// The palette index in the low four bits.
    pub open spec fn foreground(self) -> u8 {
        self.0 % 16
    }

    /// The palette index in the high four bits.
    pub open spec fn background(self) -> u8 {
        self.0 / 16
    }

    /// Packs a foreground and a background into an attribute byte: the
    /// background shifted into the high four bits, the foreground below it.
    pub fn new(foreground: Color, background: Color) -> (code: ColorCode)
        ensures
            code == ColorCode::of(foreground, background),
            code.0 == background.index() << 4 | foreground.index(),
            code.foreground() == foreground.index(),
            code.background() == background.index(),
    {
        let fg: u8 = foreground.to_u8();
        let bg: u8 = background.to_u8();
        let code: u8 = bg << 4 | fg;
        assert(code == bg * 16 + fg) by (bit_vector)
            requires
                code == bg << 4 | fg,
                bg < 16,
                fg < 16,
        ;
        ColorCode(code)
    }
}

/// One cell of the display: a character and the colours it is shown in. The
/// hardware holds a cell as two bytes, the character first and the attribute
/// after it, which this little-endian machine reads as one 16-bit value.
#[derive(Copy, Clone, Debug, PartialEq, Eq, Structural)]
pub struct ScreenChar {
    pub ascii_character: u8,
    pub color_code: ColorCode,
}

impl ScreenChar {
    /// A space in the given colour.
    pub open spec fn blank(color_code: ColorCode) -> ScreenChar {
        ScreenChar { ascii_character: 0x20, color_code }
    }

    /// The cell as the hardware holds it: the character in the low byte, the
    /// attribute in the high byte.
    pub open spec fn bits(self) -> u16 {
        (self.color_code.0 * 256 + self.ascii_character) as u16
    }

    /// The cell that the hardware shows for a 16-bit value.
    pub open spec fn of_bits(bits: u16) -> ScreenChar {
        ScreenChar { ascii_character: (bits % 256) as u8, color_code: ColorCode((bits / 256) as u8) }
    }

    /// The 16-bit value that the hardware holds for this cell.
    pub fn to_bits(self) -> (bits: u16)
        ensures
            bits == self.bits(),
            bits == (self.color_code.0 as u16) << 8 | self.ascii_character as u16,
    {
        let low: u16 = self.ascii_character as u16;
        let high: u16 = self.color_code.0 as u16;
        let bits: u16 = high << 8 | low;
        assert(bits == high * 256 + low) by (bit_vector)
            requires
                bits == high << 8 | low,
                high < 256,
                low < 256,
        ;
        bits
    }

    /// The cell that a 16-bit value of the hardware stands for.
    pub fn from_bits(bits: u16) -> (ch: ScreenChar)
        ensures
            ch == ScreenChar::of_bits(bits),
    {
        let low: u16 = bits & 0xff;
        let high: u16 = bits >> 8;
        assert(low == bits % 256 && high == bits / 256) by (bit_vector)
            requires
                low == bits & 0xff,
                high == bits >> 8,
        ;
        ScreenChar { ascii_character: low as u8, color_code: ColorCode(high as u8) }
    }
}

/// A cell survives the trip through its 16-bit form, and a 16-bit value the
/// trip through the cell it stands for.
pub proof fn lemma_bits_round_trip(ch: ScreenChar, bits: u16)
    ensures
        ScreenChar::of_bits(ch.bits()) == ch,
        ScreenChar::of_bits(bits).bits() == bits,
{
}

/// `volatile::Volatile`: a memory cell whose loads and stores the compiler
/// neither drops nor reorders. Nothing is known of what is inside one but
/// through the functions below.
#[verifier::external_type_specification]
#[verifier::external_body]
#[verifier::reject_recursive_types(T)]
pub struct ExVolatile<T: Copy>(Volatile<T>);

/// `core::fmt::Error`: the error of the formatting traits. It carries nothing.
#[verifier::external_type_specification]
#[verifier::external_body]
pub struct ExFmtError(core::fmt::Error);

/// The 16-bit value that a display cell holds: what was last stored in it.
/// Display memory keeps what is stored, and a console is the only owner of
/// its grid, so nothing else changes a cell.
pub uninterp spec fn held(cell: Volatile<u16>) -> u16;

/// `volatile::Volatile::read`: a volatile load of the cell, which hands back
/// the value that the cell holds and never panics.
#[verifier::external_body]
fn cell_read(cell: &Volatile<u16>) -> (bits: u16)
    ensures
        bits == held(*cell),
    no_unwind
{
    cell.read()
}

/// `volatile::Volatile::write`: a volatile store to the cell, after which the
/// cell holds the value given; it never panics.
#[verifier::external_body]
fn cell_write(cell: &mut Volatile<u16>, bits: u16)
    ensures
        held(*final(cell)) == bits,
    no_unwind
{
    cell.write(bits)
}

/// The cells that a display grid shows.
pub open spec fn shown(buffer: VgaBuffer) -> Seq<Seq<ScreenChar>> {
    Seq::new(
        BUFFER_HEIGHT as nat,
        |r: int| Seq::new(BUFFER_WIDTH as nat, |c: int| ScreenChar::of_bits(held(buffer@[r]@[c]))),
    )
}

/// The console: the display grid, a cursor and the current colour.
pub struct Writer {
    color_code: ColorCode,
    buffer: &'static mut VgaBuffer,
    col: usize,
    row: usize,
}

impl View for Writer {
    type V = Screen;

    closed spec fn view(&self) -> Screen {
        Screen {
            cells: shown(*self.buffer),
            row: self.row as int,
            col: self.col as int,
            color_code: self.color_code,
        }
    }
}

impl Writer {
    #[verifier::type_invariant]
    spec fn cursor_on_screen(&self) -> bool {
        self.row < BUFFER_HEIGHT && self.col < BUFFER_WIDTH
    }

    /// A console over the given grid, with the cursor in the top left corner
    /// and white on black as its colour. The grid keeps what it shows.
    pub fn new(buffer: &'static mut VgaBuffer) -> (writer: Writer)
        ensures
            writer@.wf(),
            writer@.cells == shown(*old(buffer)),
            writer@.row == 0,
            writer@.col == 0,
            writer@.color_code == ColorCode::of(Color::White, Color::Black),
    {
        Writer { color_code: ColorCode::new(Color::White, Color::Black), buffer, col: 0, row: 0 }
    }

    /// The cell shown at a row and column, or `None` outside the grid.
    pub fn cell(&self, row: usize, col: usize) -> (cell: Option<ScreenChar>)
        ensures
            cell == (if row < BUFFER_HEIGHT && col < BUFFER_WIDTH {
                Some(self@.cells[row as int][col as int])
            } else {
                None
            }),
            self@.wf(),
    {
        proof {
            use_type_invariant(self);
        }
        if row < BUFFER_HEIGHT && col < BUFFER_WIDTH {
            Some(ScreenChar::from_bits(self.load(row, col)))
        } else {
            None
        }
    }

    /// The colour in which bytes are written.
    pub fn color_code(&self) -> (code: ColorCode)
        ensures
            code == self@.color_code,
            self@.wf(),
    {
        proof {
            use_type_invariant(self);
        }
        self.color_code
    }

    /// The row of the cursor.
    pub fn row(&self) -> (row: usize)
        ensures
            row == self@.row,
            self@.wf(),
    {
        proof {
            use_type_invariant(self);
        }
        self.row
    }

    /// The column of the cursor.
    pub fn col(&self) -> (col: usize)
        ensures
            col == self@.col,
            self@.wf(),
    {
        proof {
            use_type_invariant(self);
        }
        self.col
    }

    /// The 16-bit value in one cell of the grid.
    fn load(&self, row: usize, col: usize) -> (bits: u16)
        requires
            row < BUFFER_HEIGHT,
            col < BUFFER_WIDTH,
        ensures
            ScreenChar::of_bits(bits) == self@.cells[row as int][col as int],
    {
        cell_read(&self.buffer[row][col])
    }

    /// Stores a 16-bit value in one cell of the grid; every other cell, the
    /// cursor and the colour stay.
    fn store(&mut self, row: usize, col: usize, bits: u16)
        requires
            row < BUFFER_HEIGHT,
            col < BUFFER_WIDTH,
        ensures
            final(self)@ == (Screen {
                cells: old(self)@.cells.update(
                    row as int,
                    old(self)@.cells[row as int].update(col as int, ScreenChar::of_bits(bits)),
                ),
                ..old(self)@
            }),
            final(self)@.wf(),
    {
        proof {
            use_type_invariant(&*self);
        }
        cell_write(&mut self.buffer[row][col], bits);
        assert(self@.cells =~~= old(self)@.cells.update(
            row as int,
            old(self)@.cells[row as int].update(col as int, ScreenChar::of_bits(bits)),
        ));
    }

    /// Writes one byte at the cursor. A line feed starts a new line; any
    /// other byte is stored in the current colour under the cursor, which
    /// moves on by one column and, past the end of the row, to a new line.
    pub fn write_byte(&mut self, ascii_char: u8)
        ensures
            final(self)@ == old(self)@.write_byte(ascii_char),
            final(self)@.wf(),
    {
        proof {
            use_type_invariant(&*self);
        }
        if ascii_char == NEWLINE {
            self.newline();
        } else {
            let ch = ScreenChar { ascii_character: ascii_char, color_code: self.color_code };
            self.store(self.row, self.col, ch.to_bits());
            if self.col + 1 < BUFFER_WIDTH {
                self.col += 1;
            } else {
                self.newline();
            }
        }
    }

    /// Moves the cursor to the start of the next row. On the last row the
    /// display scrolls instead: each row takes over the cells of the row
    /// below it, colours included, and the last row becomes blank in the
    /// current colour.
    pub fn newline(&mut self)
        ensures
            final(self)@ == old(self)@.newline(),
            final(self)@.wf(),
    {
        proof {
            use_type_invariant(&*self);
        }
        self.col = 0;
        if self.row + 1 < BUFFER_HEIGHT {
            self.row += 1;
        } else {
            for row in 1..BUFFER_HEIGHT
                invariant
                    self@.wf(),
                    old(self)@.wf(),
                    self@.row == old(self)@.row,
                    self@.row + 1 == BUFFER_HEIGHT,
                    self@.col == 0,
                    self@.color_code == old(self)@.color_code,
                    forall|r: int|
                        0 <= r < row - 1 ==> #[trigger] self@.cells[r] == old(self)@.cells[r + 1],
                    forall|r: int|
                        row - 1 <= r < BUFFER_HEIGHT ==> #[trigger] self@.cells[r] == old(
                            self,
                        )@.cells[r],
            {
                for col in 0..BUFFER_WIDTH
                    invariant
                        1 <= row < BUFFER_HEIGHT,
                        self@.wf(),
                        old(self)@.wf(),
                        self@.row == old(self)@.row,
                        self@.row + 1 == BUFFER_HEIGHT,
                        self@.col == 0,
                        self@.color_code == old(self)@.color_code,
                        forall|r: int|
                            0 <= r < row - 1 ==> #[trigger] self@.cells[r] == old(self)@.cells[r
                                + 1],
                        forall|c: int|
                            0 <= c < col ==> #[trigger] self@.cells[row - 1][c] == old(
                                self,
                            )@.cells[row as int][c],
                        forall|c: int|
                            col <= c < BUFFER_WIDTH ==> #[trigger] self@.cells[row - 1][c] == old(
                                self,
                            )@.cells[row - 1][c],
                        forall|r: int|
                            row <= r < BUFFER_HEIGHT ==> #[trigger] self@.cells[r] == old(
                                self,
                            )@.cells[r],
                {
                    let bits = self.load(row, col);
                    self.store(row - 1, col, bits);
                }
            }
            let space = ScreenChar { ascii_character: 0x20, color_code: self.color_code };
            for col in 0..BUFFER_WIDTH
                invariant
                    self@.wf(),
                    old(self)@.wf(),
                    self@.row == old(self)@.row,
                    self@.row + 1 == BUFFER_HEIGHT,
                    self@.col == 0,
                    self@.color_code == old(self)@.color_code,
                    space == ScreenChar::blank(self@.color_code),
                    forall|r: int|
                        0 <= r < BUFFER_HEIGHT - 1 ==> #[trigger] self@.cells[r] == old(
                            self,
                        )@.cells[r + 1],
                    forall|c: int|
                        0 <= c < col ==> #[trigger] self@.cells[BUFFER_HEIGHT - 1][c] == space,
            {
                self.store(BUFFER_HEIGHT - 1, col, space.to_bits());
            }
            assert(self@.cells[BUFFER_HEIGHT - 1] =~= blank_row(self@.color_code));
            assert(self@.cells =~= old(self)@.newline().cells);
        }
    }

    /// Writes the bytes in order, each as `write_byte` does.
    pub fn write_bytes(&mut self, bytes: &[u8])
        ensures
            final(self)@ == old(self)@.write_bytes(bytes@),
            final(self)@.wf(),
    {
        proof {
            use_type_invariant(&*self);
        }
        let n: usize = bytes.len();
        for i in 0..n
            invariant
                n == bytes@.len(),
                self@ == old(self)@.write_bytes(bytes@.take(i as int)),
                self@.wf(),
        {
            assert(bytes@.take(i + 1).drop_last() =~= bytes@.take(i as int));
            self.write_byte(bytes[i]);
        }
        assert(bytes@.take(n as int) =~= bytes@);
    }
}

impl core::fmt::Write for Writer {
    /// Writes the bytes of the string's encoding in order. It never fails.
    fn write_str(&mut self, s: &str) -> (r: Result<(), core::fmt::Error>)
        ensures
            r is Ok,
            final(self)@ == old(self)@.write_bytes(s.spec_bytes()),
    {
        self.write_bytes(s.as_bytes());
        Ok(())
    }
}

/// Writes a rendered text to the console, byte by byte. The exclusive borrow
/// is the caller's hold on the console: where the console is shared, the
/// caller has taken its lock, and no other output can fall between the bytes.
pub fn print(writer: &mut Writer, text: &str)
    ensures
        final(writer)@ == old(writer)@.write_bytes(text.spec_bytes()),
        final(writer)@.wf(),
{
    writer.write_bytes(text.as_bytes());
}

/// The decimal digits of a number as ASCII bytes, most significant first.
pub open spec fn decimal(value: nat) -> Seq<u8>
    decreases value,
{
    if value < 10 {
        seq![(48 + value) as u8]
    } else {
        decimal(value / 10).push((48 + value % 10) as u8)
    }
}

/// Writes a number to the console in decimal.
pub fn print_decimal(writer: &mut Writer, value: u64)
    ensures
        final(writer)@ == old(writer)@.write_bytes(decimal(value as nat)),
        final(writer)@.wf(),
    decreases value,
{
    if value >= 10 {
        print_decimal(writer, value / 10);
    }
    let digit: u8 = 48 + (value % 10) as u8;
    proof {
        let digits = decimal(value as nat);
        let before = old(writer)@;
        if value >= 10 {
            assert(digits.drop_last() =~= decimal(value as nat / 10));
        } else {
            assert(before.write_bytes(Seq::<u8>::empty()) == before);
        }
        assert(before.write_bytes(digits) == before.write_bytes(digits.drop_last()).write_byte(
            digit,
        ));
    }
    writer.write_byte(digit);
}

} // verus!
