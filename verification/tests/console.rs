use array_init::array_init;
use core::fmt::Write;
use test_os::vga::{
    print, print_decimal, Color, ColorCode, ScreenChar, VgaBuffer, Writer, BUFFER_HEIGHT,
    BUFFER_WIDTH, NEWLINE, VGA_BUFFER_ADDRESS,
};
use volatile::Volatile;

fn empty_char() -> ScreenChar {
    let color_code = ColorCode::new(Color::White, Color::Black);
    ScreenChar { ascii_character: b' ', color_code }
}

fn make_writer() -> Writer {
    let space = empty_char();
    let buffer: VgaBuffer = array_init(|_| array_init(|_| Volatile::new(space.to_bits())));
    let buffer: &'static mut VgaBuffer = Box::leak(Box::new(buffer));
    Writer::new(buffer)
}

fn read(writer: &Writer, row: usize, col: usize) -> ScreenChar {
    writer.cell(row, col).unwrap()
}

fn glyph(writer: &Writer, byte: u8) -> ScreenChar {
    ScreenChar { ascii_character: byte, color_code: writer.color_code() }
}

/// The text of a row, and a snapshot of the whole grid.
fn row_text(writer: &Writer, row: usize) -> String {
    (0..BUFFER_WIDTH).map(|col| read(writer, row, col).ascii_character as char).collect()
}

fn snapshot(writer: &Writer) -> Vec<Vec<ScreenChar>> {
    (0..BUFFER_HEIGHT)
        .map(|row| (0..BUFFER_WIDTH).map(|col| read(writer, row, col)).collect())
        .collect()
}

#[test]
fn write_byte() {
    let mut writer = make_writer();
    writer.write_byte(b'X');
    writer.write_byte(b'Y');

    for i in 0..BUFFER_HEIGHT {
        for j in 0..BUFFER_WIDTH {
            let screen_char = read(&writer, i, j);
            if i == 0 && j == 0 {
                assert_eq!(screen_char.ascii_character, b'X');
                assert_eq!(screen_char.color_code, writer.color_code());
            } else if i == 0 && j == 1 {
                assert_eq!(screen_char.ascii_character, b'Y');
                assert_eq!(screen_char.color_code, writer.color_code());
            } else {
                assert_eq!(screen_char, empty_char());
            }
        }
    }
}

#[test]
fn write_formatted() {
    let mut writer = make_writer();
    writer.write_str("a").unwrap();
    writer.write_str("\n").unwrap();
    writer.write_str(&format!("b{}", "c")).unwrap();
    writer.write_str("\n").unwrap();

    for i in 0..BUFFER_HEIGHT {
        for j in 0..BUFFER_WIDTH {
            let screen_char = read(&writer, i, j);
            if i == 0 && j == 0 {
                assert_eq!(screen_char.ascii_character, b'a');
                assert_eq!(screen_char.color_code, writer.color_code());
            } else if i == 1 && j == 0 {
                assert_eq!(screen_char.ascii_character, b'b');
                assert_eq!(screen_char.color_code, writer.color_code());
            } else if i == 1 && j == 1 {
                assert_eq!(screen_char.ascii_character, b'c');
                assert_eq!(screen_char.color_code, writer.color_code());
            } else {
                assert_eq!(screen_char, empty_char());
            }
        }
    }
}

#[test]
fn display_geometry() {
    assert_eq!(BUFFER_HEIGHT, 25);
    assert_eq!(BUFFER_WIDTH, 80);
    assert_eq!(VGA_BUFFER_ADDRESS, 0xb8000);
    assert_eq!(NEWLINE, b'\n');
    assert_eq!(core::mem::size_of::<VgaBuffer>(), 2 * 25 * 80);
}

#[test]
fn write_str_never_fails() {
    let mut writer = make_writer();
    assert_eq!(writer.write_str(""), Ok(()));
    assert_eq!(writer.write_str("line\n"), Ok(()));
    assert_eq!(writer.write_str(&"x".repeat(BUFFER_WIDTH * BUFFER_HEIGHT * 2)), Ok(()));
    assert_eq!((writer.row(), writer.col()), (BUFFER_HEIGHT - 1, 0));
}

#[test]
fn color_code_packs_background_above_foreground() {
    assert_eq!(ColorCode::new(Color::White, Color::Black), ColorCode(0x0f));
    assert_eq!(ColorCode::new(Color::Black, Color::White), ColorCode(0xf0));
    assert_eq!(ColorCode::new(Color::Yellow, Color::Blue), ColorCode(0x1e));
    assert_eq!(ColorCode::new(Color::LightGray, Color::Magenta), ColorCode(0x57));
}

#[test]
fn palette_runs_from_black_to_white() {
    let palette = [
        Color::Black,
        Color::Blue,
        Color::Green,
        Color::Cyan,
        Color::Red,
        Color::Magenta,
        Color::Brown,
        Color::LightGray,
        Color::DarkGray,
        Color::LightBlue,
        Color::LightGreen,
        Color::LightCyan,
        Color::LightRed,
        Color::Pink,
        Color::Yellow,
        Color::White,
    ];
    for (index, color) in palette.iter().enumerate() {
        assert_eq!(color.to_u8() as usize, index);
    }
}

#[test]
fn cell_bits_hold_character_below_attribute() {
    let cell = ScreenChar { ascii_character: b'A', color_code: ColorCode(0x0f) };
    assert_eq!(cell.to_bits(), 0x0f41);
    assert_eq!(ScreenChar::from_bits(0x0f41), cell);
    assert_eq!(empty_char().to_bits(), 0x0f20);
    assert_eq!(
        ScreenChar::from_bits(0xabcd),
        ScreenChar { ascii_character: 0xcd, color_code: ColorCode(0xab) }
    );
}

#[test]
fn cell_bits_round_trip() {
    for ascii_character in 0..=255u8 {
        for code in [0x00u8, 0x0f, 0x1e, 0x80, 0xff] {
            let cell = ScreenChar { ascii_character, color_code: ColorCode(code) };
            assert_eq!(ScreenChar::from_bits(cell.to_bits()), cell);
        }
    }
    for bits in [0u16, 1, 0x00ff, 0x0100, 0x0f20, 0x8000, 0xffff] {
        assert_eq!(ScreenChar::from_bits(bits).to_bits(), bits);
    }
}

#[test]
fn new_writer_starts_top_left_in_white_on_black() {
    let writer = make_writer();
    assert_eq!(writer.row(), 0);
    assert_eq!(writer.col(), 0);
    assert_eq!(writer.color_code(), ColorCode(0x0f));
}

#[test]
fn new_writer_keeps_what_the_grid_shows() {
    let buffer: VgaBuffer =
        array_init(|row| array_init(|col| Volatile::new((row * BUFFER_WIDTH + col) as u16)));
    let writer = Writer::new(Box::leak(Box::new(buffer)));
    for row in 0..BUFFER_HEIGHT {
        for col in 0..BUFFER_WIDTH {
            let bits = (row * BUFFER_WIDTH + col) as u16;
            assert_eq!(read(&writer, row, col), ScreenChar::from_bits(bits));
        }
    }
}

#[test]
fn cell_outside_the_grid_is_none() {
    let writer = make_writer();
    assert_eq!(writer.cell(BUFFER_HEIGHT, 0), None);
    assert_eq!(writer.cell(0, BUFFER_WIDTH), None);
    assert_eq!(writer.cell(usize::MAX, usize::MAX), None);
    assert_eq!(writer.cell(BUFFER_HEIGHT - 1, BUFFER_WIDTH - 1), Some(empty_char()));
}

#[test]
fn single_printable_byte_lands_in_the_corner() {
    for byte in 0x20..=0x7eu8 {
        let mut writer = make_writer();
        writer.write_byte(byte);
        assert_eq!(writer.row(), 0);
        assert_eq!(writer.col(), 1);
        for row in 0..BUFFER_HEIGHT {
            for col in 0..BUFFER_WIDTH {
                if row == 0 && col == 0 {
                    assert_eq!(read(&writer, row, col), glyph(&writer, byte));
                } else {
                    assert_eq!(read(&writer, row, col), empty_char());
                }
            }
        }
    }
}

#[test]
fn written_cell_reads_back() {
    let mut writer = make_writer();
    for (i, byte) in (0x21..=0x7eu8).enumerate() {
        let (row, col) = (writer.row(), writer.col());
        assert_eq!((row, col), (i / BUFFER_WIDTH, i % BUFFER_WIDTH));
        writer.write_byte(byte);
        let cell = read(&writer, row, col);
        assert_eq!(cell.ascii_character, byte);
        assert_eq!(cell.color_code, ColorCode(0x0f));
    }
}

#[test]
fn full_row_fills_row_and_moves_to_next() {
    let mut writer = make_writer();
    let bytes: Vec<u8> = (0..BUFFER_WIDTH).map(|i| b'0' + (i % 10) as u8).collect();
    writer.write_bytes(&bytes);
    assert_eq!(writer.row(), 1);
    assert_eq!(writer.col(), 0);
    for col in 0..BUFFER_WIDTH {
        assert_eq!(read(&writer, 0, col), glyph(&writer, bytes[col]));
    }
    for row in 1..BUFFER_HEIGHT {
        for col in 0..BUFFER_WIDTH {
            assert_eq!(read(&writer, row, col), empty_char());
        }
    }
}

#[test]
fn one_byte_short_of_a_full_row_stays_in_the_row() {
    let mut writer = make_writer();
    writer.write_bytes(&[b'x'; BUFFER_WIDTH - 1]);
    assert_eq!(writer.row(), 0);
    assert_eq!(writer.col(), BUFFER_WIDTH - 1);
    assert_eq!(read(&writer, 0, BUFFER_WIDTH - 2), glyph(&writer, b'x'));
    assert_eq!(read(&writer, 0, BUFFER_WIDTH - 1), empty_char());
}

#[test]
fn newline_above_last_row_moves_cursor_only() {
    let mut writer = make_writer();
    writer.write_bytes(b"abc");
    let before = snapshot(&writer);
    writer.write_byte(b'\n');
    assert_eq!(writer.row(), 1);
    assert_eq!(writer.col(), 0);
    assert_eq!(snapshot(&writer), before);
    writer.write_bytes(b"de");
    writer.newline();
    assert_eq!(writer.row(), 2);
    assert_eq!(writer.col(), 0);
    assert_eq!(row_text(&writer, 1).trim_end(), "de");
}

#[test]
fn newline_on_last_row_scrolls() {
    let mut writer = make_writer();
    for row in 0..BUFFER_HEIGHT {
        if row > 0 {
            writer.write_byte(b'\n');
        }
        writer.write_bytes(&[b'a' + row as u8; 3]);
    }
    assert_eq!(writer.row(), BUFFER_HEIGHT - 1);
    assert_eq!(writer.col(), 3);
    let before = snapshot(&writer);
    assert_eq!(before[0][0].ascii_character, b'a');
    assert_eq!(before[BUFFER_HEIGHT - 1][2].ascii_character, b'a' + 24);

    writer.write_byte(b'\n');

    assert_eq!(writer.row(), BUFFER_HEIGHT - 1);
    assert_eq!(writer.col(), 0);
    let after = snapshot(&writer);
    for row in 0..BUFFER_HEIGHT - 1 {
        assert_eq!(after[row], before[row + 1]);
    }
    for col in 0..BUFFER_WIDTH {
        assert_eq!(after[BUFFER_HEIGHT - 1][col], empty_char());
    }
    assert_eq!(after[0][0].ascii_character, b'b');
}

#[test]
fn scroll_keeps_the_colours_of_moved_cells() {
    let buffer: VgaBuffer =
        array_init(|row| array_init(|col| Volatile::new(((row as u16) << 8) | col as u16)));
    let mut writer = Writer::new(Box::leak(Box::new(buffer)));
    for _ in 0..BUFFER_HEIGHT - 1 {
        writer.newline();
    }
    assert_eq!(writer.row(), BUFFER_HEIGHT - 1);
    assert_eq!(read(&writer, 3, 5), ScreenChar::from_bits(0x0305));
    writer.newline();
    for row in 0..BUFFER_HEIGHT - 1 {
        for col in 0..BUFFER_WIDTH {
            let expected = ScreenChar {
                ascii_character: col as u8,
                color_code: ColorCode(row as u8 + 1),
            };
            assert_eq!(read(&writer, row, col), expected);
        }
    }
    for col in 0..BUFFER_WIDTH {
        assert_eq!(read(&writer, BUFFER_HEIGHT - 1, col), empty_char());
    }
}

#[test]
fn filling_the_last_row_scrolls() {
    let mut writer = make_writer();
    for _ in 0..BUFFER_HEIGHT - 1 {
        writer.write_byte(b'\n');
    }
    writer.write_bytes(&[b'z'; BUFFER_WIDTH]);
    assert_eq!(writer.row(), BUFFER_HEIGHT - 1);
    assert_eq!(writer.col(), 0);
    for col in 0..BUFFER_WIDTH {
        assert_eq!(read(&writer, BUFFER_HEIGHT - 2, col), glyph(&writer, b'z'));
        assert_eq!(read(&writer, BUFFER_HEIGHT - 1, col), empty_char());
    }
}

#[test]
fn write_bytes_is_sequential() {
    let mut whole = make_writer();
    whole.write_bytes(b"hello\nworld");
    let mut parts = make_writer();
    parts.write_bytes(b"hel");
    parts.write_bytes(b"");
    parts.write_bytes(b"lo\nwor");
    parts.write_bytes(b"ld");
    assert_eq!(snapshot(&whole), snapshot(&parts));
    assert_eq!((whole.row(), whole.col()), (parts.row(), parts.col()));
    assert_eq!((whole.row(), whole.col()), (1, 5));
    assert_eq!(row_text(&whole, 0).trim_end(), "hello");
    assert_eq!(row_text(&whole, 1).trim_end(), "world");
}

#[test]
fn print_routes_text_through_the_console() {
    let mut writer = make_writer();
    print(&mut writer, "ok\n");
    print(&mut writer, "");
    print(&mut writer, "done");
    assert_eq!(row_text(&writer, 0).trim_end(), "ok");
    assert_eq!(row_text(&writer, 1).trim_end(), "done");
    assert_eq!((writer.row(), writer.col()), (1, 4));
}

#[test]
fn print_writes_each_byte_of_the_encoding() {
    let mut writer = make_writer();
    print(&mut writer, "é");
    assert_eq!(read(&writer, 0, 0).ascii_character, 0xc3);
    assert_eq!(read(&writer, 0, 1).ascii_character, 0xa9);
    assert_eq!(writer.col(), 2);
}

#[test]
fn print_decimal_writes_digits() {
    let mut writer = make_writer();
    print_decimal(&mut writer, 0);
    writer.newline();
    print_decimal(&mut writer, 7);
    writer.newline();
    print_decimal(&mut writer, 10);
    writer.newline();
    print_decimal(&mut writer, 4096);
    writer.newline();
    print_decimal(&mut writer, u64::MAX);
    assert_eq!(row_text(&writer, 0).trim_end(), "0");
    assert_eq!(row_text(&writer, 1).trim_end(), "7");
    assert_eq!(row_text(&writer, 2).trim_end(), "10");
    assert_eq!(row_text(&writer, 3).trim_end(), "4096");
    assert_eq!(row_text(&writer, 4).trim_end(), "18446744073709551615");
    assert_eq!((writer.row(), writer.col()), (4, 20));
}
