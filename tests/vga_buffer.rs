use core::fmt::Write;
use vga_console::buffer::ScreenChar;
use vga_console::{Buffer, Color, ColorCode, Writer, BUFFER_HEIGHT, BUFFER_WIDTH};
use volatile::Volatile;

fn empty_char() -> ScreenChar {
    ScreenChar {
        ascii_character: b' ',
        color_code: ColorCode::new(Color::Green, Color::Brown),
    }
}

fn construct_buffer() -> Buffer {
    let word = empty_char().to_word();
    Buffer {
        chars: core::array::from_fn(|_| core::array::from_fn(|_| Volatile::new(word))),
    }
}

fn construct_writer() -> Writer {
    let buffer = construct_buffer();
    Writer::new(
        Box::leak(Box::new(buffer)),
        ColorCode::new(Color::Blue, Color::Magenta),
    )
}

#[test]
fn write_bytes() {
    let mut writer = construct_writer();
    writer.write_byte(b'X');
    writer.write_byte(b'Y');

    assert_eq!(writer.row_position(), 0);
    assert_eq!(writer.column_position(), 2);
    assert_eq!(writer.read_char(0, 0).ascii_character, b'X');
    assert_eq!(writer.read_char(0, 0).color_code, writer.color_code());
    assert_eq!(writer.read_char(0, 1).ascii_character, b'Y');
    assert_eq!(writer.read_char(0, 1).color_code, writer.color_code());
}

#[test]
fn clear_screen() {
    let mut writer = construct_writer();
    writer.write_byte(b'X');
    writer.write_byte(b'\n');
    writer.write_byte(b'Y');

    assert_eq!(writer.row_position(), 1);
    assert_eq!(writer.column_position(), 1);

    writer.clear_screen();
    assert_eq!(writer.row_position(), 0);
    assert_eq!(writer.column_position(), 0);
    assert_eq!(writer.read_char(0, 0).ascii_character, b' ');
}

#[test]
fn with_color() {
    let mut writer = construct_writer();
    let original_color = writer.color_code();
    let new_color = ColorCode::new(Color::Red, Color::Cyan);
    writer.with_color(new_color, "X");
    writer.write_byte(b'Y');
    assert_eq!(writer.color_code(), original_color);
    assert_eq!(writer.read_char(0, 0).ascii_character, b'X');
    assert_eq!(writer.read_char(0, 0).color_code, new_color);
    assert_eq!(writer.read_char(0, 1).ascii_character, b'Y');
    assert_eq!(writer.read_char(0, 1).color_code, original_color);
}

#[test]
fn write_formatted() {
    let mut writer = construct_writer();
    writer.write_str(&format!("a\n")).unwrap();
    writer.write_str(&format!("b{}\n", "c")).unwrap();

    assert_eq!(writer.row_position(), 2);
    assert_eq!(writer.column_position(), 0);
    assert_eq!(writer.read_char(0, 0).ascii_character, b'a');
    assert_eq!(writer.read_char(1, 0).ascii_character, b'b');
    assert_eq!(writer.read_char(1, 1).ascii_character, b'c');
}

#[test]
fn printable_byte_lands_at_cursor() {
    let mut writer = construct_writer();
    writer.write_string("ab");
    let color = writer.color_code();
    for b in 0x20u8..=0x7e {
        let (row, col) = (writer.row_position(), writer.column_position());
        if col == BUFFER_WIDTH {
            break;
        }
        writer.write_byte(b);
        assert_eq!(writer.read_char(row, col), ScreenChar { ascii_character: b, color_code: color });
        assert_eq!(writer.row_position(), row);
        assert_eq!(writer.column_position(), col + 1);
    }
}

#[test]
fn full_row_then_one_more_wraps_once() {
    let mut writer = construct_writer();
    for i in 0..BUFFER_WIDTH {
        writer.write_byte(b'a' + (i % 26) as u8);
    }
    assert_eq!(writer.row_position(), 0);
    assert_eq!(writer.column_position(), BUFFER_WIDTH);
    writer.write_byte(b'Z');
    assert_eq!(writer.row_position(), 1);
    assert_eq!(writer.column_position(), 1);
    assert_eq!(writer.read_char(1, 0).ascii_character, b'Z');
    assert_eq!(writer.read_char(0, BUFFER_WIDTH - 1).ascii_character, b'a' + ((BUFFER_WIDTH - 1) % 26) as u8);
    assert_eq!(writer.read_char(1, 1), empty_char());
}

#[test]
fn clear_blanks_every_cell() {
    let mut writer = construct_writer();
    writer.write_string("hello\nworld");
    writer.clear_screen();
    assert_eq!((writer.row_position(), writer.column_position()), (0, 0));
    let blank = ScreenChar { ascii_character: b' ', color_code: writer.color_code() };
    for row in 0..BUFFER_HEIGHT {
        for col in 0..BUFFER_WIDTH {
            assert_eq!(writer.read_char(row, col), blank);
        }
    }
}

#[test]
fn non_printable_byte_becomes_placeholder() {
    let mut writer = construct_writer();
    writer.write_string("\u{1}");
    assert_eq!(writer.read_char(0, 0).ascii_character, 0xfe);
    assert_eq!(writer.column_position(), 1);
    writer.write_string("é\t");
    assert_eq!(writer.column_position(), 4);
    for col in 1..4 {
        assert_eq!(writer.read_char(0, col).ascii_character, 0xfe);
    }
}

#[test]
fn newline_on_last_row_scrolls() {
    let mut writer = construct_writer();
    for _ in 0..BUFFER_HEIGHT - 2 {
        writer.write_byte(b'\n');
    }
    writer.write_string("a\nbc");
    assert_eq!(writer.row_position(), BUFFER_HEIGHT - 1);
    writer.write_byte(b'\n');
    assert_eq!(writer.row_position(), BUFFER_HEIGHT - 1);
    assert_eq!(writer.column_position(), 0);
    assert_eq!(writer.read_char(BUFFER_HEIGHT - 3, 0).ascii_character, b'a');
    assert_eq!(writer.read_char(BUFFER_HEIGHT - 2, 0).ascii_character, b'b');
    assert_eq!(writer.read_char(BUFFER_HEIGHT - 2, 1).ascii_character, b'c');
    let blank = ScreenChar { ascii_character: b' ', color_code: writer.color_code() };
    for col in 0..BUFFER_WIDTH {
        assert_eq!(writer.read_char(BUFFER_HEIGHT - 1, col), blank);
    }
}

#[test]
fn wrap_on_last_row_scrolls() {
    let mut writer = construct_writer();
    for _ in 0..BUFFER_HEIGHT - 1 {
        writer.write_byte(b'\n');
    }
    for _ in 0..BUFFER_WIDTH {
        writer.write_byte(b'q');
    }
    writer.write_byte(b'r');
    assert_eq!(writer.row_position(), BUFFER_HEIGHT - 1);
    assert_eq!(writer.column_position(), 1);
    assert_eq!(writer.read_char(BUFFER_HEIGHT - 2, BUFFER_WIDTH - 1).ascii_character, b'q');
    assert_eq!(writer.read_char(BUFFER_HEIGHT - 1, 0).ascii_character, b'r');
    assert_eq!(writer.read_char(BUFFER_HEIGHT - 1, 1).ascii_character, b' ');
}

#[test]
fn scenario_two_bytes_in_writer_color() {
    let mut writer = construct_writer();
    let color = ColorCode::new(Color::Blue, Color::Magenta);
    writer.write_byte(b'X');
    writer.write_byte(b'Y');
    assert_eq!((writer.row_position(), writer.column_position()), (0, 2));
    assert_eq!(writer.read_char(0, 0), ScreenChar { ascii_character: b'X', color_code: color });
    assert_eq!(writer.read_char(0, 1), ScreenChar { ascii_character: b'Y', color_code: color });
    assert_eq!(writer.read_char(0, 2), empty_char());
}

#[test]
fn cell_word_layout() {
    let c = ScreenChar { ascii_character: b'A', color_code: ColorCode(0x1f) };
    assert_eq!(c.to_word(), 0x1f41);
    assert_eq!(ScreenChar::from_word(0x1f41), c);
    assert_eq!(c.to_word().to_le_bytes(), [b'A', 0x1f]);
}
