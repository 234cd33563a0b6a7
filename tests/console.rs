use std::cell::Cell;

use toyos::io::vga_buffer::{
    Buffer, Color, ColorCode, ScreenChar, Writer, BUFFER_HEIGHT, BUFFER_WIDTH, PLACEHOLDER,
};
use toyos::io::{EXIT_PORT, ExitCode};
use toyos::{test_runner, Testable};
use volatile::Volatile;

fn filled_buffer(c: ScreenChar) -> Buffer {
    Buffer { chars: core::array::from_fn(|_| core::array::from_fn(|_| Volatile::new(c))) }
}

fn empty_buffer() -> Buffer {
    filled_buffer(ScreenChar {
        ascii_character: b' ',
        color_code: ColorCode::new(Color::White, Color::Black),
    })
}

fn cell(b: u8, fg: Color, bg: Color) -> ScreenChar {
    ScreenChar { ascii_character: b, color_code: ColorCode::new(fg, bg) }
}

fn row_text(buf: &Buffer, row: usize) -> Vec<u8> {
    (0..BUFFER_WIDTH).map(|c| buf.read(row, c).ascii_character).collect()
}

#[test]
fn color_code_packs_background_high_foreground_low() {
    assert_eq!(ColorCode::new(Color::White, Color::Black).as_u8(), 0x0f);
    assert_eq!(ColorCode::new(Color::Yellow, Color::Blue).as_u8(), 0x1e);
    assert_eq!(ColorCode::new(Color::Black, Color::White).as_u8(), 0xf0);
    assert_eq!(ColorCode::new(Color::LightGreen, Color::Red).as_u8(), 0x4a);
}

#[test]
fn color_values_follow_the_device_palette() {
    assert_eq!(Color::Black.to_u8(), 0);
    assert_eq!(Color::Cyan.to_u8(), 3);
    assert_eq!(Color::LightGray.to_u8(), 7);
    assert_eq!(Color::DarkGray.to_u8(), 8);
    assert_eq!(Color::Pink.to_u8(), 13);
    assert_eq!(Color::White.to_u8(), 15);
}

#[test]
fn screen_char_is_two_bytes_in_device_order() {
    assert_eq!(core::mem::size_of::<ScreenChar>(), 2);
    assert_eq!(core::mem::size_of::<ColorCode>(), 1);
}

#[test]
fn buffer_write_then_read_returns_the_cell() {
    let mut buf = empty_buffer();
    let c = cell(b'Q', Color::Red, Color::Green);
    buf.write(3, 7, c);
    assert_eq!(buf.read(3, 7), c);
    assert_eq!(buf.read(3, 8), cell(b' ', Color::White, Color::Black));
    assert_eq!(buf.read(BUFFER_HEIGHT - 1, BUFFER_WIDTH - 1), cell(b' ', Color::White, Color::Black));
}

#[test]
fn fresh_writer_writes_hi() {
    let mut buf = empty_buffer();
    let mut w = Writer::new(&mut buf);
    assert_eq!(w.column_position, 0);
    assert_eq!(w.color_code, ColorCode::new(Color::White, Color::Black));
    w.write_string("hi");
    assert_eq!(w.column_position, 2);
    assert_eq!(buf.read(BUFFER_HEIGHT - 1, 0), cell(b'h', Color::White, Color::Black));
    assert_eq!(buf.read(BUFFER_HEIGHT - 1, 1), cell(b'i', Color::White, Color::Black));
}

#[test]
fn printed_line_appears_on_row_above_bottom() {
    let s = "This should appear onto screen.";
    let mut buf = empty_buffer();
    let mut w = Writer::new(&mut buf);
    w.write_string(s);
    w.write_string("\n");
    assert_eq!(w.column_position, 0);
    for (i, c) in s.chars().enumerate() {
        let screen_char = buf.read(BUFFER_HEIGHT - 2, i);
        assert_eq!(char::from(screen_char.ascii_character), c);
    }
}

#[test]
fn many_lines_keep_only_the_most_recent() {
    let mut buf = empty_buffer();
    let mut w = Writer::new(&mut buf);
    for i in 0..200 {
        w.write_string(&format!("test_print output:\t{}\n", i));
    }
    assert_eq!(w.column_position, 0);
    // The bottom row is the blank line after the last newline.
    assert!(row_text(&buf, BUFFER_HEIGHT - 1).iter().all(|&b| b == b' '));
    // Rows above hold lines 176..=199, oldest on top; the tab shows as the placeholder.
    for row in 0..BUFFER_HEIGHT - 1 {
        let line = 176 + row;
        let mut expected = b"test_print output:".to_vec();
        expected.push(PLACEHOLDER);
        expected.extend_from_slice(line.to_string().as_bytes());
        let text = row_text(&buf, row);
        assert_eq!(&text[..expected.len()], &expected[..]);
        assert!(text[expected.len()..].iter().all(|&b| b == b' '));
    }
}

#[test]
fn every_byte_keeps_the_cursor_within_the_row() {
    for start in [0usize, 1, 40, BUFFER_WIDTH - 1, BUFFER_WIDTH] {
        for b in 0..=255u8 {
            let mut buf = empty_buffer();
            let mut w = Writer::new(&mut buf);
            w.column_position = start;
            w.write_byte(b);
            assert!(w.column_position <= BUFFER_WIDTH);
        }
    }
}

#[test]
fn printable_text_round_trips_from_the_cursor() {
    let mut buf = empty_buffer();
    let mut w = Writer::new(&mut buf);
    w.write_string("ab");
    w.set_color(Color::Cyan, Color::Magenta);
    let s = " ~Hello, world! {}[]";
    w.write_string(s);
    assert_eq!(w.column_position, 2 + s.len());
    for (i, b) in s.bytes().enumerate() {
        assert_eq!(buf.read(BUFFER_HEIGHT - 1, 2 + i), cell(b, Color::Cyan, Color::Magenta));
    }
}

#[test]
fn unrepresentable_bytes_become_the_placeholder() {
    let mut buf = empty_buffer();
    let mut w = Writer::new(&mut buf);
    w.write_string("a\tb\x7fc\u{e9}");
    assert_eq!(w.column_position, 7);
    let got = row_text(&buf, BUFFER_HEIGHT - 1);
    assert_eq!(&got[..7], &[b'a', 0xfe, b'b', 0xfe, b'c', 0xfe, 0xfe]);
    assert_eq!(PLACEHOLDER, 0xfe);
}

#[test]
fn control_byte_written_directly_is_not_replaced() {
    let mut buf = empty_buffer();
    let mut w = Writer::new(&mut buf);
    w.write_byte(0x01);
    assert_eq!(buf.read(BUFFER_HEIGHT - 1, 0).ascii_character, 0x01);
}

#[test]
fn full_row_wraps_before_the_next_byte() {
    let mut buf = empty_buffer();
    let mut w = Writer::new(&mut buf);
    let line: String = (0..BUFFER_WIDTH).map(|i| (b'A' + (i % 26) as u8) as char).collect();
    w.write_string(&line);
    assert_eq!(w.column_position, BUFFER_WIDTH);
    assert_eq!(row_text(w.buffer, BUFFER_HEIGHT - 1), line.as_bytes());
    assert!(row_text(w.buffer, BUFFER_HEIGHT - 2).iter().all(|&b| b == b' '));
    w.write_string("z");
    assert_eq!(w.column_position, 1);
    assert_eq!(row_text(w.buffer, BUFFER_HEIGHT - 2), line.as_bytes());
    assert_eq!(w.buffer.read(BUFFER_HEIGHT - 1, 0), cell(b'z', Color::White, Color::Black));
    assert_eq!(w.buffer.read(BUFFER_HEIGHT - 1, 1), cell(b' ', Color::White, Color::Black));
}

#[test]
fn newline_scrolls_every_row_up_and_blanks_bottom_in_current_color() {
    let mut buf = empty_buffer();
    for r in 0..BUFFER_HEIGHT {
        for c in 0..BUFFER_WIDTH {
            buf.write(r, c, cell(b'a' + (r % 26) as u8, Color::Green, Color::Black));
        }
    }
    let mut w = Writer::new(&mut buf);
    w.column_position = 17;
    w.set_color(Color::White, Color::Blue);
    w.write_byte(b'\n');
    assert_eq!(w.column_position, 0);
    for r in 0..BUFFER_HEIGHT - 1 {
        for c in 0..BUFFER_WIDTH {
            assert_eq!(buf.read(r, c), cell(b'a' + ((r + 1) % 26) as u8, Color::Green, Color::Black));
        }
    }
    for c in 0..BUFFER_WIDTH {
        assert_eq!(buf.read(BUFFER_HEIGHT - 1, c), cell(b' ', Color::White, Color::Blue));
    }
}

#[test]
fn set_color_affects_only_later_writes() {
    let mut buf = empty_buffer();
    let mut w = Writer::new(&mut buf);
    w.write_string("x");
    w.set_color(Color::Red, Color::Black);
    assert_eq!(w.column_position, 1);
    assert_eq!(w.color_code, ColorCode::new(Color::Red, Color::Black));
    w.set_color(Color::Red, Color::Black);
    w.write_string("y");
    assert_eq!(buf.read(BUFFER_HEIGHT - 1, 0), cell(b'x', Color::White, Color::Black));
    assert_eq!(buf.read(BUFFER_HEIGHT - 1, 1), cell(b'y', Color::Red, Color::Black));
}

#[test]
fn writer_keeps_what_the_grid_shows() {
    let mut buf = filled_buffer(cell(b'#', Color::Brown, Color::Black));
    let w = Writer::new(&mut buf);
    assert_eq!(w.column_position, 0);
    assert_eq!(buf.read(0, 0), cell(b'#', Color::Brown, Color::Black));
}

#[test]
fn empty_string_changes_nothing() {
    let mut buf = empty_buffer();
    let mut w = Writer::new(&mut buf);
    w.write_string("");
    assert_eq!(w.column_position, 0);
    assert!(row_text(&buf, BUFFER_HEIGHT - 1).iter().all(|&b| b == b' '));
}

#[test]
fn exit_codes_match_the_exit_device() {
    assert_eq!(ExitCode::Success.code(), 0x10);
    assert_eq!(ExitCode::Failed.code(), 0x11);
    assert_eq!(EXIT_PORT, 0xf4);
}

struct Counted<'a>(&'a Cell<u32>);

impl Testable for Counted<'_> {
    fn run(&self) {
        self.0.set(self.0.get() + 1);
    }
}

#[test]
fn test_runner_runs_each_check_and_reports_success() {
    let runs = Cell::new(0);
    let a = Counted(&runs);
    let b = Counted(&runs);
    let checks: [&dyn Testable; 2] = [&a, &b];
    assert_eq!(test_runner(&checks), ExitCode::Success);
    assert_eq!(runs.get(), 2);
    let none: [&dyn Testable; 0] = [];
    assert_eq!(test_runner(&none), ExitCode::Success);
}
