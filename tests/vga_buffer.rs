use wally_os::vga_buffer::{Color, ColorCode, ScreenChar, VGAWriter, BUFFER_HEIGHT, BUFFER_WIDTH};

fn row_text(w: &VGAWriter, row: usize) -> Vec<u8> {
    (0..BUFFER_WIDTH).map(|c| w.cell(row, c).character).collect()
}

#[test]
fn color_code_packs_background_high() {
    assert_eq!(ColorCode::new(Color::Red, Color::LightGreen), ColorCode(0xa4));
    assert_eq!(ColorCode::new(Color::White, Color::Black), ColorCode(0x0f));
    assert_eq!(Color::Yellow.as_u8(), 14);
}

#[test]
fn default_writer_is_white_on_black() {
    let w = VGAWriter::default();
    assert_eq!(w.column_position(), 0);
    assert_eq!(
        w.cell(0, 0),
        ScreenChar { character: b' ', color_code: ColorCode(0x0f) }
    );
}

#[test]
fn writes_on_bottom_row() {
    let mut w = VGAWriter::default();
    w.write_string("hi");
    let last = BUFFER_HEIGHT - 1;
    assert_eq!(w.cell(last, 0).character, b'h');
    assert_eq!(w.cell(last, 1).character, b'i');
    assert_eq!(w.cell(last, 1).color_code, ColorCode(0x0f));
    assert_eq!(w.column_position(), 2);
}

#[test]
fn newline_scrolls_up() {
    let mut w = VGAWriter::default();
    w.write_string("a\nb");
    assert_eq!(w.cell(BUFFER_HEIGHT - 2, 0).character, b'a');
    assert_eq!(w.cell(BUFFER_HEIGHT - 1, 0).character, b'b');
    assert_eq!(w.column_position(), 1);
}

#[test]
fn full_row_wraps() {
    let mut w = VGAWriter::new(ColorCode::new(Color::Green, Color::Blue));
    let line = "x".repeat(BUFFER_WIDTH + 1);
    w.write_string(&line);
    assert_eq!(row_text(&w, BUFFER_HEIGHT - 2), vec![b'x'; BUFFER_WIDTH]);
    assert_eq!(w.cell(BUFFER_HEIGHT - 1, 0).character, b'x');
    assert_eq!(w.cell(BUFFER_HEIGHT - 1, 1).character, b' ');
    assert_eq!(w.column_position(), 1);
    assert_eq!(w.cell(BUFFER_HEIGHT - 1, 1).color_code, ColorCode(0x12));
}

#[test]
fn unsupported_bytes_show_as_block() {
    let mut w = VGAWriter::default();
    w.write_string("\u{e9}");
    assert_eq!(w.cell(BUFFER_HEIGHT - 1, 0).character, 0xfe);
    assert_eq!(w.cell(BUFFER_HEIGHT - 1, 1).character, 0xfe);
    assert_eq!(w.column_position(), 2);
}

#[test]
fn write_byte_keeps_raw_byte() {
    let mut w = VGAWriter::default();
    w.write_byte(0x01);
    assert_eq!(w.cell(BUFFER_HEIGHT - 1, 0).character, 0x01);
}

#[test]
fn text_leaves_the_top() {
    let mut w = VGAWriter::default();
    w.write_string("top");
    for _ in 0..BUFFER_HEIGHT {
        w.write_byte(b'\n');
    }
    for r in 0..BUFFER_HEIGHT {
        assert_eq!(row_text(&w, r), vec![b' '; BUFFER_WIDTH]);
    }
}
