//! The text-mode screen: a grid of coloured characters that text scrolls
//! up through. The writer keeps the grid; the boot code copies it to the
//! memory-mapped text buffer.
use vstd::prelude::*;
use vstd::string::StringSliceAdditionalSpecFns;

verus! {

/// Characters per row.
pub const BUFFER_WIDTH: usize = 80;

/// Rows on the screen.
pub const BUFFER_HEIGHT: usize = 25;

/// Cells on the screen, row after row.
pub const BUFFER_CELLS: usize = BUFFER_WIDTH * BUFFER_HEIGHT;

/// The sixteen colours of the text mode.
#[derive(Debug, Clone, Copy, PartialEq, Eq, Structural)]
pub enum Color {
    Black,
    Blue,
    Green,
    Cyan,
    Red,
    Magenta,
    Brown,
    LightGray,
    DarkGray,
    LightBlue,
    LightGreen,
    LightCyan,
    LightRed,
    Pink,
    Yellow,
    White,
}

impl Color {
    /// The colour's four-bit number.
    pub open spec fn code(self) -> u8 {
        match self {
            Color::Black => 0,
            Color::Blue => 1,
            Color::Green => 2,
            Color::Cyan => 3,
            Color::Red => 4,
            Color::Magenta => 5,
            Color::Brown => 6,
            Color::LightGray => 7,
            Color::DarkGray => 8,
            Color::LightBlue => 9,
            Color::LightGreen => 10,
            Color::LightCyan => 11,
            Color::LightRed => 12,
            Color::Pink => 13,
            Color::Yellow => 14,
            Color::White => 15,
        }
    }

    pub fn as_u8(self) -> (r: u8)
        ensures
            r == self.code(),
            r < 16,
    {
        match self {
            Color::Black => 0,
            Color::Blue => 1,
            Color::Green => 2,
            Color::Cyan => 3,
            Color::Red => 4,
            Color::Magenta => 5,
            Color::Brown => 6,
            Color::LightGray => 7,
            Color::DarkGray => 8,
            Color::LightBlue => 9,
            Color::LightGreen => 10,
            Color::LightCyan => 11,
            Color::LightRed => 12,
            Color::Pink => 13,
            Color::Yellow => 14,
            Color::White => 15,
        }
    }
}

/// A foreground and a background colour in one byte: background in the high
/// four bits, foreground in the low four.
#[derive(Debug, Clone, Copy, PartialEq, Eq, Structural)]
pub struct ColorCode(pub u8);

impl ColorCode {
    pub fn new(fg: Color, bg: Color) -> (c: ColorCode)
        ensures
            c.0 == bg.code() * 16 + fg.code(),
    {
        let b = bg.as_u8();
        let f = fg.as_u8();
        assert((b << 4u8) | f == b * 16 + f) by (bit_vector)
            requires
                b < 16,
                f < 16,
        ;
        ColorCode((b << 4u8) | f)
    }
}

/// One cell of the screen: a code-page-437 character and its colours.
#[derive(Debug, Clone, Copy, PartialEq, Eq, Structural)]
pub struct ScreenChar {
    pub character: u8,
    pub color_code: ColorCode,
}

/// A space in the given colours.
pub open spec fn blank(color: ColorCode) -> ScreenChar {
    ScreenChar { character: 0x20, color_code: color }
}

/// The cells with row `row` blanked.
pub open spec fn cleared_row(cells: Seq<ScreenChar>, row: int, color: ColorCode) -> Seq<ScreenChar> {
    Seq::new(
        cells.len(),
        |i: int|
            if row * BUFFER_WIDTH <= i < (row + 1) * BUFFER_WIDTH {
                blank(color)
            } else {
                cells[i]
            },
    )
}

/// The cells after every row moves up by one and the bottom row is blanked.
pub open spec fn scrolled(cells: Seq<ScreenChar>, color: ColorCode) -> Seq<ScreenChar> {
    Seq::new(
        BUFFER_CELLS as nat,
        |i: int|
            if i < BUFFER_CELLS - BUFFER_WIDTH {
                cells[i + BUFFER_WIDTH]
            } else {
                blank(color)
            },
    )
}

/// The cursor column and the cells after writing `byte` at the cursor.
/// A newline scrolls and returns to column 0; another byte first scrolls if
/// the bottom row is full, then goes in the bottom row at the cursor.
pub open spec fn write_byte_spec(column: nat, cells: Seq<ScreenChar>, color: ColorCode, byte: u8) -> (
    nat,
    Seq<ScreenChar>,
) {
    if byte == 0x0a {
        (0, scrolled(cells, color))
    } else {
        let col = if column >= BUFFER_WIDTH {
            0
        } else {
            column
        };
        let before = if column >= BUFFER_WIDTH {
            scrolled(cells, color)
        } else {
            cells
        };
        (
            col + 1,
            before.update(
                ((BUFFER_HEIGHT - 1) * BUFFER_WIDTH + col) as int,
                ScreenChar { character: byte, color_code: color },
            ),
        )
    }
}

/// The byte that the writer puts on screen for `byte`: printable ASCII and
/// newline stand for themselves, anything else becomes the block `0xfe`.
pub open spec fn shown_byte(byte: u8) -> u8 {
    if (0x20 <= byte <= 0x7e) || byte == 0x0a {
        byte
    } else {
        0xfe
    }
}

/// The cursor column and the cells after writing `bytes`, in order.
pub open spec fn write_bytes_spec(column: nat, cells: Seq<ScreenChar>, color: ColorCode, bytes: Seq<u8>) -> (
    nat,
    Seq<ScreenChar>,
)
    decreases bytes.len(),
{
    if bytes.len() == 0 {
        (column, cells)
    } else {
        let (c, cs) = write_bytes_spec(column, cells, color, bytes.drop_last());
        write_byte_spec(c, cs, color, shown_byte(bytes.last()))
    }
}

/// Writes text at the bottom row of the screen, scrolling up as rows fill.
pub struct VGAWriter {
    column_position: usize,
    color_code: ColorCode,
    buffer: Vec<ScreenChar>,
}

impl VGAWriter {
    /// The cursor's column in the bottom row.
    pub closed spec fn column(&self) -> nat {
        self.column_position as nat
    }

    /// The colours that text is written in.
    pub closed spec fn color(&self) -> ColorCode {
        self.color_code
    }

    /// The screen's cells, row after row.
    pub closed spec fn cells(&self) -> Seq<ScreenChar> {
        self.buffer@
    }

    pub open spec fn wf(&self) -> bool {
        self.cells().len() == BUFFER_CELLS && self.column() <= BUFFER_WIDTH
    }

    /// A writer in the given colours over a blank screen, cursor at column 0.
    pub fn new(color_code: ColorCode) -> (w: VGAWriter)
        ensures
            w.wf(),
            w.column() == 0,
            w.color() == color_code,
            w.cells() == Seq::new(BUFFER_CELLS as nat, |i: int| blank(color_code)),
    {
        let mut buffer: Vec<ScreenChar> = Vec::new();
        let mut i: usize = 0;
        while i < BUFFER_CELLS
            invariant
                i <= BUFFER_CELLS,
                buffer@ == Seq::new(i as nat, |k: int| blank(color_code)),
            decreases BUFFER_CELLS - i,
        {
            buffer.push(ScreenChar { character: 0x20, color_code });
            i = i + 1;
        }
        VGAWriter { column_position: 0, color_code, buffer }
    }

    /// The cell at `row`, `col`.
    pub fn cell(&self, row: usize, col: usize) -> (c: ScreenChar)
        requires
            self.wf(),
            row < BUFFER_HEIGHT,
            col < BUFFER_WIDTH,
        ensures
            c == self.cells()[row * BUFFER_WIDTH + col],
    {
        self.buffer[row * BUFFER_WIDTH + col]
    }

    /// The cursor's column in the bottom row.
    pub fn column_position(&self) -> (c: usize)
        ensures
            c == self.column(),
    {
        self.column_position
    }

    /// Blanks row `row` in the writer's colours.
    fn clear_row(&mut self, row: usize)
        requires
            old(self).wf(),
            row < BUFFER_HEIGHT,
        ensures
            final(self).wf(),
            final(self).column() == old(self).column(),
            final(self).color() == old(self).color(),
            final(self).cells() == cleared_row(old(self).cells(), row as int, old(self).color()),
    {
        let blank = ScreenChar { character: 0x20, color_code: self.color_code };
        let ghost start = self.buffer@;
        let mut col: usize = 0;
        while col < BUFFER_WIDTH
            invariant
                col <= BUFFER_WIDTH,
                row < BUFFER_HEIGHT,
                blank == crate::vga_buffer::blank(self.color_code),
                self.buffer@.len() == BUFFER_CELLS,
                start.len() == BUFFER_CELLS,
                self.column_position == old(self).column_position,
                self.color_code == old(self).color_code,
                forall|i: int|
                    0 <= i < BUFFER_CELLS ==> #[trigger] self.buffer@[i] == if row * BUFFER_WIDTH
                        <= i < row * BUFFER_WIDTH + col {
                        crate::vga_buffer::blank(self.color_code)
                    } else {
                        start[i]
                    },
            decreases BUFFER_WIDTH - col,
        {
            self.buffer.set(row * BUFFER_WIDTH + col, blank);
            col = col + 1;
        }
        assert(self.buffer@ =~= cleared_row(start, row as int, self.color_code));
    }

    /// Moves every row up by one, blanks the bottom row and returns the
    /// cursor to column 0.
    fn new_line(&mut self)
        requires
            old(self).wf(),
        ensures
            final(self).wf(),
            final(self).column() == 0,
            final(self).color() == old(self).color(),
            final(self).cells() == scrolled(old(self).cells(), old(self).color()),
    {
        let ghost start = self.buffer@;
        let mut i: usize = 0;
        while i < BUFFER_CELLS - BUFFER_WIDTH
            invariant
                i <= BUFFER_CELLS - BUFFER_WIDTH,
                self.buffer@.len() == BUFFER_CELLS,
                self.column_position == old(self).column_position,
                self.color_code == old(self).color_code,
                start == old(self).buffer@,
                forall|k: int|
                    0 <= k < BUFFER_CELLS ==> #[trigger] self.buffer@[k] == if k < i {
                        start[k + BUFFER_WIDTH]
                    } else {
                        start[k]
                    },
            decreases BUFFER_CELLS - BUFFER_WIDTH - i,
        {
            let c = self.buffer[i + BUFFER_WIDTH];
            self.buffer.set(i, c);
            i = i + 1;
        }
        self.clear_row(BUFFER_HEIGHT - 1);
        self.column_position = 0;
        assert(self.buffer@ =~= scrolled(start, self.color_code));
    }

    /// Writes one byte: a newline starts a new line, any other byte goes at
    /// the cursor in the bottom row, after a new line if that row is full.
    pub fn write_byte(&mut self, byte: u8)
        requires
            old(self).wf(),
        ensures
            final(self).wf(),
            final(self).color() == old(self).color(),
            (final(self).column(), final(self).cells()) == write_byte_spec(
                old(self).column(),
                old(self).cells(),
                old(self).color(),
                byte,
            ),
    {
        if byte == 0x0a {
            self.new_line();
        } else {
            if self.column_position >= BUFFER_WIDTH {
                self.new_line();
            }
            let row = BUFFER_HEIGHT - 1;
            let col = self.column_position;
            let color_code = self.color_code;
            self.buffer.set(row * BUFFER_WIDTH + col, ScreenChar { character: byte, color_code });
            self.column_position = self.column_position + 1;
        }
    }

    /// Writes a string byte by byte; bytes outside printable ASCII, other
    /// than newline, show as the block character `0xfe`.
    pub fn write_string(&mut self, s: &str)
        requires
            old(self).wf(),
        ensures
            final(self).wf(),
            final(self).color() == old(self).color(),
            (final(self).column(), final(self).cells()) == write_bytes_spec(
                old(self).column(),
                old(self).cells(),
                old(self).color(),
                s.spec_bytes(),
            ),
    {
        let bytes = s.as_bytes();
        let mut i: usize = 0;
        while i < bytes.len()
            invariant
                i <= bytes@.len(),
                bytes@ == s.spec_bytes(),
                self.wf(),
                self.color() == old(self).color(),
                (self.column(), self.cells()) == write_bytes_spec(
                    old(self).column(),
                    old(self).cells(),
                    old(self).color(),
                    bytes@.take(i as int),
                ),
            decreases bytes@.len() - i,
        {
            let byte = bytes[i];
            proof {
                assert(bytes@.take(i + 1).drop_last() =~= bytes@.take(i as int));
            }
            if (0x20 <= byte && byte <= 0x7e) || byte == 0x0a {
                self.write_byte(byte);
            } else {
                self.write_byte(0xfe);
            }
            i = i + 1;
        }
        assert(bytes@.take(bytes@.len() as int) =~= bytes@);
    }
}

impl Default for VGAWriter {
    /// White on black over a blank screen, cursor at column 0.
    fn default() -> (w: VGAWriter)
        ensures
            w.wf(),
            w.column() == 0,
            w.color() == ColorCode(0x0f),
            w.cells() == Seq::new(BUFFER_CELLS as nat, |i: int| blank(w.color())),
    {
        VGAWriter::new(ColorCode::new(Color::White, Color::Black))
    }
}

} // verus!
