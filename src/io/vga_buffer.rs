//! Text-mode console on a memory-mapped character grid.
//!
//! The grid holds `BUFFER_HEIGHT` rows of `BUFFER_WIDTH` cells. Each cell is two
//! bytes: the code-page character, then the color byte, whose low nibble is the
//! foreground color and whose high nibble is the background color.
//!
//! The writer only ever writes on the bottom row; a newline, or a character that
//! arrives when the bottom row is full, scrolls the whole grid up by one row.
use vstd::prelude::*;
use vstd::string::StringSliceAdditionalSpecFns;
use volatile::Volatile;

verus! {

#[verifier::external_type_specification]
#[verifier::external_body]
#[verifier::reject_recursive_types(T)]
pub struct ExVolatile<T: Copy>(Volatile<T>);

/// The sixteen colors of the device: eight hues and a bright flag.
#[derive(Debug, Clone, Copy, PartialEq, Eq, Structural)]
pub enum Color {
    Black,
    Blue,
    Green,
    Cyan,
    Red,
    Magenta,
    Brown,
    LightGray,
    DarkGray,
    LightBlue,
    LightGreen,
    LightCyan,
    LightRed,
    Pink,
    Yellow,
    White,
}

impl Color {
    /// The four-bit value the device uses for this color.
    pub open spec fn code(self) -> u8 {
        match self {
            Color::Black => 0,
            Color::Blue => 1,
            Color::Green => 2,
            Color::Cyan => 3,
            Color::Red => 4,
            Color::Magenta => 5,
            Color::Brown => 6,
            Color::LightGray => 7,
            Color::DarkGray => 8,
            Color::LightBlue => 9,
            Color::LightGreen => 10,
            Color::LightCyan => 11,
            Color::LightRed => 12,
            Color::Pink => 13,
            Color::Yellow => 14,
            Color::White => 15,
        }
    }

    pub fn to_u8(self) -> (r: u8)
        ensures
            r == self.code(),
            r < 16,
    {
        match self {
            Color::Black => 0,
            Color::Blue => 1,
            Color::Green => 2,
            Color::Cyan => 3,
            Color::Red => 4,
            Color::Magenta => 5,
            Color::Brown => 6,
            Color::LightGray => 7,
            Color::DarkGray => 8,
            Color::LightBlue => 9,
            Color::LightGreen => 10,
            Color::LightCyan => 11,
            Color::LightRed => 12,
            Color::Pink => 13,
            Color::Yellow => 14,
            Color::White => 15,
        }
    }
}

/// A foreground/background pair packed into the device's color byte.
#[derive(Debug, Clone, Copy, PartialEq, Eq, Structural)]
pub struct ColorCode(u8);

/// The color byte for a pair: background in the high nibble, foreground in the low one.
pub open spec fn color_byte(foreground: Color, background: Color) -> u8 {
    (background.code() * 16 + foreground.code()) as u8
}

impl View for ColorCode {
    type V = u8;

    closed spec fn view(&self) -> u8 {
        self.0
    }
}

impl ColorCode {
    pub fn new(foreground: Color, background: Color) -> (r: ColorCode)
        ensures
            r@ == color_byte(foreground, background),
    {
        let f = foreground.to_u8();
        let b = background.to_u8();
        assert((b << 4u8) | f == b * 16 + f) by (bit_vector)
            requires
                b < 16,
                f < 16,
        ;
        ColorCode((b << 4) | f)
    }

    /// The color byte as the device stores it.
    pub fn as_u8(&self) -> (r: u8)
        ensures
            r == self@,
    {
        self.0
    }
}

/// The color a fresh console paints with: white on black.
pub open spec fn default_color(c: ColorCode) -> bool {
    c@ == color_byte(Color::White, Color::Black)
}

/// One cell of the grid, in the device's field order.
#[derive(Debug, Clone, Copy, PartialEq, Eq, Structural)]
pub struct ScreenChar {
    pub ascii_character: u8,
    pub color_code: ColorCode,
}

pub const BUFFER_HEIGHT: usize = 25;
pub const BUFFER_WIDTH: usize = 80;

/// The byte shown in place of one the code page cannot render sensibly.
pub const PLACEHOLDER: u8 = 0xfe;

/// What a volatile cell holds.
pub uninterp spec fn cell_value(v: Volatile<ScreenChar>) -> ScreenChar;

/// Relies on `volatile::Volatile::read`: a volatile load of the value the cell holds.
#[verifier::external_body]
fn load(v: &Volatile<ScreenChar>) -> (r: ScreenChar)
    ensures
        r == cell_value(*v),
{
    v.read()
}

/// Relies on `volatile::Volatile::write`: a volatile store that replaces the cell's value.
#[verifier::external_body]
fn store(v: &mut Volatile<ScreenChar>, c: ScreenChar)
    ensures
        cell_value(*final(v)) == c,
{
    v.write(c)
}

/// The character grid. Every access to a cell is volatile, since the display
/// reads the grid outside the program's control.
pub struct Buffer {
    pub chars: [[Volatile<ScreenChar>; BUFFER_WIDTH]; BUFFER_HEIGHT],
}

impl View for Buffer {
    type V = Seq<Seq<ScreenChar>>;

    open spec fn view(&self) -> Seq<Seq<ScreenChar>> {
        Seq::new(
            BUFFER_HEIGHT as nat,
            |r: int| Seq::new(BUFFER_WIDTH as nat, |c: int| cell_value(self.chars[r][c])),
        )
    }
}

impl Buffer {
    /// Reads the cell at (`row`, `col`).
    pub fn read(&self, row: usize, col: usize) -> (r: ScreenChar)
        requires
            row < BUFFER_HEIGHT,
            col < BUFFER_WIDTH,
        ensures
            r == self@[row as int][col as int],
    {
        load(&self.chars[row][col])
    }

    /// Replaces the cell at (`row`, `col`) and leaves every other cell as it was.
    pub fn write(&mut self, row: usize, col: usize, c: ScreenChar)
        requires
            row < BUFFER_HEIGHT,
            col < BUFFER_WIDTH,
        ensures
            final(self)@ == old(self)@.update(
                row as int,
                old(self)@[row as int].update(col as int, c),
            ),
    {
        store(&mut self.chars[row][col], c);
        assert(self@ =~~= old(self)@.update(
            row as int,
            old(self)@[row as int].update(col as int, c),
        ));
    }
}

/// A grid of `BUFFER_HEIGHT` rows of `BUFFER_WIDTH` cells.
pub open spec fn is_grid(g: Seq<Seq<ScreenChar>>) -> bool {
    &&& g.len() == BUFFER_HEIGHT
    &&& forall|r: int| 0 <= r < BUFFER_HEIGHT ==> (#[trigger] g[r]).len() == BUFFER_WIDTH
}

/// A space painted with `color`.
pub open spec fn blank(color: ColorCode) -> ScreenChar {
    ScreenChar { ascii_character: 0x20u8, color_code: color }
}

/// A whole row of blanks painted with `color`.
pub open spec fn blank_row(color: ColorCode) -> Seq<ScreenChar> {
    Seq::new(BUFFER_WIDTH as nat, |c: int| blank(color))
}

/// The grid moved up by one row, the top row dropped and a blank bottom row added.
pub open spec fn scrolled(g: Seq<Seq<ScreenChar>>, color: ColorCode) -> Seq<Seq<ScreenChar>> {
    g.subrange(1, g.len() as int).push(blank_row(color))
}

/// The grid with cell `col` of the bottom row replaced by `c`.
pub open spec fn put_bottom(g: Seq<Seq<ScreenChar>>, col: int, c: ScreenChar) -> Seq<Seq<ScreenChar>> {
    g.update(BUFFER_HEIGHT - 1, g[BUFFER_HEIGHT - 1].update(col, c))
}

/// Bytes that the code page renders as themselves.
pub open spec fn is_printable(b: u8) -> bool {
    0x20 <= b <= 0x7e
}

/// The byte that text output sends on for `b`.
pub open spec fn displayed(b: u8) -> u8 {
    if is_printable(b) || b == 0x0a {
        b
    } else {
        PLACEHOLDER
    }
}

/// Grid and column after one byte is written on `g` with the cursor at `col`.
pub open spec fn after_byte(g: Seq<Seq<ScreenChar>>, col: nat, color: ColorCode, b: u8) -> (
    Seq<Seq<ScreenChar>>,
    nat,
) {
    if b == 0x0a {
        (scrolled(g, color), 0)
    } else if col >= BUFFER_WIDTH {
        (put_bottom(scrolled(g, color), 0, ScreenChar { ascii_character: b, color_code: color }), 1)
    } else {
        (put_bottom(g, col as int, ScreenChar { ascii_character: b, color_code: color }), col + 1)
    }
}

/// Grid and column after the bytes `bs` are written one by one.
pub open spec fn after_bytes(g: Seq<Seq<ScreenChar>>, col: nat, color: ColorCode, bs: Seq<u8>) -> (
    Seq<Seq<ScreenChar>>,
    nat,
)
    decreases bs.len(),
{
    if bs.len() == 0 {
        (g, col)
    } else {
        let prev = after_bytes(g, col, color, bs.drop_last());
        after_byte(prev.0, prev.1, color, bs.last())
    }
}

/// The bytes that text output sends on for `bs`, each unrepresentable one replaced.
pub open spec fn displayed_bytes(bs: Seq<u8>) -> Seq<u8> {
    bs.map_values(|b: u8| displayed(b))
}

/// The console: cursor column on the bottom row, paint color, and the grid it draws on.
pub struct Writer<'a> {
    pub column_position: usize,
    pub color_code: ColorCode,
    pub buffer: &'a mut Buffer,
}

impl<'a> Writer<'a> {
    /// Grid and cursor column as one value.
    pub open spec fn screen(&self) -> (Seq<Seq<ScreenChar>>, nat) {
        ((*self.buffer)@, self.column_position as nat)
    }

    /// Writes one byte: a newline scrolls; any other byte goes to the cursor
    /// cell, after a scroll if the bottom row is full.
    pub fn write_byte(&mut self, byte: u8)
        ensures
            final(self).screen() == after_byte(
                old(self).screen().0,
                old(self).screen().1,
                old(self).color_code,
                byte,
            ),
            final(self).color_code == old(self).color_code,
            final(self).column_position <= BUFFER_WIDTH,
    {
        if byte == 0x0a {
            self.new_line();
        } else {
            if self.column_position >= BUFFER_WIDTH {
                self.new_line();
            }
            let row = BUFFER_HEIGHT - 1;
            let col = self.column_position;
            let color_code = self.color_code;
            self.buffer.write(row, col, ScreenChar { ascii_character: byte, color_code });
            self.column_position = col + 1;
        }
    }

    /// Binds a console to `buffer`, at column 0 and painting white on black.
    /// The grid keeps what it shows.
    pub fn new(buffer: &'a mut Buffer) -> (r: Writer<'a>)
        ensures
            r.column_position == 0,
            default_color(r.color_code),
            (*r.buffer)@ == (*old(buffer))@,
    {
        Writer { column_position: 0, color_code: ColorCode::new(Color::White, Color::Black), buffer }
    }

    /// Changes the color of later writes; the grid and the cursor stay as they are.
    pub fn set_color(&mut self, foreground: Color, background: Color)
        ensures
            final(self).color_code@ == color_byte(foreground, background),
            final(self).screen() == old(self).screen(),
    {
        self.color_code = ColorCode::new(foreground, background);
    }

    /// Writes the UTF-8 bytes of `s`, each byte that is neither printable ASCII
    /// nor a newline replaced by `PLACEHOLDER`.
    pub fn write_string(&mut self, s: &str)
        ensures
            final(self).screen() == after_bytes(
                old(self).screen().0,
                old(self).screen().1,
                old(self).color_code,
                displayed_bytes(s.spec_bytes()),
            ),
            final(self).color_code == old(self).color_code,
            final(self).column_position <= BUFFER_WIDTH || s.spec_bytes().len() == 0,
    {
        let bytes = s.as_bytes();
        let mut i: usize = 0;
        while i < bytes.len()
            invariant
                i <= bytes@.len(),
                bytes@ == s.spec_bytes(),
                self.color_code == old(self).color_code,
                self.screen() == after_bytes(
                    old(self).screen().0,
                    old(self).screen().1,
                    old(self).color_code,
                    displayed_bytes(bytes@.subrange(0, i as int)),
                ),
                i > 0 ==> self.column_position <= BUFFER_WIDTH,
            decreases bytes@.len() - i,
        {
            let byte = bytes[i];
            let shown = if (0x20 <= byte && byte <= 0x7e) || byte == 0x0a {
                byte
            } else {
                PLACEHOLDER
            };
            self.write_byte(shown);
            proof {
                let prefix = displayed_bytes(bytes@.subrange(0, i + 1));
                assert(prefix.drop_last() =~= displayed_bytes(bytes@.subrange(0, i as int)));
                assert(prefix.last() == shown);
            }
            i += 1;
        }
        assert(bytes@.subrange(0, i as int) =~= bytes@);
    }

    /// Moves every row up by one, blanks the bottom row in the current color,
    /// and puts the cursor at column 0.
    fn new_line(&mut self)
        ensures
            (*final(self).buffer)@ == scrolled((*old(self).buffer)@, old(self).color_code),
            final(self).column_position == 0,
            final(self).color_code == old(self).color_code,
    {
        let ghost g0 = (*self.buffer)@;
        let mut row: usize = 1;
        while row < BUFFER_HEIGHT
            invariant
                1 <= row <= BUFFER_HEIGHT,
                self.color_code == old(self).color_code,
                g0 == (*old(self).buffer)@,
                forall|r: int, c: int|
                    0 <= r < row - 1 && 0 <= c < BUFFER_WIDTH ==> (*self.buffer)@[r][c] == g0[r + 1][c],
                forall|r: int, c: int|
                    row - 1 <= r < BUFFER_HEIGHT && 0 <= c < BUFFER_WIDTH ==> (*self.buffer)@[r][c] == g0[r][c],
            decreases BUFFER_HEIGHT - row,
        {
            let mut col: usize = 0;
            while col < BUFFER_WIDTH
                invariant
                    1 <= row < BUFFER_HEIGHT,
                    col <= BUFFER_WIDTH,
                    self.color_code == old(self).color_code,
                    g0 == (*old(self).buffer)@,
                    forall|r: int, c: int|
                        0 <= r < row - 1 && 0 <= c < BUFFER_WIDTH ==> (*self.buffer)@[r][c] == g0[r + 1][c],
                    forall|c: int| 0 <= c < col ==> #[trigger] (*self.buffer)@[row - 1][c] == g0[row as int][c],
                    forall|c: int|
                        col <= c < BUFFER_WIDTH ==> #[trigger] (*self.buffer)@[row - 1][c] == g0[row - 1][c],
                    forall|r: int, c: int|
                        row <= r < BUFFER_HEIGHT && 0 <= c < BUFFER_WIDTH ==> (*self.buffer)@[r][c] == g0[r][c],
                decreases BUFFER_WIDTH - col,
            {
                let ch = self.buffer.read(row, col);
                self.buffer.write(row - 1, col, ch);
                col += 1;
            }
            row += 1;
        }
        self.clear_row(BUFFER_HEIGHT - 1);
        self.column_position = 0;
        assert((*self.buffer)@ =~~= scrolled(g0, self.color_code));
    }

    /// Fills `row` with blanks in the current color.
    fn clear_row(&mut self, row: usize)
        requires
            row < BUFFER_HEIGHT,
        ensures
            (*final(self).buffer)@ == (*old(self).buffer)@.update(row as int, blank_row(old(self).color_code)),
            final(self).column_position == old(self).column_position,
            final(self).color_code == old(self).color_code,
    {
        let space = ScreenChar { ascii_character: 0x20u8, color_code: self.color_code };
        let ghost g0 = (*self.buffer)@;
        let mut col: usize = 0;
        while col < BUFFER_WIDTH
            invariant
                col <= BUFFER_WIDTH,
                row < BUFFER_HEIGHT,
                self.column_position == old(self).column_position,
                self.color_code == old(self).color_code,
                space == blank(self.color_code),
                g0 == (*old(self).buffer)@,
                forall|c: int| 0 <= c < col ==> (*self.buffer)@[row as int][c] == space,
                forall|c: int| col <= c < BUFFER_WIDTH ==> (*self.buffer)@[row as int][c] == g0[row as int][c],
                forall|r: int, c: int|
                    0 <= r < BUFFER_HEIGHT && r != row && 0 <= c < BUFFER_WIDTH ==> (*self.buffer)@[r][c] == g0[r][c],
            decreases BUFFER_WIDTH - col,
        {
            self.buffer.write(row, col, space);
            col += 1;
        }
        assert((*self.buffer)@ =~~= g0.update(row as int, blank_row(self.color_code)));
    }
}

} // verus!
