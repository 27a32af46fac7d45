use vstd::prelude::*;
use vstd::string::StringSliceAdditionalSpecFns;

verus! {

/// The sixteen text-mode colours.
#[derive(Clone, Copy, Debug, PartialEq, Eq, Structural)]
pub enum Color {
    Black,
    Blue,
    Green,
    Cyan,
    Red,
    Magenta,
    Brown,
    LightGray,
    DarkGray,
    LightBlue,
    LightGreen,
    LightCyan,
    LightRed,
    Pink,
    Yellow,
    White,
}

impl Color {
    pub open spec fn spec_value(self) -> u8 {
        match self {
            Color::Black => 0,
            Color::Blue => 1,
            Color::Green => 2,
            Color::Cyan => 3,
            Color::Red => 4,
            Color::Magenta => 5,
            Color::Brown => 6,
            Color::LightGray => 7,
            Color::DarkGray => 8,
            Color::LightBlue => 9,
            Color::LightGreen => 10,
            Color::LightCyan => 11,
            Color::LightRed => 12,
            Color::Pink => 13,
            Color::Yellow => 14,
            Color::White => 15,
        }
    }

    pub fn value(self) -> (r: u8)
        ensures
            r == self.spec_value(),
            r < 16,
    {
        match self {
            Color::Black => 0,
            Color::Blue => 1,
            Color::Green => 2,
            Color::Cyan => 3,
            Color::Red => 4,
            Color::Magenta => 5,
            Color::Brown => 6,
            Color::LightGray => 7,
            Color::DarkGray => 8,
            Color::LightBlue => 9,
            Color::LightGreen => 10,
            Color::LightCyan => 11,
            Color::LightRed => 12,
            Color::Pink => 13,
            Color::Yellow => 14,
            Color::White => 15,
        }
    }
}

/// A colour attribute byte: background in the high nibble, foreground in
/// the low one.
#[derive(Clone, Copy, Debug, PartialEq, Eq, Structural)]
pub struct ColorCode(pub u8);

impl ColorCode {
    pub fn new(foreground: Color, background: Color) -> (r: ColorCode)
        ensures
            r.0 == (background.spec_value() << 4u8) | foreground.spec_value(),
            r.0 & 0x0F == foreground.spec_value(),
            r.0 >> 4u8 == background.spec_value(),
    {
        let f = foreground.value();
        let b = background.value();
        assert(f < 16 && b < 16 ==> ((b << 4u8) | f) & 0x0F == f && ((b << 4u8) | f) >> 4u8 == b)
            by (bit_vector);
        ColorCode(b << 4 | f)
    }

    pub fn set_fg_color(&mut self, color: Color)
        ensures
            final(self).0 == (old(self).0 & 0xF0) | color.spec_value(),
            final(self).0 & 0x0F == color.spec_value(),
            final(self).0 >> 4u8 == old(self).0 >> 4u8,
    {
        let c = color.value();
        let o = self.0;
        assert(c < 16 ==> ((o & 0xF0) | c) & 0x0F == c && ((o & 0xF0) | c) >> 4u8 == o >> 4u8)
            by (bit_vector);
        self.0 = self.0 & 0xF0 | c;
    }

    pub fn set_bg_color(&mut self, color: Color)
        ensures
            final(self).0 == (color.spec_value() << 4u8) | (old(self).0 & 0x0F),
            final(self).0 >> 4u8 == color.spec_value(),
            final(self).0 & 0x0F == old(self).0 & 0x0F,
    {
        let c = color.value();
        let o = self.0;
        assert(c < 16 ==> ((c << 4u8) | (o & 0x0F)) >> 4u8 == c && ((c << 4u8) | (o & 0x0F)) & 0x0F
            == o & 0x0F) by (bit_vector);
        self.0 = c << 4 | self.0 & 0x0F;
    }
}

/// One cell of the text screen.
#[derive(Clone, Copy, Debug, PartialEq, Eq, Structural)]
pub struct ScreenChar {
    pub ascii_character: u8,
    pub color_code: ColorCode,
}

/// An empty cell: a space, white on black.
pub open spec fn blank_char() -> ScreenChar {
    ScreenChar { ascii_character: 0x20, color_code: ColorCode(0x0F) }
}

fn blank() -> (r: ScreenChar)
    ensures
        r == blank_char(),
{
    let c = ColorCode::new(Color::White, Color::Black);
    assert((0u8 << 4u8) | 15u8 == 0x0Fu8) by (bit_vector);
    ScreenChar { ascii_character: 0x20, color_code: c }
}

/// The screen moved up one line, with a blank line at the bottom.
pub open spec fn scrolled(cells: Seq<ScreenChar>, cols: nat) -> Seq<ScreenChar> {
    cells.subrange(cols as int, cells.len() as int) + Seq::new(cols, |i: int| blank_char())
}

/// The screen and cursor after a line feed: the cursor goes to the start
/// of the next line, or the screen scrolls when it is on the last one.
pub open spec fn line_feed(cells: Seq<ScreenChar>, cursor: nat, cols: nat) -> (Seq<ScreenChar>, nat) {
    if cursor >= cells.len() - cols {
        (scrolled(cells, cols), (cells.len() - cols) as nat)
    } else {
        (cells, (cursor - cursor % cols + cols) as nat)
    }
}

/// The screen and cursor after `byte` is written in `color`: a line feed
/// moves to the next line; any other byte is stored at the cursor, which
/// advances, and the screen scrolls when the cursor runs off its end.
pub open spec fn put_byte(
    cells: Seq<ScreenChar>,
    cursor: nat,
    cols: nat,
    color: ColorCode,
    byte: u8,
) -> (Seq<ScreenChar>, nat) {
    if byte == 10 {
        line_feed(cells, cursor, cols)
    } else {
        let stored = cells.update(
            cursor as int,
            ScreenChar { ascii_character: byte, color_code: color },
        );
        if cursor + 1 == cells.len() {
            (scrolled(stored, cols), (cells.len() - cols) as nat)
        } else {
            (stored, cursor + 1)
        }
    }
}

/// The screen and cursor after each of `bytes` is written in turn.
pub open spec fn put_bytes(
    cells: Seq<ScreenChar>,
    cursor: nat,
    cols: nat,
    color: ColorCode,
    bytes: Seq<u8>,
) -> (Seq<ScreenChar>, nat)
    decreases bytes.len(),
{
    if bytes.len() == 0 {
        (cells, cursor)
    } else {
        let (c, p) = put_bytes(cells, cursor, cols, color, bytes.drop_last());
        put_byte(c, p, cols, color, bytes.last())
    }
}

/// A text screen, filled left to right and top to bottom, that scrolls up
/// when the cursor runs off its last line.
pub struct Writer {
    buffer: Vec<ScreenChar>,
    num_columns: usize,
    pos: usize,
    color_code: ColorCode,
}

impl Writer {
    /// The cells, row after row.
    pub closed spec fn cells(&self) -> Seq<ScreenChar> {
        self.buffer@
    }

    pub closed spec fn columns(&self) -> nat {
        self.num_columns as nat
    }

    /// The cell the next character goes to.
    pub closed spec fn cursor(&self) -> nat {
        self.pos as nat
    }

    pub closed spec fn spec_color_code(&self) -> ColorCode {
        self.color_code
    }

    /// At least one line of at least one column, whole lines only, and the
    /// cursor on the screen.
    pub open spec fn wf(&self) -> bool {
        &&& self.columns() > 0
        &&& self.cells().len() >= self.columns()
        &&& self.cells().len() % self.columns() == 0
        &&& self.cursor() < self.cells().len()
    }

    /// A writer over `buffer`, which holds `num_lines` lines of
    /// `num_columns` cells; the cursor starts at the top left, and the colour
    /// is white on black.
    pub fn new(buffer: Vec<ScreenChar>, num_lines: usize, num_columns: usize) -> (r: Self)
        requires
            num_lines > 0,
            num_columns > 0,
            buffer@.len() == num_lines * num_columns,
        ensures
            r.wf(),
            r.cells() == buffer@,
            r.columns() == num_columns,
            r.cursor() == 0,
            r.spec_color_code() == ColorCode(0x0F),
    {
        proof {
            vstd::arithmetic::mul::lemma_mul_inequality(1, num_lines as int, num_columns as int);
            vstd::arithmetic::div_mod::lemma_mod_multiples_basic(
                num_lines as int,
                num_columns as int,
            );
        }
        let color_code = ColorCode::new(Color::White, Color::Black);
        assert((0u8 << 4u8) | 15u8 == 0x0Fu8) by (bit_vector);
        Writer { num_columns, pos: 0, buffer, color_code }
    }

    /// Moves every line up by one and blanks the last; the cursor goes to
    /// the start of the last line.
    fn scroll(&mut self)
        requires
            old(self).wf(),
        ensures
            final(self).wf(),
            final(self).cells() =~= scrolled(old(self).cells(), old(self).columns()),
            final(self).cursor() == old(self).cells().len() - old(self).columns(),
            final(self).columns() == old(self).columns(),
            final(self).spec_color_code() == old(self).spec_color_code(),
    {
        let len = self.buffer.len();
        let cols = self.num_columns;
        let cc = self.color_code;
        let ghost old_cells = self.buffer@;
        let mut i: usize = 0;
        while i < len - cols
            invariant
                self.num_columns == cols,
                self.color_code == cc,
                cols > 0,
                len % cols == 0,
                len == self.buffer@.len(),
                len == old_cells.len(),
                cols <= len,
                i <= len - cols,
                forall|k: int| 0 <= k < i ==> self.buffer@[k] == old_cells[k + cols],
                forall|k: int| i <= k < len ==> self.buffer@[k] == old_cells[k],
            decreases len - cols - i,
        {
            let c = self.buffer[i + cols];
            self.buffer.set(i, c);
            i = i + 1;
        }
        let mut j: usize = len - cols;
        while j < len
            invariant
                self.num_columns == cols,
                self.color_code == cc,
                cols > 0,
                len % cols == 0,
                len == self.buffer@.len(),
                len == old_cells.len(),
                cols <= len,
                len - cols <= j <= len,
                forall|k: int| 0 <= k < len - cols ==> self.buffer@[k] == old_cells[k + cols],
                forall|k: int| len - cols <= k < j ==> self.buffer@[k] == blank_char(),
            decreases len - j,
        {
            self.buffer.set(j, blank());
            j = j + 1;
        }
        self.pos = len - cols;
        assert(self.buffer@ =~= scrolled(old_cells, cols as nat));
    }

    /// Moves the cursor to the start of the next line, scrolling when it is
    /// on the last one.
    fn new_line(&mut self)
        requires
            old(self).wf(),
        ensures
            final(self).wf(),
            final(self).columns() == old(self).columns(),
            final(self).spec_color_code() == old(self).spec_color_code(),
            (final(self).cells(), final(self).cursor()) == line_feed(
                old(self).cells(),
                old(self).cursor(),
                old(self).columns(),
            ),
    {
        if self.pos >= self.buffer.len() - self.num_columns {
            self.scroll();
            return;
        }
        let cols = self.num_columns;
        let pos = self.pos;
        let len = self.buffer.len();
        proof {
            lemma_next_row_fits(pos as int, cols as int, len as int);
        }
        self.pos = (pos - pos % cols) + cols;
    }

    /// Puts one byte on the screen: a line feed moves to the next line, any
    /// other byte is stored at the cursor in the current colour.
    pub fn write_byte(&mut self, byte: u8)
        requires
            old(self).wf(),
        ensures
            final(self).wf(),
            final(self).columns() == old(self).columns(),
            final(self).spec_color_code() == old(self).spec_color_code(),
            (final(self).cells(), final(self).cursor()) == put_byte(
                old(self).cells(),
                old(self).cursor(),
                old(self).columns(),
                old(self).spec_color_code(),
                byte,
            ),
    {
        if byte == 10u8 {
            self.new_line();
        } else {
            let ch = ScreenChar { ascii_character: byte, color_code: self.color_code };
            let p = self.pos;
            self.buffer.set(p, ch);
            assert(p < self.buffer.len());
            self.pos = p + 1;
            if self.pos == self.buffer.len() {
                self.pos = self.pos - 1;
                self.scroll();
            }
        }
    }

    /// Puts the bytes of `s` on the screen, one after another.
    pub fn write_str(&mut self, s: &str)
        requires
            old(self).wf(),
        ensures
            final(self).wf(),
            final(self).columns() == old(self).columns(),
            final(self).spec_color_code() == old(self).spec_color_code(),
            (final(self).cells(), final(self).cursor()) == put_bytes(
                old(self).cells(),
                old(self).cursor(),
                old(self).columns(),
                old(self).spec_color_code(),
                s.spec_bytes(),
            ),
    {
        let b = s.as_bytes();
        let ghost start = (self.cells(), self.cursor());
        let mut i: usize = 0;
        while i < b.len()
            invariant
                i <= b@.len(),
                b@ == s.spec_bytes(),
                self.wf(),
                self.columns() == old(self).columns(),
                self.spec_color_code() == old(self).spec_color_code(),
                start == (old(self).cells(), old(self).cursor()),
                (self.cells(), self.cursor()) == put_bytes(
                    start.0,
                    start.1,
                    self.columns(),
                    self.spec_color_code(),
                    b@.subrange(0, i as int),
                ),
            decreases b@.len() - i,
        {
            assert(b@.subrange(0, i + 1).drop_last() =~= b@.subrange(0, i as int));
            self.write_byte(b[i]);
            i = i + 1;
        }
        assert(b@.subrange(0, b@.len() as int) =~= b@);
    }

    /// Blanks the whole screen and puts the cursor at the top left.
    pub fn clear(&mut self)
        requires
            old(self).wf(),
        ensures
            final(self).wf(),
            final(self).cells() =~= Seq::new(old(self).cells().len(), |i: int| blank_char()),
            final(self).cursor() == 0,
            final(self).columns() == old(self).columns(),
            final(self).spec_color_code() == old(self).spec_color_code(),
    {
        let len = self.buffer.len();
        let cols = self.num_columns;
        let cc = self.color_code;
        let mut i: usize = 0;
        while i < len
            invariant
                self.num_columns == cols,
                self.color_code == cc,
                cols > 0,
                len >= cols,
                len % cols == 0,
                len == self.buffer@.len(),
                i <= len,
                forall|k: int| 0 <= k < i ==> self.buffer@[k] == blank_char(),
            decreases len - i,
        {
            self.buffer.set(i, blank());
            i = i + 1;
        }
        self.pos = 0;
    }

    pub fn color_code(&self) -> (r: ColorCode)
        ensures
            r == self.spec_color_code(),
    {
        self.color_code
    }

    pub fn set_color_code(&mut self, color: ColorCode)
        ensures
            final(self).spec_color_code() == color,
            final(self).cells() == old(self).cells(),
            final(self).cursor() == old(self).cursor(),
            final(self).columns() == old(self).columns(),
    {
        self.color_code = color;
    }

    pub fn set_fg_color(&mut self, color: Color)
        ensures
            final(self).spec_color_code().0 == (old(self).spec_color_code().0 & 0xF0)
                | color.spec_value(),
            final(self).cells() == old(self).cells(),
            final(self).cursor() == old(self).cursor(),
            final(self).columns() == old(self).columns(),
    {
        self.color_code.set_fg_color(color)
    }

    pub fn set_bg_color(&mut self, color: Color)
        ensures
            final(self).spec_color_code().0 == (color.spec_value() << 4u8) | (old(
                self,
            ).spec_color_code().0 & 0x0F),
            final(self).cells() == old(self).cells(),
            final(self).cursor() == old(self).cursor(),
            final(self).columns() == old(self).columns(),
    {
        self.color_code.set_bg_color(color)
    }

    /// The cells, for copying to the display.
    pub fn cells_vec(&self) -> (r: &Vec<ScreenChar>)
        ensures
            r@ == self.cells(),
    {
        &self.buffer
    }

    /// The cursor position.
    pub fn position(&self) -> (r: usize)
        ensures
            r == self.cursor(),
    {
        self.pos
    }
}

/// On a screen of whole lines, the start of the line after the cursor's is
/// still on the screen when the cursor is above the last line.
proof fn lemma_next_row_fits(pos: int, cols: int, len: int)
    requires
        cols > 0,
        len >= cols,
        len % cols == 0,
        0 <= pos < len - cols,
    ensures
        0 <= pos % cols <= pos,
        pos - pos % cols + cols < len,
        pos - pos % cols + cols >= 0,
        (pos - pos % cols + cols) % cols == 0,
{
    vstd::arithmetic::div_mod::lemma_fundamental_div_mod(pos, cols);
    vstd::arithmetic::div_mod::lemma_fundamental_div_mod(len, cols);
    vstd::arithmetic::div_mod::lemma_mod_bound(pos, cols);
    let q = pos / cols;
    let m = len / cols;
    assert(pos - pos % cols == cols * q);
    assert(len == cols * m);
    if q + 1 >= m {
        vstd::arithmetic::mul::lemma_mul_inequality(m, q + 1, cols);
        assert(cols * (q + 1) == cols * q + cols) by (nonlinear_arith);
        assert(m * cols == cols * m) by (nonlinear_arith);
        assert((q + 1) * cols == cols * (q + 1)) by (nonlinear_arith);
    }
    assert(cols * q + cols == cols * (q + 1)) by (nonlinear_arith);
    vstd::arithmetic::div_mod::lemma_mod_multiples_basic(q + 1, cols);
    assert((q + 1) * cols == cols * (q + 1)) by (nonlinear_arith);
    assert(q >= 0) by {
        vstd::arithmetic::div_mod::lemma_div_pos_is_pos(pos, cols);
    }
}

} // verus!
