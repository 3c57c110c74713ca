//! The text screen as a grid of cells with a cursor: what writing a character,
//! scrolling and clearing do to it, and how the hardware cursor is told.

use vstd::prelude::*;
use vstd::string::StringSliceAdditionalSpecFns;
use crate::display::{Glyph, DEFAULT_COLOR, TEXT_TITLE, TITLE_COLOR};
use crate::routing::PortWrite;

verus! {

/// Cells in a row.
pub const COLUMNS: usize = 80;

/// Rows on the screen.
pub const ROWS: usize = 25;

/// Cells on the screen.
pub const CELLS: usize = 2000;

/// A space in the default colour.
pub const BLANK: u16 = 0x0F20;

/// Columns at the start of a line that a backspace leaves alone: the prompt's.
pub const PROMPT_WIDTH: usize = 2;

/// Index register of the display controller.
pub const CURSOR_INDEX_PORT: u16 = 0x3D4;

/// Data register of the display controller.
pub const CURSOR_DATA_PORT: u16 = 0x3D5;

/// The screen: 25 rows of 80 cells, the first row a title bar, and the cursor.
#[derive(Clone, Copy, Debug)]
pub struct Screen {
    cells: [u16; 2000],
    x: usize,
    y: usize,
}

/// The screen as plain values.
pub struct ScreenModel {
    pub cells: Seq<u16>,
    pub x: int,
    pub y: int,
}

impl View for Screen {
    type V = ScreenModel;

    closed spec fn view(&self) -> ScreenModel {
        ScreenModel { cells: self.cells@, x: self.x as int, y: self.y as int }
    }
}

/// The cell that shows a character in a colour.
pub open spec fn cell_of(ch: u8, attr: u16) -> u16 {
    attr | (ch as u16)
}

/// A screen is in order when it has its 2000 cells and the cursor is on it.
pub open spec fn in_order(s: ScreenModel) -> bool {
    s.cells.len() == 2000 && 0 <= s.x < 80 && 0 <= s.y < 25
}

/// The screen after its text rows moved up by one: the title bar stays, the second
/// row is lost, the last row is blank and holds the cursor.
pub open spec fn scrolled(s: ScreenModel) -> ScreenModel {
    ScreenModel {
        cells: Seq::new(
            2000,
            |i: int|
                if i < 80 {
                    s.cells[i]
                } else if i < 1920 {
                    s.cells[i + 80]
                } else {
                    BLANK
                },
        ),
        y: 24,
        ..s
    }
}

/// The screen after one character was written at the cursor. A newline moves to the
/// next row; a backspace steps back and blanks a cell unless it would eat the
/// prompt; anything else is shown and moves the cursor on. A full row wraps, and a
/// cursor that leaves the last row scrolls the screen.
pub open spec fn written(s: ScreenModel, ch: u8, attr: u16) -> ScreenModel {
    let moved = if ch == 0x0A {
        ScreenModel { x: 0, y: s.y + 1, ..s }
    } else if ch == 0x08 {
        if s.x > 2 {
            ScreenModel { cells: s.cells.update(s.y * 80 + s.x - 1, BLANK), x: s.x - 1, ..s }
        } else {
            s
        }
    } else {
        ScreenModel { cells: s.cells.update(s.y * 80 + s.x, cell_of(ch, attr)), x: s.x + 1, ..s }
    };
    let wrapped = if moved.x >= 80 {
        ScreenModel { x: 0, y: moved.y + 1, ..moved }
    } else {
        moved
    };
    if wrapped.y >= 25 {
        scrolled(wrapped)
    } else {
        wrapped
    }
}

/// The screen after a run of characters was written, first to last.
pub open spec fn printed(s: ScreenModel, glyphs: Seq<Glyph>) -> ScreenModel
    decreases glyphs.len(),
{
    if glyphs.len() == 0 {
        s
    } else {
        written(printed(s, glyphs.drop_last()), glyphs.last().ch, glyphs.last().attr)
    }
}

/// The screen after it was cleared: the title bar stays, every other cell is blank,
/// the cursor stands at the start of the second row.
pub open spec fn cleared(s: ScreenModel) -> ScreenModel {
    ScreenModel {
        cells: Seq::new(2000, |i: int| if i < 80 { s.cells[i] } else { BLANK }),
        x: 0,
        y: 1,
    }
}

/// The screen at start-up: the title at the left of the title bar, blanks
/// everywhere else, the cursor at the start of the second row.
pub open spec fn booted() -> ScreenModel {
    ScreenModel {
        cells: Seq::new(
            2000,
            |i: int|
                if i < TEXT_TITLE.spec_bytes().len() {
                    cell_of(TEXT_TITLE.spec_bytes()[i], TITLE_COLOR)
                } else {
                    BLANK
                },
        ),
        x: 0,
        y: 1,
    }
}

/// The four writes that put the hardware cursor where the screen's cursor is: the
/// low byte of the cell's index into register 15, the high byte into register 14.
pub open spec fn cursor_sequence(s: ScreenModel) -> Seq<PortWrite> {
    seq![
        PortWrite { port: CURSOR_INDEX_PORT, value: 0x0F },
        PortWrite { port: CURSOR_DATA_PORT, value: ((s.y * 80 + s.x) % 256) as u8 },
        PortWrite { port: CURSOR_INDEX_PORT, value: 0x0E },
        PortWrite { port: CURSOR_DATA_PORT, value: ((s.y * 80 + s.x) / 256) as u8 },
    ]
}

/// Writing a character keeps the screen in order.
pub proof fn law_written_in_order(s: ScreenModel, ch: u8, attr: u16)
    requires
        in_order(s),
    ensures
        in_order(written(s, ch, attr)),
{
}

/// Printing keeps the screen in order.
pub proof fn law_printed_in_order(s: ScreenModel, glyphs: Seq<Glyph>)
    requires
        in_order(s),
    ensures
        in_order(printed(s, glyphs)),
    decreases glyphs.len(),
{
    if glyphs.len() > 0 {
        law_printed_in_order(s, glyphs.drop_last());
        law_written_in_order(
            printed(s, glyphs.drop_last()),
            glyphs.last().ch,
            glyphs.last().attr,
        );
    }
}

impl Screen {
    #[verifier::type_invariant]
    spec fn cursor_on_screen(self) -> bool {
        self.x < 80 && self.y < 25
    }

    /// The screen as the kernel first draws it.
    pub fn boot() -> (screen: Screen)
        ensures
            screen@ == booted(),
            in_order(screen@),
    {
        let mut cells: [u16; 2000] = [BLANK; 2000];
        let title = TEXT_TITLE.as_bytes();
        let mut i: usize = 0;
        while i < title.len() && i < CELLS
            invariant
                i <= title@.len(),
                i <= 2000,
                title@ == TEXT_TITLE.spec_bytes(),
                forall|k: int| 0 <= k < i ==> cells@[k] == cell_of(title@[k], TITLE_COLOR),
                forall|k: int| i <= k < 2000 ==> cells@[k] == BLANK,
            decreases title@.len() - i,
        {
            cells[i] = TITLE_COLOR | (title[i] as u16);
            i += 1;
        }
        proof {
            reveal_strlit("--- KING OS v0.0.1 (STABLE) ---");
            vstd::string::is_ascii_spec_bytes(TEXT_TITLE);
        }
        let screen = Screen { cells, x: 0, y: 1 };
        assert(screen@.cells =~= booted().cells);
        screen
    }

    /// The cells, row by row.
    pub fn cells(&self) -> (cells: &[u16; 2000])
        ensures
            cells@ == self@.cells,
    {
        &self.cells
    }

    /// The cursor's column and row.
    pub fn cursor(&self) -> (at: (usize, usize))
        ensures
            at.0 == self@.x,
            at.1 == self@.y,
            in_order(self@),
    {
        proof {
            use_type_invariant(self);
        }
        (self.x, self.y)
    }

    /// Moves the text rows up by one and blanks the last row.
    pub fn scroll(&mut self)
        ensures
            final(self)@ == scrolled(old(self)@),
    {
        proof {
            use_type_invariant(&*self);
        }
        self.y = 24;
        let mut i: usize = 80;
        while i < 1920
            invariant
                80 <= i <= 1920,
                self.x == old(self).x,
                self.x < 80,
                self.y == 24,
                forall|k: int| 0 <= k < 80 ==> self.cells@[k] == old(self).cells@[k],
                forall|k: int| 80 <= k < i ==> self.cells@[k] == old(self).cells@[k + 80],
                forall|k: int| i <= k < 2000 ==> self.cells@[k] == old(self).cells@[k],
            decreases 1920 - i,
        {
            self.cells[i] = self.cells[i + 80];
            i += 1;
        }
        while i < 2000
            invariant
                1920 <= i <= 2000,
                self.x == old(self).x,
                self.x < 80,
                self.y == 24,
                forall|k: int| 0 <= k < 80 ==> self.cells@[k] == old(self).cells@[k],
                forall|k: int| 80 <= k < 1920 ==> self.cells@[k] == old(self).cells@[k + 80],
                forall|k: int| 1920 <= k < i ==> self.cells@[k] == BLANK,
            decreases 2000 - i,
        {
            self.cells[i] = BLANK;
            i += 1;
        }
        assert(self@.cells =~= scrolled(old(self)@).cells);
    }

    /// Writes one character at the cursor.
    pub fn putchar_attr(&mut self, ch: u8, attr: u16)
        ensures
            final(self)@ == written(old(self)@, ch, attr),
            in_order(final(self)@),
    {
        proof {
            use_type_invariant(&*self);
        }
        let mut x: usize = self.x;
        let mut y: usize = self.y;
        if ch == 0x0A {
            x = 0;
            y = y + 1;
        } else if ch == 0x08 {
            if x > PROMPT_WIDTH {
                x = x - 1;
                self.cells[y * 80 + x] = BLANK;
            }
        } else {
            self.cells[y * 80 + x] = attr | (ch as u16);
            x = x + 1;
        }
        if x >= COLUMNS {
            x = 0;
            y = y + 1;
        }
        if y >= ROWS {
            self.x = x;
            self.scroll();
        } else {
            self.x = x;
            self.y = y;
        }
    }

    /// Writes one character in the default colour.
    pub fn putchar(&mut self, ch: u8)
        ensures
            final(self)@ == written(old(self)@, ch, DEFAULT_COLOR),
    {
        self.putchar_attr(ch, DEFAULT_COLOR);
    }

    /// Writes a run of characters, each in its colour.
    pub fn print(&mut self, glyphs: &Vec<Glyph>)
        ensures
            final(self)@ == printed(old(self)@, glyphs@),
    {
        let mut i: usize = 0;
        while i < glyphs.len()
            invariant
                i <= glyphs@.len(),
                self@ == printed(old(self)@, glyphs@.subrange(0, i as int)),
            decreases glyphs@.len() - i,
        {
            assert(glyphs@.subrange(0, i + 1).drop_last() =~= glyphs@.subrange(0, i as int));
            let g = glyphs[i];
            self.putchar_attr(g.ch, g.attr);
            i += 1;
        }
        assert(glyphs@.subrange(0, glyphs@.len() as int) =~= glyphs@);
    }

    /// Blanks everything under the title bar and homes the cursor.
    pub fn clear(&mut self)
        ensures
            final(self)@ == cleared(old(self)@),
    {
        proof {
            use_type_invariant(&*self);
        }
        self.x = 0;
        self.y = 1;
        let mut i: usize = 80;
        while i < 2000
            invariant
                80 <= i <= 2000,
                self.x == 0,
                self.y == 1,
                forall|k: int| 0 <= k < 80 ==> self.cells@[k] == old(self).cells@[k],
                forall|k: int| 80 <= k < i ==> self.cells@[k] == BLANK,
            decreases 2000 - i,
        {
            self.cells[i] = BLANK;
            i += 1;
        }
        assert(self@.cells =~= cleared(old(self)@).cells);
    }

    /// Lists the port writes that move the hardware cursor to the screen's cursor.
    pub fn update_hardware_cursor(&self) -> (writes: [PortWrite; 4])
        ensures
            writes@ == cursor_sequence(self@),
    {
        proof {
            use_type_invariant(self);
        }
        let pos: usize = self.y * 80 + self.x;
        let writes: [PortWrite; 4] = [
            PortWrite { port: CURSOR_INDEX_PORT, value: 0x0F },
            PortWrite { port: CURSOR_DATA_PORT, value: (pos % 256) as u8 },
            PortWrite { port: CURSOR_INDEX_PORT, value: 0x0E },
            PortWrite { port: CURSOR_DATA_PORT, value: (pos / 256) as u8 },
        ];
        assert(writes@ =~= cursor_sequence(self@));
        writes
    }
}

} // verus!
