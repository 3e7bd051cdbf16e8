//! A text display: 25 rows of 80 character cells, filled a row at a time,
//! and a one-key keyboard latch.
//!
//! The program composes a line in memory at [`LINE_BUFFER`] and then writes
//! a row number to [`ROW_SELECT`]. Only that write copies the line into the
//! grid: changing the line buffer afterwards does not change what is shown.
use vstd::prelude::*;
use crate::bus::Bus;

verus! {

/// Number of rows of the grid.
pub const ROWS: usize = 25;

/// Number of cells in a row.
pub const COLUMNS: usize = 80;

/// Writing a row number here copies the line buffer into that row.
pub const ROW_SELECT: u16 = 0;

/// Reading here takes the pending key, if there is one.
pub const KEYBOARD: u16 = 2;

/// Address of the first of the [`COLUMNS`] bytes that a row select copies.
pub const LINE_BUFFER: usize = 6400;

/// The code of a character on this display's keyboard: its code point, for
/// the characters that a cell can show. Other characters have none.
pub open spec fn spec_key_code(c: char) -> Option<u8> {
    if (c as u32) < 256 {
        Some(c as u8)
    } else {
        None
    }
}

/// The byte to hand to [`TextMode::press_key`] for the character `c`, if
/// the keyboard has such a key.
#[verifier::when_used_as_spec(spec_key_code)]
pub fn key_code(c: char) -> (code: Option<u8>)
    ensures
        code == spec_key_code(c),
{
    if (c as u32) < 256 {
        Some(c as u8)
    } else {
        None
    }
}

/// The text display as the bus contract sees it.
pub struct TextState {
    /// The 64K store behind every address that is not special.
    pub memory: Seq<u8>,
    /// The character grid, a sequence of rows.
    pub grid: Seq<Seq<u8>>,
    /// The byte last written to [`ROW_SELECT`].
    pub row: u8,
    /// The key that was pressed last and has not been read yet.
    pub key: Option<u8>,
    /// The row that was filled last and has not been drawn yet.
    pub redraw: Option<u8>,
}

impl TextState {
    /// The store covers the address space and the grid has its fixed shape.
    pub open spec fn wf(self) -> bool {
        &&& self.memory.len() == 65536
        &&& self.grid.len() == ROWS
        &&& forall|i: int| 0 <= i < ROWS ==> (#[trigger] self.grid[i]).len() == COLUMNS
    }

    /// The bytes that the next row select would copy.
    pub open spec fn line(self) -> Seq<u8> {
        self.memory.subrange(LINE_BUFFER as int, LINE_BUFFER + COLUMNS)
    }

    /// The display when it is switched on: an empty store, no key, nothing
    /// to draw, and a test pattern in the grid.
    pub open spec fn initial() -> Self {
        TextState {
            memory: Seq::new(65536, |i: int| 0u8),
            grid: Seq::new(ROWS as nat, |i: int| Seq::new(COLUMNS as nat, |j: int| (28 + i + j) as u8)),
            row: 0,
            key: None,
            redraw: None,
        }
    }
}

/// The text display.
pub struct TextMode {
    memory: [u8; 65536],
    vram: [[u8; 80]; 25],
    row: u8,
    key: Option<u8>,
    redraw: Option<u8>,
}

impl View for TextMode {
    type V = TextState;

    closed spec fn view(&self) -> TextState {
        TextState {
            memory: self.memory@,
            grid: Seq::new(ROWS as nat, |i: int| self.vram@[i]@),
            row: self.row,
            key: self.key,
            redraw: self.redraw,
        }
    }
}

impl TextMode {
    #[verifier::type_invariant]
    spec fn redraw_in_grid(self) -> bool {
        self.redraw matches Some(row) ==> row < ROWS
    }

    /// A display that has just been switched on.
    pub fn new() -> (display: Self)
        ensures
            display@ == TextState::initial(),
    {
        let mut vram = [[0u8; 80]; 25];
        let mut i: usize = 0;
        while i < ROWS
            invariant
                i <= ROWS,
                forall|a: int, b: int|
                    0 <= a < i && 0 <= b < COLUMNS ==> (#[trigger] vram@[a]@[b]) == 28 + a + b,
            decreases ROWS - i,
        {
            let mut line = [0u8; 80];
            let mut j: usize = 0;
            while j < COLUMNS
                invariant
                    i < ROWS,
                    j <= COLUMNS,
                    forall|b: int| 0 <= b < j ==> (#[trigger] line@[b]) == 28 + i + b,
                decreases COLUMNS - j,
            {
                line[j] = (28 + i + j) as u8;
                j += 1;
            }
            vram[i] = line;
            i += 1;
        }
        let display = TextMode { memory: [0u8; 65536], vram, row: 0, key: None, redraw: None };
        assert(display@.memory =~= TextState::initial().memory);
        assert(display@.grid =~~= TextState::initial().grid);
        display
    }

    /// Hands the display a key press. It replaces a key that has not been
    /// read yet.
    pub fn press_key(&mut self, code: u8)
        ensures
            final(self)@ == (TextState { key: Some(code), ..old(self)@ }),
    {
        proof {
            use_type_invariant(&*self);
        }
        self.key = Some(code);
    }

    /// The row that was filled last and has not been taken yet. Taking it
    /// leaves nothing to draw until the next row select.
    pub fn take_redraw(&mut self) -> (row: Option<u8>)
        ensures
            row == old(self)@.redraw,
            row matches Some(index) ==> index < ROWS,
            final(self)@ == (TextState { redraw: None, ..old(self)@ }),
    {
        proof {
            use_type_invariant(&*self);
        }
        let row = self.redraw;
        self.redraw = None;
        row
    }

    /// The key that was pressed and has not been read yet.
    pub fn pending_key(&self) -> (key: Option<u8>)
        ensures
            key == self@.key,
    {
        self.key
    }

    /// The byte last written to [`ROW_SELECT`].
    pub fn row(&self) -> (row: u8)
        ensures
            row == self@.row,
    {
        self.row
    }

    /// The cells of row `row` of the grid.
    pub fn line(&self, row: u8) -> (cells: [u8; 80])
        requires
            row < ROWS,
        ensures
            cells@ == self@.grid[row as int],
    {
        self.vram[row as usize]
    }

    /// Row `row` of the grid as characters: each cell is the code point of
    /// its character.
    pub fn line_text(&self, row: u8) -> (text: Vec<char>)
        requires
            row < ROWS,
        ensures
            text@.len() == COLUMNS,
            forall|j: int| 0 <= j < COLUMNS ==> text@[j] as int == self@.grid[row as int][j] as int,
    {
        let cells = &self.vram[row as usize];
        let mut text: Vec<char> = Vec::new();
        let mut j: usize = 0;
        while j < COLUMNS
            invariant
                j <= COLUMNS,
                text@.len() == j,
                forall|b: int| 0 <= b < j ==> text@[b] as int == cells@[b] as int,
            decreases COLUMNS - j,
        {
            text.push(cells[j] as char);
            j += 1;
        }
        text
    }
}

impl Bus for TextMode {
    open spec fn valid(state: TextState) -> bool {
        state.wf()
    }

    open spec fn special(address: u16) -> bool {
        address == ROW_SELECT || address == KEYBOARD
    }

    open spec fn read_byte(state: TextState, address: u16) -> u8 {
        if address == KEYBOARD && state.key is Some {
            state.key->0
        } else {
            state.memory[address as int]
        }
    }

    open spec fn read_next(state: TextState, address: u16) -> TextState {
        if address == KEYBOARD {
            TextState { key: None, ..state }
        } else {
            state
        }
    }

    open spec fn write_next(state: TextState, address: u16, data: u8) -> TextState {
        if address != ROW_SELECT {
            TextState { memory: state.memory.update(address as int, data), ..state }
        } else if data < ROWS {
            TextState {
                grid: state.grid.update(data as int, state.line()),
                row: data,
                redraw: Some(data),
                ..state
            }
        } else {
            TextState { row: data, ..state }
        }
    }

    /// A write to [`ROW_SELECT`] remembers the row number and, if the grid
    /// has such a row, copies the line buffer into it and marks it for
    /// drawing. The store does not see that write. Every other write goes to
    /// the store.
    fn write(&mut self, address: u16, data: u8) {
        proof {
            use_type_invariant(&*self);
        }
        if address == ROW_SELECT {
            self.row = data;
            if (data as usize) < ROWS {
                let mut line = [0u8; 80];
                let mut j: usize = 0;
                while j < COLUMNS
                    invariant
                        j <= COLUMNS,
                        forall|b: int| 0 <= b < j ==> (#[trigger] line@[b]) == self.memory@[LINE_BUFFER + b],
                    decreases COLUMNS - j,
                {
                    line[j] = self.memory[LINE_BUFFER + j];
                    j += 1;
                }
                self.vram[data as usize] = line;
                self.redraw = Some(data);
                assert(self@.grid =~~= old(self)@.grid.update(data as int, old(self)@.line()));
            }
        } else {
            self.memory[address as usize] = data;
        }
    }

    /// A read of [`KEYBOARD`] returns the pending key and forgets it; with
    /// no key pending it returns what the store holds there. Every other
    /// read comes from the store.
    fn read(&mut self, address: u16) -> (data: u8) {
        proof {
            use_type_invariant(&*self);
        }
        if address == KEYBOARD {
            let pending = self.key;
            self.key = None;
            match pending {
                Some(code) => code,
                None => self.memory[KEYBOARD as usize],
            }
        } else {
            self.memory[address as usize]
        }
    }

    proof fn lemma_valid(&self) {
    }

    proof fn lemma_next_valid(state: Self::V, address: u16, data: u8) {
    }

    proof fn lemma_store(state: TextState, address: u16, data: u8, plain: u16) {
    }
}

/// The row marked for drawing is always a row of the grid: reads and
/// writes keep it so.
pub proof fn lemma_redraw_stays_in_grid(state: TextState, address: u16, data: u8)
    requires
        state.redraw matches Some(row) ==> row < ROWS,
    ensures
        TextMode::write_next(state, address, data).redraw matches Some(row) ==> row < ROWS,
        TextMode::read_next(state, address).redraw == state.redraw,
        TextState::initial().redraw is None,
{
}

/// A key is read once: the read of [`KEYBOARD`] that returns it also takes
/// it away, and until another key is pressed the keyboard reads as the byte
/// that the store holds at that address. No other read takes the key.
pub proof fn lemma_key_is_read_once(state: TextState, code: u8, address: u16)
    requires
        state.wf(),
        state.key == Some(code),
    ensures
        TextMode::read_byte(state, KEYBOARD) == code,
        TextMode::read_byte(TextMode::read_next(state, KEYBOARD), KEYBOARD)
            == state.memory[KEYBOARD as int],
        address != KEYBOARD ==> TextMode::read_next(state, address) == state,
{
}

/// The grid changes only when a row is selected: a write to any other
/// address, the line buffer included, leaves every cell as it was, and so
/// does every read.
pub proof fn lemma_grid_waits_for_select(state: TextState, address: u16, data: u8)
    ensures
        address != ROW_SELECT ==> TextMode::write_next(state, address, data).grid == state.grid,
        TextMode::read_next(state, address).grid == state.grid,
{
}

/// Selecting a row of the grid copies the line buffer into that row, marks
/// it for drawing and leaves the other rows and the store alone; selecting
/// a row that the grid does not have changes no cell.
pub proof fn lemma_select_copies_line(state: TextState, row: u8)
    requires
        state.wf(),
    ensures
        ({
            let next = TextMode::write_next(state, ROW_SELECT, row);
            &&& next.wf()
            &&& next.row == row
            &&& next.memory == state.memory
            &&& next.key == state.key
            &&& row < ROWS ==> {
                &&& next.redraw == Some(row)
                &&& forall|j: int| 0 <= j < COLUMNS ==> next.grid[row as int][j] == state.memory[LINE_BUFFER + j]
                &&& forall|i: int| 0 <= i < ROWS && i != row ==> next.grid[i] == state.grid[i]
            }
            &&& row >= ROWS ==> next.grid == state.grid && next.redraw == state.redraw
        }),
{
}

} // verus!
