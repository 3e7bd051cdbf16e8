//! A double-buffered command list and a controller register.
//!
//! The program writes the next command list into the first [`COMMANDS`]
//! addresses while a renderer, and the program itself, still read the
//! previous one there. A write to [`SWAP`] exchanges the two lists as a
//! whole, so neither side ever sees a list that is half written.
use vstd::prelude::*;
use crate::bus::{load_spec, Bus};

verus! {

/// Length of a command list. The lists occupy addresses `0..COMMANDS`.
pub const COMMANDS: usize = 128;

/// A write here, of any byte, exchanges the two command lists.
pub const SWAP: u16 = 128;

/// A read here reports the controller, one bit for each input line.
pub const CONTROLLER: u16 = 129;

/// Number of input lines of the controller.
pub const LINES: usize = 8;

/// `mask` if the line is active, no bit if it is not.
pub open spec fn spec_line_bit(active: bool, mask: u8) -> u8 {
    if active {
        mask
    } else {
        0
    }
}

/// The byte that reports eight input lines: line `i` in bit `i`.
pub open spec fn spec_pack(lines: Seq<bool>) -> u8 {
    spec_line_bit(lines[0], 0x01) | spec_line_bit(lines[1], 0x02) | spec_line_bit(lines[2], 0x04)
        | spec_line_bit(lines[3], 0x08) | spec_line_bit(lines[4], 0x10) | spec_line_bit(
        lines[5],
        0x20,
    ) | spec_line_bit(lines[6], 0x40) | spec_line_bit(lines[7], 0x80)
}

fn line_bit(active: bool, mask: u8) -> (byte: u8)
    ensures
        byte == spec_line_bit(active, mask),
{
    if active {
        mask
    } else {
        0
    }
}

/// Packs eight input lines into a byte, line `i` into bit `i`.
pub fn pack(lines: &[bool; 8]) -> (byte: u8)
    ensures
        byte == spec_pack(lines@),
{
    line_bit(lines[0], 0x01) | line_bit(lines[1], 0x02) | line_bit(lines[2], 0x04) | line_bit(
        lines[3],
        0x08,
    ) | line_bit(lines[4], 0x10) | line_bit(lines[5], 0x20) | line_bit(lines[6], 0x40) | line_bit(
        lines[7],
        0x80,
    )
}

/// Each input line has a bit of its own in the packed byte: bit `i` is set
/// exactly when line `i` is active, whatever the other lines do.
pub proof fn lemma_pack_one_bit_per_line(lines: Seq<bool>, i: u8)
    requires
        lines.len() == LINES,
        i < LINES,
    ensures
        (spec_pack(lines) & (1u8 << i) != 0) == lines[i as int],
{
    let (b0, b1, b2, b3) = (lines[0], lines[1], lines[2], lines[3]);
    let (b4, b5, b6, b7) = (lines[4], lines[5], lines[6], lines[7]);
    let byte = spec_pack(lines);
    let chosen = if i == 0 {
        b0
    } else if i == 1 {
        b1
    } else if i == 2 {
        b2
    } else if i == 3 {
        b3
    } else if i == 4 {
        b4
    } else if i == 5 {
        b5
    } else if i == 6 {
        b6
    } else {
        b7
    };
    assert((byte & (1u8 << i) != 0) == chosen) by (bit_vector)
        requires
            i < 8,
            byte == (if b0 { 0x01u8 } else { 0 }) | (if b1 { 0x02u8 } else { 0 }) | (if b2 {
                0x04u8
            } else {
                0
            }) | (if b3 { 0x08u8 } else { 0 }) | (if b4 { 0x10u8 } else { 0 }) | (if b5 {
                0x20u8
            } else {
                0
            }) | (if b6 { 0x40u8 } else { 0 }) | (if b7 { 0x80u8 } else { 0 }),
            chosen == (if i == 0 {
                b0
            } else if i == 1 {
                b1
            } else if i == 2 {
                b2
            } else if i == 3 {
                b3
            } else if i == 4 {
                b4
            } else if i == 5 {
                b5
            } else if i == 6 {
                b6
            } else {
                b7
            }),
    ;
}

/// The device as the bus contract sees it.
pub struct CommandState {
    /// The 64K store behind every address that is not special.
    pub memory: Seq<u8>,
    /// The list that the program is writing.
    pub pending: Seq<u8>,
    /// The list that reads return and the renderer draws.
    pub visible: Seq<u8>,
    /// The controller's input lines.
    pub lines: Seq<bool>,
}

impl CommandState {
    /// The store covers the address space, both lists are complete and the
    /// controller has all its lines.
    pub open spec fn wf(self) -> bool {
        &&& self.memory.len() == 65536
        &&& self.pending.len() == COMMANDS
        &&& self.visible.len() == COMMANDS
        &&& self.lines.len() == LINES
    }

    /// Everything zero, no line active.
    pub open spec fn initial() -> Self {
        CommandState {
            memory: Seq::new(65536, |i: int| 0u8),
            pending: Seq::new(COMMANDS as nat, |i: int| 0u8),
            visible: Seq::new(COMMANDS as nat, |i: int| 0u8),
            lines: Seq::new(LINES as nat, |i: int| false),
        }
    }

    /// This state with the two command lists exchanged.
    pub open spec fn swapped(self) -> Self {
        CommandState { pending: self.visible, visible: self.pending, ..self }
    }
}

/// The command and controller device.
pub struct CommandDevice {
    memory: [u8; 65536],
    pending: [u8; 128],
    visible: [u8; 128],
    lines: [bool; 8],
}

impl View for CommandDevice {
    type V = CommandState;

    closed spec fn view(&self) -> CommandState {
        CommandState {
            memory: self.memory@,
            pending: self.pending@,
            visible: self.visible@,
            lines: self.lines@,
        }
    }
}

impl CommandDevice {
    /// A device with everything zero and no input line active.
    pub fn new() -> (device: Self)
        ensures
            device@ == CommandState::initial(),
    {
        let device = CommandDevice {
            memory: [0u8; 65536],
            pending: [0u8; 128],
            visible: [0u8; 128],
            lines: [false; 8],
        };
        assert(device@.memory =~= CommandState::initial().memory);
        assert(device@.visible =~= CommandState::initial().visible);
        assert(device@.lines =~= CommandState::initial().lines);
        device
    }

    /// Sets the controller's input lines.
    pub fn set_lines(&mut self, lines: [bool; 8])
        ensures
            final(self)@ == (CommandState { lines: lines@, ..old(self)@ }),
    {
        self.lines = lines;
    }

    /// The command list that is on show, for the renderer.
    pub fn commands(&self) -> (list: [u8; 128])
        ensures
            list@ == self@.visible,
    {
        self.visible
    }
}

impl Bus for CommandDevice {
    open spec fn valid(state: CommandState) -> bool {
        state.wf()
    }

    open spec fn special(address: u16) -> bool {
        address < COMMANDS || address == SWAP || address == CONTROLLER
    }

    open spec fn read_byte(state: CommandState, address: u16) -> u8 {
        if address < COMMANDS {
            state.visible[address as int]
        } else if address == CONTROLLER {
            spec_pack(state.lines)
        } else {
            state.memory[address as int]
        }
    }

    open spec fn read_next(state: CommandState, address: u16) -> CommandState {
        state
    }

    open spec fn write_next(state: CommandState, address: u16, data: u8) -> CommandState {
        if address < COMMANDS {
            CommandState { pending: state.pending.update(address as int, data), ..state }
        } else if address == SWAP {
            state.swapped()
        } else {
            CommandState { memory: state.memory.update(address as int, data), ..state }
        }
    }

    /// A write below [`COMMANDS`] goes into the pending list; a write to
    /// [`SWAP`] exchanges the lists and stores nothing; every other write
    /// goes to the store.
    fn write(&mut self, address: u16, data: u8) {
        if (address as usize) < COMMANDS {
            self.pending[address as usize] = data;
        } else if address == SWAP {
            core::mem::swap(&mut self.pending, &mut self.visible);
        } else {
            self.memory[address as usize] = data;
        }
    }

    /// A read below [`COMMANDS`] comes from the visible list; a read of
    /// [`CONTROLLER`] reports the input lines; every other read comes from
    /// the store.
    fn read(&mut self, address: u16) -> (data: u8) {
        if (address as usize) < COMMANDS {
            self.visible[address as usize]
        } else if address == CONTROLLER {
            pack(&self.lines)
        } else {
            self.memory[address as usize]
        }
    }

    proof fn lemma_valid(&self) {
    }

    proof fn lemma_next_valid(state: Self::V, address: u16, data: u8) {
    }

    proof fn lemma_store(state: CommandState, address: u16, data: u8, plain: u16) {
    }
}

/// Two swaps in a row leave the device as it was: whatever bytes are
/// written to [`SWAP`], both lists, the store and the controller are back
/// where they started.
pub proof fn lemma_swap_twice_is_identity(state: CommandState, first: u8, second: u8)
    ensures
        CommandDevice::write_next(CommandDevice::write_next(state, SWAP, first), SWAP, second)
            == state,
{
}

/// A swap shows what was pending: after it, a read below [`COMMANDS`]
/// returns the byte last written to that address before the swap, and goes
/// on returning it, since reads change nothing.
pub proof fn lemma_swap_shows_pending(state: CommandState, trigger: u8, address: u16)
    requires
        address < COMMANDS,
    ensures
        ({
            let shown = CommandDevice::write_next(state, SWAP, trigger);
            &&& CommandDevice::read_byte(shown, address) == state.pending[address as int]
            &&& CommandDevice::read_next(shown, address) == shown
        }),
{
}

/// Writing a whole command list to addresses `0..COMMANDS` makes it the
/// pending list and changes nothing else.
pub proof fn lemma_load_fills_pending(state: CommandState, commands: Seq<u8>)
    requires
        state.wf(),
        commands.len() == COMMANDS,
    ensures
        load_spec::<CommandDevice>(state, commands) == (CommandState { pending: commands, ..state }),
{
    lemma_load_prefix(state, commands, COMMANDS as int);
    assert(commands.take(COMMANDS as int) =~= commands);
    let loaded = load_spec::<CommandDevice>(state, commands);
    assert(loaded.pending =~= commands);
}

/// After the first `n` commands have been written, the pending list starts
/// with them and continues as before.
proof fn lemma_load_prefix(state: CommandState, commands: Seq<u8>, n: int)
    requires
        state.wf(),
        commands.len() == COMMANDS,
        0 <= n <= COMMANDS,
    ensures
        ({
            let loaded = load_spec::<CommandDevice>(state, commands.take(n));
            &&& loaded.memory == state.memory
            &&& loaded.visible == state.visible
            &&& loaded.lines == state.lines
            &&& loaded.pending.len() == COMMANDS
            &&& forall|i: int| 0 <= i < n ==> loaded.pending[i] == commands[i]
            &&& forall|i: int| n <= i < COMMANDS ==> loaded.pending[i] == state.pending[i]
        }),
    decreases n,
{
    if n > 0 {
        lemma_load_prefix(state, commands, n - 1);
        assert(commands.take(n).drop_last() =~= commands.take(n - 1));
    }
}

/// A whole command list, written and then swapped in, is what reads of
/// addresses `0..COMMANDS` return from then on.
pub proof fn lemma_written_list_is_read_back(
    state: CommandState,
    commands: Seq<u8>,
    trigger: u8,
    address: u16,
)
    requires
        state.wf(),
        commands.len() == COMMANDS,
        address < COMMANDS,
    ensures
        ({
            let written = load_spec::<CommandDevice>(state, commands);
            let shown = CommandDevice::write_next(written, SWAP, trigger);
            &&& CommandDevice::read_byte(shown, address) == commands[address as int]
            &&& CommandDevice::read_next(shown, address) == shown
        }),
{
    lemma_load_fills_pending(state, commands);
}

} // verus!
