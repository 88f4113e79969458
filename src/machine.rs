use vstd::prelude::*;

verus! {

/// Bytes of addressable memory.
pub const MEMORY_SIZE: usize = 4096;

/// Number of general-purpose registers; the last one doubles as the flag register.
pub const NUM_REGISTERS: usize = 16;

/// Register that arithmetic, shift and draw instructions use to report carry,
/// borrow, shifted-out bit or collision.
pub const FLAG_REGISTER: usize = 15;

/// Depth of the call stack.
pub const STACK_DEPTH: usize = 16;

/// Number of keys on the hexadecimal keypad.
pub const NUM_KEYS: usize = 16;

/// Width of the display in pixels.
pub const WIDTH: u32 = 64;

/// Height of the display in pixels.
pub const HEIGHT: u32 = 32;

/// Number of pixels of the display, stored row by row.
pub const NPIXELS: usize = 2048;

/// Address at which programs are loaded and execution starts.
pub const PROGRAM_START: u16 = 0x200;

/// Number of bytes of the built-in font: sixteen glyphs of five bytes each.
pub const FONT_SIZE: usize = 80;

/// The largest program that fits in memory after `PROGRAM_START`.
pub const MAX_PROGRAM_SIZE: usize = 3584;

/// The built-in hexadecimal glyphs, 0 through F, five rows each.
pub open spec fn font() -> Seq<u8> {
    seq![
        0xF0u8, 0x90, 0x90, 0x90, 0xF0,
        0x20, 0x60, 0x20, 0x20, 0x70,
        0xF0, 0x10, 0xF0, 0x80, 0xF0,
        0xF0, 0x10, 0xF0, 0x10, 0xF0,
        0x90, 0x90, 0xF0, 0x10, 0x10,
        0xF0, 0x80, 0xF0, 0x10, 0xF0,
        0xF0, 0x80, 0xF0, 0x90, 0xF0,
        0xF0, 0x10, 0x20, 0x40, 0x40,
        0xF0, 0x90, 0xF0, 0x90, 0xF0,
        0xF0, 0x90, 0xF0, 0x10, 0xF0,
        0xF0, 0x90, 0xF0, 0x90, 0x90,
        0xE0, 0x90, 0xE0, 0x90, 0xE0,
        0xF0, 0x80, 0x80, 0x80, 0xF0,
        0xE0, 0x90, 0x90, 0x90, 0xE0,
        0xF0, 0x80, 0xF0, 0x80, 0xF0,
        0xF0, 0x80, 0xF0, 0x80, 0x80,
    ]
}

/// The mathematical model of a machine: every part of its state as plain values.
#[verifier::ext_equal]
pub struct MachineState {
    pub memory: Seq<u8>,
    pub reg: Seq<u8>,
    pub index: u16,
    pub pc: u16,
    pub graphics: Seq<bool>,
    pub timer_delay: u8,
    pub timer_sound: u8,
    pub stack: Seq<u16>,
    pub sp: u16,
    pub key: Seq<u8>,
    pub draw_flag: bool,
    pub make_sound: bool,
    pub opcode: u16,
}

impl MachineState {
    /// The sizes of the fixed parts of the state.
    pub open spec fn wf(self) -> bool {
        &&& self.memory.len() == MEMORY_SIZE
        &&& self.reg.len() == NUM_REGISTERS
        &&& self.graphics.len() == NPIXELS
        &&& self.stack.len() == STACK_DEPTH
        &&& self.key.len() == NUM_KEYS
    }

    /// Whether key `k` is held down.
    pub open spec fn pressed(self, k: int) -> bool {
        self.key[k] != 0
    }
}

/// A machine: memory, registers, call stack, timers, keypad and display.
///
/// The host writes `key` before each step, and reads `graphics` when
/// `draw_flag` is set (clearing the flag itself) and `make_sound` after each step.
pub struct Chip8 {
    /// Raised whenever the display changes; cleared by the host.
    pub draw_flag: bool,
    /// The opcode executed by the last successful step.
    pub opcode: u16,
    pub memory: [u8; MEMORY_SIZE],
    pub reg: [u8; NUM_REGISTERS],
    pub index: u16,
    pub pc: u16,
    /// The display, row by row; `true` is a lit pixel.
    pub graphics: [bool; NPIXELS],
    pub timer_delay: u8,
    pub timer_sound: u8,
    pub stack: [u16; STACK_DEPTH],
    /// Number of return addresses on the stack.
    pub sp: u16,
    /// One latch per key; nonzero means pressed.
    pub key: [u8; NUM_KEYS],
    /// Raised for one step when the sound timer runs down from 1 to 0.
    pub make_sound: bool,
}

impl View for Chip8 {
    type V = MachineState;

    open spec fn view(&self) -> MachineState {
        MachineState {
            memory: self.memory@,
            reg: self.reg@,
            index: self.index,
            pc: self.pc,
            graphics: self.graphics@,
            timer_delay: self.timer_delay,
            timer_sound: self.timer_sound,
            stack: self.stack@,
            sp: self.sp,
            key: self.key@,
            draw_flag: self.draw_flag,
            make_sound: self.make_sound,
            opcode: self.opcode,
        }
    }
}

/// Why a program could not be loaded.
#[derive(Debug, Clone, Copy, PartialEq, Eq, Structural)]
pub enum LoadError {
    /// The program is longer than `MAX_PROGRAM_SIZE` bytes.
    CapacityExceeded { len: usize },
}

/// The state of a freshly built machine: font in low memory, everything
/// else zero, execution at `PROGRAM_START`, and a redraw pending.
pub open spec fn initial_state() -> MachineState {
    MachineState {
        memory: Seq::new(MEMORY_SIZE as nat, |i: int| if i < FONT_SIZE { font()[i] } else { 0u8 }),
        reg: Seq::new(NUM_REGISTERS as nat, |i: int| 0u8),
        index: 0,
        pc: PROGRAM_START,
        graphics: Seq::new(NPIXELS as nat, |i: int| false),
        timer_delay: 0,
        timer_sound: 0,
        stack: Seq::new(STACK_DEPTH as nat, |i: int| 0u16),
        sp: 0,
        key: Seq::new(NUM_KEYS as nat, |i: int| 0u8),
        draw_flag: true,
        make_sound: false,
        opcode: 0,
    }
}

/// Memory after copying `game` to `PROGRAM_START`.
pub open spec fn loaded_memory(memory: Seq<u8>, game: Seq<u8>) -> Seq<u8> {
    Seq::new(
        memory.len(),
        |i: int|
            if PROGRAM_START <= i < PROGRAM_START + game.len() {
                game[i - PROGRAM_START]
            } else {
                memory[i]
            },
    )
}

impl Chip8 {
    /// Builds a machine in its initial state.
    pub fn new() -> (r: Chip8)
        ensures
            r@ == initial_state(),
    {
        let glyphs: [u8; FONT_SIZE] = [
            0xF0, 0x90, 0x90, 0x90, 0xF0,
            0x20, 0x60, 0x20, 0x20, 0x70,
            0xF0, 0x10, 0xF0, 0x80, 0xF0,
            0xF0, 0x10, 0xF0, 0x10, 0xF0,
            0x90, 0x90, 0xF0, 0x10, 0x10,
            0xF0, 0x80, 0xF0, 0x10, 0xF0,
            0xF0, 0x80, 0xF0, 0x90, 0xF0,
            0xF0, 0x10, 0x20, 0x40, 0x40,
            0xF0, 0x90, 0xF0, 0x90, 0xF0,
            0xF0, 0x90, 0xF0, 0x10, 0xF0,
            0xF0, 0x90, 0xF0, 0x90, 0x90,
            0xE0, 0x90, 0xE0, 0x90, 0xE0,
            0xF0, 0x80, 0x80, 0x80, 0xF0,
            0xE0, 0x90, 0x90, 0x90, 0xE0,
            0xF0, 0x80, 0xF0, 0x80, 0xF0,
            0xF0, 0x80, 0xF0, 0x80, 0x80,
        ];
        assert(glyphs@ =~= font());
        let mut chip = Chip8 {
            draw_flag: true,
            opcode: 0,
            memory: [0u8; MEMORY_SIZE],
            reg: [0u8; NUM_REGISTERS],
            index: 0,
            pc: PROGRAM_START,
            graphics: [false; NPIXELS],
            timer_delay: 0,
            timer_sound: 0,
            stack: [0u16; STACK_DEPTH],
            sp: 0,
            key: [0u8; NUM_KEYS],
            make_sound: false,
        };
        let ghost blank = chip@;
        let mut i: usize = 0;
        while i < FONT_SIZE
            invariant
                i <= FONT_SIZE,
                glyphs@ == font(),
                chip@ == (MachineState { memory: chip@.memory, ..blank }),
                chip@.memory.len() == MEMORY_SIZE,
                forall|k: int| 0 <= k < i ==> chip@.memory[k] == font()[k],
                forall|k: int| i <= k < MEMORY_SIZE ==> chip@.memory[k] == 0,
            decreases FONT_SIZE - i,
        {
            chip.memory[i] = glyphs[i];
            i = i + 1;
        }
        assert(chip@ =~= initial_state());
        chip
    }

    /// Copies `game` into memory from `PROGRAM_START` on, leaving the rest of
    /// the state as it was. Fails, changing nothing, when `game` is longer
    /// than `MAX_PROGRAM_SIZE`.
    pub fn load(&mut self, game: &[u8]) -> (r: Result<(), LoadError>)
        ensures
            game@.len() <= MAX_PROGRAM_SIZE ==> r is Ok && final(self)@ == (MachineState {
                memory: loaded_memory(old(self)@.memory, game@),
                ..old(self)@
            }),
            game@.len() > MAX_PROGRAM_SIZE ==> r == Err::<(), LoadError>(
                LoadError::CapacityExceeded { len: game@.len() as usize },
            ) && final(self)@ == old(self)@,
    {
        if game.len() > MAX_PROGRAM_SIZE {
            return Err(LoadError::CapacityExceeded { len: game.len() });
        }
        let ghost before = self@;
        let mut i: usize = 0;
        while i < game.len()
            invariant
                game@.len() <= MAX_PROGRAM_SIZE,
                i <= game@.len(),
                self@ == (MachineState { memory: self@.memory, ..before }),
                self@.memory.len() == MEMORY_SIZE,
                forall|k: int|
                    0 <= k < MEMORY_SIZE ==> self@.memory[k] == if PROGRAM_START <= k
                        < PROGRAM_START + i {
                        game@[k - PROGRAM_START]
                    } else {
                        before.memory[k]
                    },
            decreases game@.len() - i,
        {
            self.memory[i + 0x200] = game[i];
            i = i + 1;
        }
        assert(self@ =~= (MachineState { memory: loaded_memory(before.memory, game@), ..before }));
        Ok(())
    }

    /// Writes the latch of key `index`.
    pub fn set_key(&mut self, index: usize, pressed: bool)
        requires
            index < NUM_KEYS,
        ensures
            final(self)@ == (MachineState {
                key: old(self)@.key.update(index as int, if pressed { 1u8 } else { 0u8 }),
                ..old(self)@
            }),
    {
        self.key[index] = if pressed { 1 } else { 0 };
    }

    /// The display, row by row.
    pub fn framebuffer(&self) -> (r: &[bool; NPIXELS])
        ensures
            r@ == self@.graphics,
    {
        &self.graphics
    }
}

impl Default for Chip8 {
    fn default() -> (r: Chip8)
        ensures
            r@ == initial_state(),
    {
        Chip8::new()
    }
}

} // verus!
