use vstd::prelude::*;

use crate::instruction::{decode_spec, Instruction};
use crate::machine::{MachineState, FLAG_REGISTER, MEMORY_SIZE, NPIXELS, NUM_KEYS, NUM_REGISTERS, STACK_DEPTH};

verus! {

/// A condition under which the machine cannot go on.
#[derive(Debug, Clone, Copy, PartialEq, Eq, Structural)]
pub enum Fault {
    /// The program counter leaves no room for a two-byte instruction.
    PcOutOfBounds { pc: u16 },
    /// The word at `pc` encodes no instruction.
    IllegalOpcode { opcode: u16, pc: u16 },
    /// A call with all sixteen stack slots in use.
    StackOverflow { pc: u16 },
    /// A return with an empty stack.
    StackUnderflow { pc: u16 },
    /// The instruction at `pc` would read or write past the end of memory.
    MemoryOutOfBounds { pc: u16 },
    /// The instruction at `pc` tests a key number above 15.
    InvalidKey { pc: u16, key: u8 },
}

/// The bit of sprite row `row` in column `col` (0 to 7): the most
/// significant bit is the leftmost pixel.
pub open spec fn sprite_pixel(row: u8, col: int) -> bool {
    (row >> ((7 - col) as u8)) & 1u8 == 1u8
}

/// Whether the `n`-row sprite at `m.index`, placed at `(vx, vy)`, has a set
/// bit over pixel `p`. Parts of the sprite off the display are clipped.
pub open spec fn covers(m: MachineState, vx: int, vy: int, n: int, p: int) -> bool {
    let dx = p % 64 - vx;
    let dy = p / 64 - vy;
    &&& 0 <= dx < 8
    &&& 0 <= dy < n
    &&& sprite_pixel(m.memory[m.index + dy], dx)
}

/// The display after XOR-ing the sprite onto it.
pub open spec fn drawn(m: MachineState, vx: int, vy: int, n: int) -> Seq<bool> {
    Seq::new(NPIXELS as nat, |p: int| m.graphics[p] != covers(m, vx, vy, n, p))
}

/// Whether drawing the sprite turns some lit pixel off.
pub open spec fn collision(m: MachineState, vx: int, vy: int, n: int) -> bool {
    exists|p: int| 0 <= p < NPIXELS && #[trigger] covers(m, vx, vy, n, p) && m.graphics[p]
}

/// The lowest key, from `from` up, that is held down; 16 if none is.
pub open spec fn lowest_pressed(key: Seq<u8>, from: int) -> int
    decreases NUM_KEYS - from,
{
    if from >= NUM_KEYS {
        NUM_KEYS as int
    } else if key[from] != 0 {
        from
    } else {
        lowest_pressed(key, from + 1)
    }
}

/// Memory after storing registers `0..=x` from `m.index` on.
pub open spec fn stored_registers(m: MachineState, x: int) -> Seq<u8> {
    Seq::new(
        MEMORY_SIZE as nat,
        |a: int| if m.index <= a <= m.index + x { m.reg[a - m.index] } else { m.memory[a] },
    )
}

/// Registers after loading registers `0..=x` from `m.index` on.
pub open spec fn loaded_registers(m: MachineState, x: int) -> Seq<u8> {
    Seq::new(
        NUM_REGISTERS as nat,
        |r: int| if r <= x { m.memory[m.index + r] } else { m.reg[r] },
    )
}

/// `m` with register `x` set to `v`.
pub open spec fn with_reg(m: MachineState, x: int, v: u8) -> MachineState {
    MachineState { reg: m.reg.update(x, v), ..m }
}

/// `m` with the program counter moved past the current instruction.
pub open spec fn advanced(m: MachineState) -> MachineState {
    MachineState { pc: (m.pc + 2) as u16, ..m }
}

/// `m` with the program counter moved past the current instruction, and
/// past the next one too when `cond` holds.
pub open spec fn skipped(m: MachineState, cond: bool) -> MachineState {
    MachineState { pc: (if cond { m.pc + 4 } else { m.pc + 2 }) as u16, ..m }
}

/// Whether `ins` reads or writes memory past its end in state `m`.
pub open spec fn out_of_memory(m: MachineState, ins: Instruction) -> bool {
    match ins {
        Instruction::Draw { n, .. } => m.index + n > MEMORY_SIZE,
        Instruction::StoreBcd { .. } => m.index + 3 > MEMORY_SIZE,
        Instruction::StoreRegs { x } | Instruction::LoadRegs { x } => m.index + x + 1 > MEMORY_SIZE,
        _ => false,
    }
}

/// The effect of one instruction on state `m`, before the timers tick.
/// `random` is the byte drawn for `CXNN`.
pub open spec fn execute_spec(m: MachineState, ins: Instruction, random: u8) -> Result<
    MachineState,
    Fault,
> {
    let f = FLAG_REGISTER as int;
    if out_of_memory(m, ins) {
        Err(Fault::MemoryOutOfBounds { pc: m.pc })
    } else {
        match ins {
            Instruction::ClearScreen => Ok(
                advanced(
                    MachineState {
                        graphics: Seq::new(NPIXELS as nat, |p: int| false),
                        draw_flag: true,
                        ..m
                    },
                ),
            ),
            Instruction::Return => if m.sp == 0 {
                Err(Fault::StackUnderflow { pc: m.pc })
            } else if m.sp > STACK_DEPTH {
                Err(Fault::StackOverflow { pc: m.pc })
            } else {
                Ok(
                    MachineState {
                        sp: (m.sp - 1) as u16,
                        pc: m.stack[m.sp - 1].wrapping_add(2),
                        ..m
                    },
                )
            },
            Instruction::Jump { addr } => Ok(MachineState { pc: addr, ..m }),
            Instruction::Call { addr } => if m.sp >= STACK_DEPTH {
                Err(Fault::StackOverflow { pc: m.pc })
            } else {
                Ok(
                    MachineState {
                        stack: m.stack.update(m.sp as int, m.pc),
                        sp: (m.sp + 1) as u16,
                        pc: addr,
                        ..m
                    },
                )
            },
            Instruction::SkipEqImm { x, nn } => Ok(skipped(m, m.reg[x as int] == nn)),
            Instruction::SkipNeImm { x, nn } => Ok(skipped(m, m.reg[x as int] != nn)),
            Instruction::SkipEqReg { x, y } => Ok(skipped(m, m.reg[x as int] == m.reg[y as int])),
            Instruction::LoadImm { x, nn } => Ok(advanced(with_reg(m, x as int, nn))),
            Instruction::AddImm { x, nn } => Ok(
                advanced(with_reg(m, x as int, m.reg[x as int].wrapping_add(nn))),
            ),
            Instruction::Move { x, y } => Ok(advanced(with_reg(m, x as int, m.reg[y as int]))),
            Instruction::Or { x, y } => Ok(
                advanced(with_reg(m, x as int, m.reg[x as int] | m.reg[y as int])),
            ),
            Instruction::And { x, y } => Ok(
                advanced(with_reg(m, x as int, m.reg[x as int] & m.reg[y as int])),
            ),
            Instruction::Xor { x, y } => Ok(
                advanced(with_reg(m, x as int, m.reg[x as int] ^ m.reg[y as int])),
            ),
            Instruction::AddReg { x, y } => {
                let carry: u8 = if m.reg[x as int] + m.reg[y as int] > 255 { 1 } else { 0 };
                let t = with_reg(m, f, carry);
                Ok(advanced(with_reg(t, x as int, t.reg[x as int].wrapping_add(t.reg[y as int]))))
            },
            Instruction::SubReg { x, y } => {
                let no_borrow: u8 = if m.reg[y as int] > m.reg[x as int] { 0 } else { 1 };
                let t = with_reg(m, f, no_borrow);
                Ok(advanced(with_reg(t, x as int, t.reg[x as int].wrapping_sub(t.reg[y as int]))))
            },
            Instruction::ShiftRight { x } => {
                let t = with_reg(m, f, m.reg[x as int] & 1u8);
                Ok(advanced(with_reg(t, x as int, t.reg[x as int] >> 1u8)))
            },
            Instruction::SubRev { x, y } => {
                let no_borrow: u8 = if m.reg[x as int] > m.reg[y as int] { 0 } else { 1 };
                let t = with_reg(m, f, no_borrow);
                Ok(advanced(with_reg(t, x as int, t.reg[y as int].wrapping_sub(t.reg[x as int]))))
            },
            Instruction::ShiftLeft { x } => {
                let t = with_reg(m, f, m.reg[x as int] >> 7u8);
                Ok(advanced(with_reg(t, x as int, t.reg[x as int] << 1u8)))
            },
            Instruction::SkipNeReg { x, y } => Ok(skipped(m, m.reg[x as int] != m.reg[y as int])),
            Instruction::SetIndex { addr } => Ok(advanced(MachineState { index: addr, ..m })),
            Instruction::JumpOffset { addr } => Ok(
                MachineState { pc: (addr + m.reg[0]) as u16, ..m },
            ),
            Instruction::Random { x, nn } => Ok(advanced(with_reg(m, x as int, nn & random))),
            Instruction::Draw { x, y, n } => {
                let vx = m.reg[x as int] as int;
                let vy = m.reg[y as int] as int;
                let flag: u8 = if collision(m, vx, vy, n as int) { 1 } else { 0 };
                Ok(
                    advanced(
                        MachineState {
                            graphics: drawn(m, vx, vy, n as int),
                            reg: m.reg.update(f, flag),
                            draw_flag: true,
                            ..m
                        },
                    ),
                )
            },
            Instruction::SkipKeyPressed { x } => {
                let k = m.reg[x as int];
                if k >= NUM_KEYS {
                    Err(Fault::InvalidKey { pc: m.pc, key: k })
                } else {
                    Ok(skipped(m, m.pressed(k as int)))
                }
            },
            Instruction::SkipKeyReleased { x } => {
                let k = m.reg[x as int];
                if k >= NUM_KEYS {
                    Err(Fault::InvalidKey { pc: m.pc, key: k })
                } else {
                    Ok(skipped(m, !m.pressed(k as int)))
                }
            },
            Instruction::LoadDelay { x } => Ok(advanced(with_reg(m, x as int, m.timer_delay))),
            Instruction::WaitKey { x } => {
                let k = lowest_pressed(m.key, 0);
                if k < NUM_KEYS {
                    Ok(advanced(with_reg(m, x as int, k as u8)))
                } else {
                    Ok(m)
                }
            },
            Instruction::SetDelay { x } => Ok(
                advanced(MachineState { timer_delay: m.reg[x as int], ..m }),
            ),
            Instruction::SetSound { x } => Ok(
                advanced(MachineState { timer_sound: m.reg[x as int], ..m }),
            ),
            Instruction::AddIndex { x } => Ok(
                advanced(MachineState { index: m.index.wrapping_add(m.reg[x as int] as u16), ..m }),
            ),
            Instruction::FontGlyph { x } => Ok(
                advanced(MachineState { index: (5 * m.reg[x as int]) as u16, ..m }),
            ),
            Instruction::StoreBcd { x } => {
                let v = m.reg[x as int];
                let i = m.index as int;
                Ok(
                    advanced(
                        MachineState {
                            memory: m.memory.update(i, v / 100).update(i + 1, (v / 10) % 10).update(
                                i + 2,
                                v % 10,
                            ),
                            ..m
                        },
                    ),
                )
            },
            Instruction::StoreRegs { x } => Ok(
                advanced(MachineState { memory: stored_registers(m, x as int), ..m }),
            ),
            Instruction::LoadRegs { x } => Ok(
                advanced(MachineState { reg: loaded_registers(m, x as int), ..m }),
            ),
        }
    }
}

/// The opcode at the program counter, if both of its bytes lie in memory.
pub open spec fn fetch_spec(m: MachineState) -> Option<u16> {
    if m.pc + 1 < MEMORY_SIZE {
        Some((m.memory[m.pc as int] * 256 + m.memory[m.pc + 1]) as u16)
    } else {
        None
    }
}

/// One tick of the timers: each counts down to zero, and the sound request
/// is raised exactly when the sound timer goes from 1 to 0.
pub open spec fn tick_timers(m: MachineState) -> MachineState {
    MachineState {
        timer_delay: if m.timer_delay > 0 { (m.timer_delay - 1) as u8 } else { 0 },
        timer_sound: if m.timer_sound > 0 { (m.timer_sound - 1) as u8 } else { 0 },
        make_sound: m.timer_sound == 1,
        ..m
    }
}

/// One instruction: fetch the opcode at the program counter, decode it,
/// execute it, and record it. The timers do not tick.
pub open spec fn instruction_spec(m: MachineState, random: u8) -> Result<MachineState, Fault> {
    match fetch_spec(m) {
        None => Err(Fault::PcOutOfBounds { pc: m.pc }),
        Some(op) => match decode_spec(op) {
            None => Err(Fault::IllegalOpcode { opcode: op, pc: m.pc }),
            Some(ins) => match execute_spec(m, ins, random) {
                Err(e) => Err(e),
                Ok(t) => Ok(MachineState { opcode: op, ..t }),
            },
        },
    }
}

/// One full step: one instruction, then one tick of the timers.
pub open spec fn step_spec(m: MachineState, random: u8) -> Result<MachineState, Fault> {
    match instruction_spec(m, random) {
        Err(e) => Err(e),
        Ok(t) => Ok(tick_timers(t)),
    }
}

/// Number of 60 Hz timer ticks that fall in the first `elapsed_us`
/// microseconds.
pub open spec fn ticks_in(elapsed_us: int) -> int {
    elapsed_us * 60 / 1_000_000
}

/// `after` and the result `r` of a step or an instruction agree with the
/// outcome `expected` from state `before`: on success the state is the one
/// expected, and on a fault the fault is reported and nothing changed.
pub open spec fn agrees(
    r: Result<(), Fault>,
    before: MachineState,
    after: MachineState,
    expected: Result<MachineState, Fault>,
) -> bool {
    match expected {
        Ok(m) => r is Ok && after == m,
        Err(e) => r == Err::<(), Fault>(e) && after == before,
    }
}

/// The instruction at the program counter, if it can be fetched and decoded.
pub open spec fn current_instruction(m: MachineState) -> Option<Instruction> {
    match fetch_spec(m) {
        Some(op) => decode_spec(op),
        None => None,
    }
}

} // verus!
