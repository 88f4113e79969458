use vstd::prelude::*;

use bit_vec::BitVec;

use crate::instruction::{decode, Instruction};
use crate::machine::{Chip8, MachineState, FLAG_REGISTER, MEMORY_SIZE, NPIXELS, NUM_KEYS, STACK_DEPTH};
use crate::semantics::{
    agrees, collision, covers, drawn, execute_spec, fetch_spec, instruction_spec, loaded_registers,
    lowest_pressed, sprite_pixel, step_spec, stored_registers, tick_timers, ticks_in, Fault,
};

verus! {

/// Relies on `bit_vec::BitVec::from_bytes`, which lays out each byte most
/// significant bit first, and on indexing a `BitVec` below its length (8 here).
#[verifier::external_body]
fn sprite_bit(row: u8, col: u8) -> (r: bool)
    requires
        col < 8,
    ensures
        r == sprite_pixel(row, col as int),
{
    BitVec::from_bytes(&[row])[col as usize]
}

/// Relies on `rand::random::<u8>`: a byte drawn from the thread-local
/// generator. Nothing is known of which byte.
#[verifier::external_body]
fn random_byte() -> u8 {
    rand::random::<u8>()
}

/// Pixel `p` has been visited by a draw whose loops stand at row `i`,
/// column `j`, and the sprite covers it.
spec fn drawn_before(m: MachineState, vx: int, vy: int, n: int, p: int, i: int, j: int) -> bool {
    &&& covers(m, vx, vy, n, p)
    &&& (p / 64 - vy < i || (p / 64 - vy == i && p % 64 - vx < j))
}

impl Chip8 {
    /// Reads the big-endian opcode at the program counter.
    fn fetch_opcode(&self) -> (r: Option<u16>)
        ensures
            r == fetch_spec(self@),
    {
        if self.pc as usize + 1 < MEMORY_SIZE {
            let hi = self.memory[self.pc as usize] as u16;
            let lo = self.memory[self.pc as usize + 1] as u16;
            Some(hi * 256 + lo)
        } else {
            None
        }
    }

    /// One 60 Hz tick: counts both timers down to zero, and raises the
    /// sound request exactly when the sound timer goes from 1 to 0.
    pub fn update_timers(&mut self)
        ensures
            final(self)@ == tick_timers(old(self)@),
    {
        if self.timer_delay > 0 {
            self.timer_delay = self.timer_delay - 1;
        }
        self.make_sound = false;
        if self.timer_sound > 0 {
            if self.timer_sound == 1 {
                self.make_sound = true;
            }
            self.timer_sound = self.timer_sound - 1;
        }
    }

    /// Turns every pixel off.
    fn clear_screen(&mut self)
        ensures
            final(self)@ == (MachineState {
                graphics: Seq::new(NPIXELS as nat, |p: int| false),
                ..old(self)@
            }),
    {
        let ghost m = self@;
        let mut i: usize = 0;
        while i < NPIXELS
            invariant
                i <= NPIXELS,
                self@ == (MachineState { graphics: self@.graphics, ..m }),
                forall|p: int| 0 <= p < i ==> !self@.graphics[p],
            decreases NPIXELS - i,
        {
            self.graphics[i] = false;
            i = i + 1;
        }
        assert(self@.graphics =~= Seq::new(NPIXELS as nat, |p: int| false));
    }

    /// XORs the `n`-row sprite at `index` onto the display at `(vx, vy)`,
    /// clipping what falls off it. Returns whether a lit pixel went dark.
    fn draw_sprite(&mut self, vx: u8, vy: u8, n: u8) -> (collided: bool)
        requires
            old(self).index + n <= MEMORY_SIZE,
            n < 16,
        ensures
            final(self)@ == (MachineState {
                graphics: drawn(old(self)@, vx as int, vy as int, n as int),
                ..old(self)@
            }),
            collided == collision(old(self)@, vx as int, vy as int, n as int),
    {
        let ghost m = self@;
        let ghost (gx, gy, gn) = (vx as int, vy as int, n as int);
        let mut collided = false;
        let mut i: u8 = 0;
        while i < n
            invariant
                i <= n,
                n < 16,
                m.index + n <= MEMORY_SIZE,
                m.wf(),
                gx == vx && gy == vy && gn == n,
                self@ == (MachineState { graphics: self@.graphics, ..m }),
                forall|p: int|
                    0 <= p < NPIXELS ==> self@.graphics[p] == (m.graphics[p] != drawn_before(
                        m,
                        gx,
                        gy,
                        gn,
                        p,
                        i as int,
                        0,
                    )),
                collided == (exists|p: int|
                    0 <= p < NPIXELS && #[trigger] drawn_before(m, gx, gy, gn, p, i as int, 0)
                        && m.graphics[p]),
            decreases n - i,
        {
            let row = self.memory[self.index as usize + i as usize];
            let mut j: u8 = 0;
            while j < 8
                invariant
                    i < n,
                    n < 16,
                    j <= 8,
                    m.index + n <= MEMORY_SIZE,
                    m.wf(),
                    gx == vx && gy == vy && gn == n,
                    row == m.memory[m.index + i],
                    self@ == (MachineState { graphics: self@.graphics, ..m }),
                    forall|p: int|
                        0 <= p < NPIXELS ==> self@.graphics[p] == (m.graphics[p] != drawn_before(
                            m,
                            gx,
                            gy,
                            gn,
                            p,
                            i as int,
                            j as int,
                        )),
                    collided == (exists|p: int|
                        0 <= p < NPIXELS && #[trigger] drawn_before(
                            m,
                            gx,
                            gy,
                            gn,
                            p,
                            i as int,
                            j as int,
                        ) && m.graphics[p]),
                decreases 8 - j,
            {
                let xs = vx as usize + j as usize;
                let ys = vy as usize + i as usize;
                let ghost old_collided = collided;
                let ghost a: int = 64 * ys + xs;
                let bit = if xs < 64 && ys < 32 { sprite_bit(row, j) } else { false };
                proof {
                    if xs < 64 && ys < 32 {
                        vstd::arithmetic::div_mod::lemma_fundamental_div_mod_converse(
                            a,
                            64,
                            ys as int,
                            xs as int,
                        );
                    }
                    assert forall|p: int| 0 <= p < NPIXELS implies drawn_before(
                        m,
                        gx,
                        gy,
                        gn,
                        p,
                        i as int,
                        j + 1,
                    ) == (drawn_before(m, gx, gy, gn, p, i as int, j as int) || (bit && p
                        == a)) by {
                        vstd::arithmetic::div_mod::lemma_fundamental_div_mod(p, 64);
                        vstd::arithmetic::div_mod::lemma_mod_bound(p, 64);
                        if p % 64 - gx == j && p / 64 - gy == i {
                            assert(p % 64 == xs && p / 64 == ys);
                            assert(xs < 64 && ys < 32);
                            assert(p == a);
                        }
                    }
                }
                if bit {
                    let addr = 64 * ys + xs;
                    if self.graphics[addr] {
                        collided = true;
                    }
                    self.graphics[addr] = !self.graphics[addr];
                }
                proof {
                    if bit {
                        assert(drawn_before(m, gx, gy, gn, a, i as int, j + 1));
                        assert(!drawn_before(m, gx, gy, gn, a, i as int, j as int));
                    }
                    if collided && !old_collided {
                        assert(drawn_before(m, gx, gy, gn, a, i as int, j + 1) && m.graphics[a]);
                    }
                    if old_collided {
                        let q = choose|q: int|
                            0 <= q < NPIXELS && #[trigger] drawn_before(
                                m,
                                gx,
                                gy,
                                gn,
                                q,
                                i as int,
                                j as int,
                            ) && m.graphics[q];
                        assert(drawn_before(m, gx, gy, gn, q, i as int, j + 1));
                    }
                }
                j = j + 1;
            }
            proof {
                assert forall|p: int| 0 <= p < NPIXELS implies drawn_before(
                    m,
                    gx,
                    gy,
                    gn,
                    p,
                    i + 1,
                    0,
                ) == drawn_before(m, gx, gy, gn, p, i as int, 8) by {}
            }
            i = i + 1;
        }
        proof {
            assert forall|p: int| 0 <= p < NPIXELS implies drawn_before(
                m,
                gx,
                gy,
                gn,
                p,
                gn,
                0,
            ) == covers(m, gx, gy, gn, p) by {}
            assert(self@.graphics =~= drawn(m, gx, gy, gn));
            if collided {
                let q = choose|q: int|
                    0 <= q < NPIXELS && #[trigger] drawn_before(m, gx, gy, gn, q, gn, 0)
                        && m.graphics[q];
                assert(covers(m, gx, gy, gn, q));
            }
            if collision(m, gx, gy, gn) {
                let q = choose|q: int|
                    0 <= q < NPIXELS && #[trigger] covers(m, gx, gy, gn, q) && m.graphics[q];
                assert(drawn_before(m, gx, gy, gn, q, gn, 0));
            }
        }
        collided
    }

    /// Copies registers `0..=x` to memory from `index` on.
    fn store_registers(&mut self, x: u8)
        requires
            x < 16,
            old(self).index + x + 1 <= MEMORY_SIZE,
        ensures
            final(self)@ == (MachineState {
                memory: stored_registers(old(self)@, x as int),
                ..old(self)@
            }),
    {
        let ghost m = self@;
        let base = self.index as usize;
        let mut i: usize = 0;
        while i <= x as usize
            invariant
                i <= x + 1,
                x < 16,
                base == m.index,
                m.index + x + 1 <= MEMORY_SIZE,
                m.wf(),
                self@ == (MachineState { memory: self@.memory, ..m }),
                forall|a: int|
                    0 <= a < MEMORY_SIZE ==> self@.memory[a] == if m.index <= a < m.index + i {
                        m.reg[a - m.index]
                    } else {
                        m.memory[a]
                    },
            decreases x + 1 - i,
        {
            self.memory[base + i] = self.reg[i];
            i = i + 1;
        }
        assert(self@.memory =~= stored_registers(m, x as int));
    }

    /// Fills registers `0..=x` from memory at `index` on.
    fn load_registers(&mut self, x: u8)
        requires
            x < 16,
            old(self).index + x + 1 <= MEMORY_SIZE,
        ensures
            final(self)@ == (MachineState {
                reg: loaded_registers(old(self)@, x as int),
                ..old(self)@
            }),
    {
        let ghost m = self@;
        let base = self.index as usize;
        let mut i: usize = 0;
        while i <= x as usize
            invariant
                i <= x + 1,
                x < 16,
                base == m.index,
                m.index + x + 1 <= MEMORY_SIZE,
                m.wf(),
                self@ == (MachineState { reg: self@.reg, ..m }),
                forall|r: int|
                    0 <= r < 16 ==> self@.reg[r] == if r < i {
                        m.memory[m.index + r]
                    } else {
                        m.reg[r]
                    },
            decreases x + 1 - i,
        {
            self.reg[i] = self.memory[base + i];
            i = i + 1;
        }
        assert(self@.reg =~= loaded_registers(m, x as int));
    }

    /// The lowest key that is held down, or 16 if none is.
    fn lowest_pressed_key(&self) -> (r: u8)
        ensures
            r == lowest_pressed(self@.key, 0),
    {
        let mut k: u8 = 0;
        while k < 16
            invariant
                k <= 16,
                lowest_pressed(self@.key, 0) == lowest_pressed(self@.key, k as int),
            decreases 16 - k,
        {
            if self.key[k as usize] != 0 {
                return k;
            }
            k = k + 1;
        }
        16
    }

    /// Applies one decoded instruction. `random` is the byte that `CXNN`
    /// uses. On a fault nothing changes.
    #[verifier::rlimit(40)]
    fn execute(&mut self, ins: Instruction, random: u8) -> (r: Result<(), Fault>)
        requires
            ins.wf(),
            old(self).pc + 1 < MEMORY_SIZE,
        ensures
            agrees(r, old(self)@, final(self)@, execute_spec(old(self)@, ins, random)),
    {
        let f = FLAG_REGISTER;
        let pc = self.pc;
        match ins {
            Instruction::ClearScreen => {
                self.clear_screen();
                self.draw_flag = true;
                self.pc = pc + 2;
            },
            Instruction::Return => {
                if self.sp == 0 {
                    return Err(Fault::StackUnderflow { pc });
                }
                if self.sp as usize > STACK_DEPTH {
                    return Err(Fault::StackOverflow { pc });
                }
                self.sp = self.sp - 1;
                self.pc = self.stack[self.sp as usize].wrapping_add(2);
            },
            Instruction::Jump { addr } => {
                self.pc = addr;
            },
            Instruction::Call { addr } => {
                if self.sp as usize >= STACK_DEPTH {
                    return Err(Fault::StackOverflow { pc });
                }
                self.stack[self.sp as usize] = pc;
                self.sp = self.sp + 1;
                self.pc = addr;
            },
            Instruction::SkipEqImm { x, nn } => {
                self.pc = if self.reg[x as usize] == nn { pc + 4 } else { pc + 2 };
            },
            Instruction::SkipNeImm { x, nn } => {
                self.pc = if self.reg[x as usize] != nn { pc + 4 } else { pc + 2 };
            },
            Instruction::SkipEqReg { x, y } => {
                self.pc = if self.reg[x as usize] == self.reg[y as usize] { pc + 4 } else { pc + 2 };
            },
            Instruction::LoadImm { x, nn } => {
                self.reg[x as usize] = nn;
                self.pc = pc + 2;
            },
            Instruction::AddImm { x, nn } => {
                self.reg[x as usize] = self.reg[x as usize].wrapping_add(nn);
                self.pc = pc + 2;
            },
            Instruction::Move { x, y } => {
                self.reg[x as usize] = self.reg[y as usize];
                self.pc = pc + 2;
            },
            Instruction::Or { x, y } => {
                self.reg[x as usize] = self.reg[x as usize] | self.reg[y as usize];
                self.pc = pc + 2;
            },
            Instruction::And { x, y } => {
                self.reg[x as usize] = self.reg[x as usize] & self.reg[y as usize];
                self.pc = pc + 2;
            },
            Instruction::Xor { x, y } => {
                self.reg[x as usize] = self.reg[x as usize] ^ self.reg[y as usize];
                self.pc = pc + 2;
            },
            Instruction::AddReg { x, y } => {
                let carry = self.reg[y as usize] > 255 - self.reg[x as usize];
                self.reg[f] = if carry { 1 } else { 0 };
                self.reg[x as usize] = self.reg[x as usize].wrapping_add(self.reg[y as usize]);
                self.pc = pc + 2;
            },
            Instruction::SubReg { x, y } => {
                let borrow = self.reg[y as usize] > self.reg[x as usize];
                self.reg[f] = if borrow { 0 } else { 1 };
                self.reg[x as usize] = self.reg[x as usize].wrapping_sub(self.reg[y as usize]);
                self.pc = pc + 2;
            },
            Instruction::ShiftRight { x } => {
                self.reg[f] = self.reg[x as usize] & 1;
                self.reg[x as usize] = self.reg[x as usize] >> 1u8;
                self.pc = pc + 2;
            },
            Instruction::SubRev { x, y } => {
                let borrow = self.reg[x as usize] > self.reg[y as usize];
                self.reg[f] = if borrow { 0 } else { 1 };
                self.reg[x as usize] = self.reg[y as usize].wrapping_sub(self.reg[x as usize]);
                self.pc = pc + 2;
            },
            Instruction::ShiftLeft { x } => {
                self.reg[f] = self.reg[x as usize] >> 7u8;
                self.reg[x as usize] = self.reg[x as usize] << 1u8;
                self.pc = pc + 2;
            },
            Instruction::SkipNeReg { x, y } => {
                self.pc = if self.reg[x as usize] != self.reg[y as usize] { pc + 4 } else { pc + 2 };
            },
            Instruction::SetIndex { addr } => {
                self.index = addr;
                self.pc = pc + 2;
            },
            Instruction::JumpOffset { addr } => {
                self.pc = addr + self.reg[0] as u16;
            },
            Instruction::Random { x, nn } => {
                self.reg[x as usize] = nn & random;
                self.pc = pc + 2;
            },
            Instruction::Draw { x, y, n } => {
                if self.index as usize + n as usize > MEMORY_SIZE {
                    return Err(Fault::MemoryOutOfBounds { pc });
                }
                let vx = self.reg[x as usize];
                let vy = self.reg[y as usize];
                let collided = self.draw_sprite(vx, vy, n);
                self.reg[f] = if collided { 1 } else { 0 };
                self.draw_flag = true;
                self.pc = pc + 2;
            },
            Instruction::SkipKeyPressed { x } => {
                let k = self.reg[x as usize];
                if k as usize >= NUM_KEYS {
                    return Err(Fault::InvalidKey { pc, key: k });
                }
                self.pc = if self.key[k as usize] != 0 { pc + 4 } else { pc + 2 };
            },
            Instruction::SkipKeyReleased { x } => {
                let k = self.reg[x as usize];
                if k as usize >= NUM_KEYS {
                    return Err(Fault::InvalidKey { pc, key: k });
                }
                self.pc = if self.key[k as usize] == 0 { pc + 4 } else { pc + 2 };
            },
            Instruction::LoadDelay { x } => {
                self.reg[x as usize] = self.timer_delay;
                self.pc = pc + 2;
            },
            Instruction::WaitKey { x } => {
                let k = self.lowest_pressed_key();
                if (k as usize) < NUM_KEYS {
                    self.reg[x as usize] = k;
                    self.pc = pc + 2;
                }
            },
            Instruction::SetDelay { x } => {
                self.timer_delay = self.reg[x as usize];
                self.pc = pc + 2;
            },
            Instruction::SetSound { x } => {
                self.timer_sound = self.reg[x as usize];
                self.pc = pc + 2;
            },
            Instruction::AddIndex { x } => {
                self.index = self.index.wrapping_add(self.reg[x as usize] as u16);
                self.pc = pc + 2;
            },
            Instruction::FontGlyph { x } => {
                self.index = 5 * self.reg[x as usize] as u16;
                self.pc = pc + 2;
            },
            Instruction::StoreBcd { x } => {
                if self.index as usize + 3 > MEMORY_SIZE {
                    return Err(Fault::MemoryOutOfBounds { pc });
                }
                let v = self.reg[x as usize];
                let i = self.index as usize;
                self.memory[i] = v / 100;
                self.memory[i + 1] = (v / 10) % 10;
                self.memory[i + 2] = v % 10;
                self.pc = pc + 2;
            },
            Instruction::StoreRegs { x } => {
                if self.index as usize + x as usize + 1 > MEMORY_SIZE {
                    return Err(Fault::MemoryOutOfBounds { pc });
                }
                self.store_registers(x);
                self.pc = pc + 2;
            },
            Instruction::LoadRegs { x } => {
                if self.index as usize + x as usize + 1 > MEMORY_SIZE {
                    return Err(Fault::MemoryOutOfBounds { pc });
                }
                self.load_registers(x);
                self.pc = pc + 2;
            },
        }
        proof {
            if let Ok(t) = execute_spec(old(self)@, ins, random) {
                assert(self@ =~= t);
            }
        }
        Ok(())
    }

    /// Runs one instruction with `random` as the byte that a `CXNN`
    /// instruction draws: fetch the opcode at the program counter, decode
    /// and execute it. The timers do not tick. On a fault the machine is
    /// left unchanged.
    pub fn emulate_instruction_with(&mut self, random: u8) -> (r: Result<(), Fault>)
        ensures
            agrees(r, old(self)@, final(self)@, instruction_spec(old(self)@, random)),
    {
        let op = match self.fetch_opcode() {
            Some(op) => op,
            None => {
                return Err(Fault::PcOutOfBounds { pc: self.pc });
            },
        };
        let ins = match decode(op) {
            Some(ins) => ins,
            None => {
                return Err(Fault::IllegalOpcode { opcode: op, pc: self.pc });
            },
        };
        match self.execute(ins, random) {
            Ok(()) => {},
            Err(e) => {
                return Err(e);
            },
        }
        self.opcode = op;
        Ok(())
    }

    /// Runs one instruction, drawing a fresh random byte for a `CXNN`
    /// instruction. The timers do not tick: the host ticks them with
    /// `update_timers` at 60 Hz.
    pub fn emulate_instruction(&mut self) -> (r: Result<(), Fault>)
        ensures
            exists|random: u8|
                agrees(r, old(self)@, final(self)@, instruction_spec(old(self)@, random)),
    {
        let random = random_byte();
        self.emulate_instruction_with(random)
    }

    /// Runs one step with `random` as the byte that a `CXNN` instruction
    /// draws: one instruction, then one tick of the timers. On a fault the
    /// machine is left unchanged.
    pub fn emulate_cycle_with(&mut self, random: u8) -> (r: Result<(), Fault>)
        ensures
            agrees(r, old(self)@, final(self)@, step_spec(old(self)@, random)),
    {
        let r = self.emulate_instruction_with(random);
        if r.is_ok() {
            self.update_timers();
        }
        r
    }

    /// Runs one step, drawing a fresh random byte for a `CXNN` instruction.
    /// The outcome is that of `emulate_cycle_with` for some byte.
    pub fn emulate_cycle(&mut self) -> (r: Result<(), Fault>)
        ensures
            exists|random: u8| agrees(r, old(self)@, final(self)@, step_spec(old(self)@, random)),
    {
        let random = random_byte();
        self.emulate_cycle_with(random)
    }
}

/// Number of 60 Hz timer ticks that fall in the first `elapsed_us`
/// microseconds of a run. A host that runs instructions at its own rate
/// calls `Chip8::update_timers` once for each tick that this count gains.
pub fn timer_ticks(elapsed_us: u64) -> (r: u64)
    ensures
        r == ticks_in(elapsed_us as int),
{
    let seconds = elapsed_us / 1_000_000;
    let micros = elapsed_us % 1_000_000;
    proof {
        let part = micros * 60;
        vstd::arithmetic::div_mod::lemma_fundamental_div_mod(elapsed_us as int, 1_000_000);
        vstd::arithmetic::div_mod::lemma_fundamental_div_mod(part, 1_000_000);
        vstd::arithmetic::div_mod::lemma_mod_bound(part, 1_000_000);
        vstd::arithmetic::div_mod::lemma_fundamental_div_mod_converse(
            elapsed_us * 60,
            1_000_000,
            seconds * 60 + part / 1_000_000,
            part % 1_000_000,
        );
    }
    seconds * 60 + micros * 60 / 1_000_000
}

} // verus!
