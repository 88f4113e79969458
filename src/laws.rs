use vstd::prelude::*;

use crate::instruction::{decode_spec, Instruction};
use crate::machine::{MachineState, FLAG_REGISTER, NPIXELS, NUM_KEYS};
use crate::semantics::{
    collision, covers, current_instruction, execute_spec, fetch_spec, lowest_pressed, step_spec,
    Fault,
};

verus! {

/// Whether `ins` picks the next program counter itself: jumps, calls,
/// returns and conditional skips.
pub open spec fn redirects_control(ins: Instruction) -> bool {
    match ins {
        Instruction::Return | Instruction::Jump { .. } | Instruction::Call { .. }
        | Instruction::JumpOffset { .. } | Instruction::SkipEqImm { .. }
        | Instruction::SkipNeImm { .. } | Instruction::SkipEqReg { .. }
        | Instruction::SkipNeReg { .. } | Instruction::SkipKeyPressed { .. }
        | Instruction::SkipKeyReleased { .. } => true,
        _ => false,
    }
}

/// Whether `ins` waits for a key while none is pressed in `m`.
pub open spec fn is_waiting(m: MachineState, ins: Instruction) -> bool {
    ins is WaitKey && lowest_pressed(m.key, 0) == NUM_KEYS
}

/// The key scan finds the lowest pressed key from `from` up, or 16.
pub proof fn lemma_lowest_pressed(key: Seq<u8>, from: int)
    requires
        0 <= from <= NUM_KEYS,
    ensures
        from <= lowest_pressed(key, from) <= NUM_KEYS,
        lowest_pressed(key, from) < NUM_KEYS ==> key[lowest_pressed(key, from)] != 0,
        forall|j: int| from <= j < lowest_pressed(key, from) ==> key[j] == 0,
    decreases NUM_KEYS - from,
{
    if from < NUM_KEYS && key[from] == 0 {
        lemma_lowest_pressed(key, from + 1);
    }
}

/// A step that executes an instruction other than a jump, call, return or
/// skip, and is not waiting for a key, moves the program counter forward by
/// exactly two.
pub proof fn lemma_pc_advances_by_two(m: MachineState, random: u8)
    requires
        m.wf(),
        step_spec(m, random) is Ok,
        !redirects_control(current_instruction(m)->Some_0),
        !is_waiting(m, current_instruction(m)->Some_0),
    ensures
        step_spec(m, random)->Ok_0.pc == m.pc + 2,
{
    let op = fetch_spec(m)->Some_0;
    let ins = decode_spec(op)->Some_0;
    let t = execute_spec(m, ins, random)->Ok_0;
    assert(m.pc + 2 < 65536);
    match ins {
        Instruction::WaitKey { x } => {
            lemma_lowest_pressed(m.key, 0);
            assert(lowest_pressed(m.key, 0) < NUM_KEYS);
            assert(t.pc == m.pc + 2);
        },
        _ => {
            assert(t.pc == m.pc + 2);
        },
    }
}

/// Executing `00E0` leaves every pixel unlit and raises the redraw flag.
pub proof fn lemma_clear_screen_blanks_display(m: MachineState, random: u8)
    requires
        m.wf(),
        fetch_spec(m) == Some(0x00E0u16),
    ensures
        step_spec(m, random) is Ok,
        step_spec(m, random)->Ok_0.graphics.len() == NPIXELS,
        forall|p: int| 0 <= p < NPIXELS ==> !step_spec(m, random)->Ok_0.graphics[p],
        step_spec(m, random)->Ok_0.draw_flag,
{
    assert(decode_spec(0x00E0u16) == Some(Instruction::ClearScreen));
}

/// Drawing a sprite twice at the same place restores the display; the
/// second draw reports a collision exactly when the first lit some pixel.
/// The position registers must not be the flag register, which the first
/// draw overwrites.
pub proof fn lemma_draw_twice_restores(m: MachineState, x: u8, y: u8, n: u8, random: u8)
    requires
        m.wf(),
        x < FLAG_REGISTER,
        y < FLAG_REGISTER,
        n < 16,
        execute_spec(m, Instruction::Draw { x, y, n }, random) is Ok,
    ensures
        ({
            let once = execute_spec(m, Instruction::Draw { x, y, n }, random)->Ok_0;
            let vx = m.reg[x as int] as int;
            let vy = m.reg[y as int] as int;
            &&& execute_spec(once, Instruction::Draw { x, y, n }, random) is Ok
            &&& execute_spec(once, Instruction::Draw { x, y, n }, random)->Ok_0.graphics
                == m.graphics
            &&& (execute_spec(once, Instruction::Draw { x, y, n }, random)->Ok_0.reg[
                FLAG_REGISTER as int] == 1 <==> exists|p: int|
                0 <= p < NPIXELS && #[trigger] covers(m, vx, vy, n as int, p) && !m.graphics[p])
        }),
{
    let ins = Instruction::Draw { x, y, n };
    let once = execute_spec(m, ins, random)->Ok_0;
    let twice = execute_spec(once, ins, random)->Ok_0;
    let vx = m.reg[x as int] as int;
    let vy = m.reg[y as int] as int;
    assert(once.reg[x as int] == m.reg[x as int]);
    assert(once.reg[y as int] == m.reg[y as int]);
    assert forall|p: int| 0 <= p < NPIXELS implies #[trigger] covers(once, vx, vy, n as int, p)
        == covers(m, vx, vy, n as int, p) by {}
    assert(twice.graphics =~= m.graphics);
    if collision(once, vx, vy, n as int) {
        let q = choose|q: int|
            0 <= q < NPIXELS && #[trigger] covers(once, vx, vy, n as int, q) && once.graphics[q];
        assert(covers(m, vx, vy, n as int, q) && !m.graphics[q]);
    }
    if exists|p: int|
        0 <= p < NPIXELS && #[trigger] covers(m, vx, vy, n as int, p) && !m.graphics[p] {
        let q = choose|q: int|
            0 <= q < NPIXELS && #[trigger] covers(m, vx, vy, n as int, q) && !m.graphics[q];
        assert(covers(once, vx, vy, n as int, q) && once.graphics[q]);
    }
}

/// A step on `FX0A` with no key pressed leaves the program counter where it
/// was; with some key pressed it moves on and stores the lowest pressed key.
pub proof fn lemma_wait_key(m: MachineState, x: u8, random: u8)
    requires
        m.wf(),
        current_instruction(m) == Some(Instruction::WaitKey { x }),
    ensures
        step_spec(m, random) is Ok,
        (forall|k: int| 0 <= k < NUM_KEYS ==> !m.pressed(k)) ==> step_spec(m, random)->Ok_0.pc
            == m.pc,
        (exists|k: int| 0 <= k < NUM_KEYS && m.pressed(k)) ==> ({
            let t = step_spec(m, random)->Ok_0;
            let k = t.reg[x as int] as int;
            &&& t.pc == m.pc + 2
            &&& k < NUM_KEYS
            &&& m.pressed(k)
            &&& forall|j: int| 0 <= j < k ==> !m.pressed(j)
        }),
{
    lemma_lowest_pressed(m.key, 0);
    let k = lowest_pressed(m.key, 0);
    if k < NUM_KEYS {
        assert(m.pressed(k));
    }
}

/// Storing registers `0..=x` with `FX55` and loading them back from the same
/// address with `FX65` restores every register.
pub proof fn lemma_store_load_round_trip(m: MachineState, x: u8, random: u8)
    requires
        m.wf(),
        x < 16,
        execute_spec(m, Instruction::StoreRegs { x }, random) is Ok,
    ensures
        ({
            let stored = execute_spec(m, Instruction::StoreRegs { x }, random)->Ok_0;
            &&& execute_spec(stored, Instruction::LoadRegs { x }, random) is Ok
            &&& execute_spec(stored, Instruction::LoadRegs { x }, random)->Ok_0.reg == m.reg
        }),
{
    let stored = execute_spec(m, Instruction::StoreRegs { x }, random)->Ok_0;
    let loaded = execute_spec(stored, Instruction::LoadRegs { x }, random)->Ok_0;
    assert(loaded.reg =~= m.reg);
}

/// A timer at zero stays at zero through a step, unless that step's
/// instruction sets it.
pub proof fn lemma_idle_timers_stay_zero(m: MachineState, random: u8)
    requires
        m.wf(),
        step_spec(m, random) is Ok,
    ensures
        m.timer_delay == 0 && !(current_instruction(m) matches Some(Instruction::SetDelay { .. }))
            ==> step_spec(m, random)->Ok_0.timer_delay == 0,
        m.timer_sound == 0 && !(current_instruction(m) matches Some(Instruction::SetSound { .. }))
            ==> step_spec(m, random)->Ok_0.timer_sound == 0,
{
}

/// The outcome of one step for each byte of `randoms`, in order, stopping
/// at the first fault.
pub open spec fn run_spec(m: MachineState, randoms: Seq<u8>) -> Result<MachineState, Fault>
    decreases randoms.len(),
{
    if randoms.len() == 0 {
        Ok(m)
    } else {
        match step_spec(m, randoms[0]) {
            Ok(t) => run_spec(t, randoms.drop_first()),
            Err(e) => Err(e),
        }
    }
}

/// Whether `ins` writes the sound timer (`sound`) or the delay timer.
pub open spec fn sets_timer(ins: Option<Instruction>, sound: bool) -> bool {
    if sound {
        ins matches Some(Instruction::SetSound { .. })
    } else {
        ins matches Some(Instruction::SetDelay { .. })
    }
}

/// Whether some step of the run executes an instruction that writes the
/// sound timer (`sound`) or the delay timer.
pub open spec fn run_sets_timer(m: MachineState, randoms: Seq<u8>, sound: bool) -> bool
    decreases randoms.len(),
{
    if randoms.len() == 0 {
        false
    } else {
        sets_timer(current_instruction(m), sound) || match step_spec(m, randoms[0]) {
            Ok(t) => run_sets_timer(t, randoms.drop_first(), sound),
            Err(_) => false,
        }
    }
}

/// A step keeps the sizes of every part of the state.
pub proof fn lemma_step_keeps_sizes(m: MachineState, random: u8)
    requires
        m.wf(),
        step_spec(m, random) is Ok,
    ensures
        step_spec(m, random)->Ok_0.wf(),
{
}

/// A timer at zero stays at zero through any number of steps, until an
/// instruction sets it.
pub proof fn lemma_idle_timers_stay_zero_over_run(m: MachineState, randoms: Seq<u8>)
    requires
        m.wf(),
        run_spec(m, randoms) is Ok,
    ensures
        m.timer_delay == 0 && !run_sets_timer(m, randoms, false) ==> run_spec(
            m,
            randoms,
        )->Ok_0.timer_delay == 0,
        m.timer_sound == 0 && !run_sets_timer(m, randoms, true) ==> run_spec(
            m,
            randoms,
        )->Ok_0.timer_sound == 0,
    decreases randoms.len(),
{
    if randoms.len() > 0 {
        lemma_idle_timers_stay_zero(m, randoms[0]);
        lemma_step_keeps_sizes(m, randoms[0]);
        lemma_idle_timers_stay_zero_over_run(step_spec(m, randoms[0])->Ok_0, randoms.drop_first());
    }
}

} // verus!
