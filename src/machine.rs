use vstd::prelude::*;

use crate::instruction::nibbles_of;
use crate::memory::{MEMORY_SIZE, loaded_image, word_at};
use crate::opcode::{Op, decode_spec};
use crate::registers::{NANOS_PER_SECOND, Timer, elapsed, ring_slot};
use crate::screen::blit;

verus! {

/// Index of the flag register.
pub const FLAG: usize = 15;

/// Selectable variations of instruction semantics.
#[derive(Clone, Copy, Debug, PartialEq, Eq, Structural)]
pub struct Quirks {
    /// Shifts read `Vy` (and store into `Vx`) instead of shifting `Vx` itself.
    pub shifts_against_vy: bool,
    /// Block store and load (`Fx55`, `Fx65`) leave `I` past the last register moved.
    pub memory_load_save_increment_i: bool,
    /// Sprites are clipped at the edges instead of wrapping around.
    pub sprite_clipping: bool,
    /// `Bnnn` jumps to `nnn + V0` instead of `kk + Vx`.
    pub jump_to_nnn: bool,
    /// `OR`, `AND` and `XOR` reset the flag register.
    pub logic_resets_vf: bool,
    /// The key checks (`Ex9E`, `ExA1`) drop a pending key release.
    pub key_check_consumes_release: bool,
}

/// Why an instruction could not run, or a program could not be loaded.
#[derive(Clone, Copy, Debug, PartialEq, Eq, Structural)]
pub enum Fault {
    /// The program does not fit in memory at the requested origin.
    ProgramTooLarge { origin: u16, len: usize },
    /// The word fetched at `pc` encodes no instruction.
    UnknownInstruction { word: u16, pc: u16 },
    /// An effective address falls outside the 12-bit address space.
    AddressOutOfRange { addr: u32 },
    /// A key index taken from a register names no key.
    KeyOutOfRange { key: u8 },
}

/// The whole observable state of the machine, its settings included.
#[verifier::ext_equal]
pub struct MachineState {
    pub v: Seq<u8>,
    pub i: u16,
    pub pc: u16,
    pub sp: u8,
    pub stack: Seq<u16>,
    pub timers: Seq<Timer>,
    pub memory: Seq<u8>,
    pub screen: Seq<u64>,
    pub keys: Seq<bool>,
    pub last_key: Option<u8>,
    pub last_draw: Option<u64>,
    pub beeping: bool,
    pub rom_loaded: bool,
    pub halted: bool,
    pub beep_enabled: bool,
    pub draws_per_second: u32,
    pub ticks_per_frame: u32,
    pub quirks: Quirks,
}

impl MachineState {
    /// Every table has its architectural size.
    pub open spec fn wf(self) -> bool {
        &&& self.v.len() == 16
        &&& self.stack.len() == 16
        &&& self.timers.len() == 2
        &&& self.memory.len() == MEMORY_SIZE
        &&& self.screen.len() == 32
        &&& self.keys.len() == 16
    }
}

/// The state right after a reset with `program` loaded at `origin`: zeroed
/// registers, stopped timers, blank screen, keys up, program counter at the
/// origin. Settings are kept.
pub open spec fn reset_state(s: MachineState, program: Seq<u8>, origin: u16, loaded: bool) -> MachineState {
    MachineState {
        v: Seq::new(16, |k: int| 0u8),
        i: 0,
        pc: origin,
        sp: 0,
        stack: Seq::new(16, |k: int| 0u16),
        timers: seq![Timer { last_write: 0, write_data: 0 }, Timer { last_write: 0, write_data: 0 }],
        memory: loaded_image(program, origin as int),
        screen: Seq::new(32, |k: int| 0u64),
        keys: Seq::new(16, |k: int| false),
        last_key: None,
        last_draw: None,
        beeping: false,
        rom_loaded: loaded,
        halted: false,
        ..s
    }
}

/// The address of the next instruction.
pub open spec fn next_pc(pc: u16) -> u16 {
    ((pc + 2) % 0x10000) as u16
}

/// The address of the next instruction, or of the one after it if `cond`.
pub open spec fn skip_if(pc: u16, cond: bool) -> u16 {
    if cond {
        ((pc + 4) % 0x10000) as u16
    } else {
        next_pc(pc)
    }
}

/// The instruction at the program counter.
pub open spec fn fetch(s: MachineState) -> Result<Op, Fault> {
    if s.pc + 1 >= MEMORY_SIZE {
        Err(Fault::AddressOutOfRange { addr: s.pc as u32 })
    } else {
        let w = word_at(s.memory, s.pc as int) as u16;
        match decode_spec(nibbles_of(w)) {
            Some(op) => Ok(op),
            None => Err(Fault::UnknownInstruction { word: w, pc: s.pc }),
        }
    }
}

/// `s` with register `x` set to `val` and the program counter advanced.
pub open spec fn set_reg(s: MachineState, x: u8, val: u8) -> MachineState {
    MachineState { v: s.v.update(x as int, val), pc: next_pc(s.pc), ..s }
}

/// `s` with register `x` set to `val`, then the flag set to `flag`, and the
/// program counter advanced.
pub open spec fn set_reg_flag(s: MachineState, x: u8, val: u8, flag: u8) -> MachineState {
    MachineState { v: s.v.update(x as int, val).update(FLAG as int, flag), pc: next_pc(s.pc), ..s }
}

/// A bitwise operation's result stored in `Vx`, with the flag reset where
/// the quirk asks for it.
pub open spec fn logic_result(s: MachineState, x: u8, val: u8) -> MachineState {
    if s.quirks.logic_resets_vf {
        set_reg_flag(s, x, val, 0)
    } else {
        set_reg(s, x, val)
    }
}

/// The operand of a shift.
pub open spec fn shift_source(s: MachineState, x: u8, y: u8) -> u8 {
    if s.quirks.shifts_against_vy {
        s.v[y as int]
    } else {
        s.v[x as int]
    }
}

/// Whether a draw at `now` is allowed: the first one is, later ones only
/// once a full frame (`1 / draws_per_second` s) has passed since the last.
pub open spec fn draw_due(last_draw: Option<u64>, draws_per_second: u32, now: u64) -> bool {
    match last_draw {
        None => true,
        Some(t) => elapsed(t, now) * draws_per_second >= NANOS_PER_SECOND,
    }
}

/// The effect of `Dxyn`.
pub open spec fn draw_result(s: MachineState, x: u8, y: u8, n: u8, now: u64) -> Result<MachineState, Fault> {
    if !draw_due(s.last_draw, s.draws_per_second, now) {
        Ok(MachineState { pc: next_pc(s.pc), ..s })
    } else if n > 0 && s.i + n > MEMORY_SIZE {
        Err(Fault::AddressOutOfRange { addr: (s.i + n - 1) as u32 })
    } else {
        let rows = if n == 0 {
            Seq::empty()
        } else {
            s.memory.subrange(s.i as int, s.i + n)
        };
        let (screen, hit) = blit(
            s.screen,
            (s.v[x as int] % 64) as u64,
            (s.v[y as int] % 32) as int,
            rows,
            s.quirks.sprite_clipping,
        );
        Ok(
            MachineState {
                screen,
                v: s.v.update(FLAG as int, if hit { 1u8 } else { 0u8 }),
                last_draw: Some(now),
                pc: next_pc(s.pc),
                ..s
            },
        )
    }
}

/// The effect of a key check: skip when key `Vx` is down (`want_down`) or up.
pub open spec fn key_check_result(s: MachineState, x: u8, want_down: bool) -> Result<MachineState, Fault> {
    let key = s.v[x as int];
    if key >= 16 {
        Err(Fault::KeyOutOfRange { key })
    } else {
        Ok(
            MachineState {
                pc: skip_if(s.pc, s.keys[key as int] == want_down),
                last_key: if s.quirks.key_check_consumes_release {
                    None
                } else {
                    s.last_key
                },
                ..s
            },
        )
    }
}

/// The value of `I` after a block transfer of `V0..=Vx`.
pub open spec fn index_after_block(s: MachineState, x: u8) -> u16 {
    if s.quirks.memory_load_save_increment_i {
        (s.i + x + 1) as u16
    } else {
        s.i
    }
}

/// What executing `op` does to `s`, at instant `now` and with `rnd` as the
/// random byte; the program counter is left on the next instruction to run.
pub open spec fn execute_spec(s: MachineState, op: Op, now: u64, rnd: u8) -> Result<MachineState, Fault> {
    let pc2 = next_pc(s.pc);
    match op {
        Op::ClearScreen => Ok(MachineState { screen: Seq::new(32, |k: int| 0u64), pc: pc2, ..s }),
        Op::Return => {
            let slot = (ring_slot(s.sp) + 15) % 16;
            Ok(MachineState { sp: slot as u8, pc: next_pc(s.stack[slot]), ..s })
        },
        Op::Jump { addr } => Ok(MachineState { pc: addr, ..s }),
        Op::Call { addr } => Ok(
            MachineState {
                stack: s.stack.update(ring_slot(s.sp), s.pc),
                sp: ((ring_slot(s.sp) + 1) % 16) as u8,
                pc: addr,
                ..s
            },
        ),
        Op::SkipIfEqImm { x, kk } => Ok(MachineState { pc: skip_if(s.pc, s.v[x as int] == kk), ..s }),
        Op::SkipIfNeImm { x, kk } => Ok(MachineState { pc: skip_if(s.pc, s.v[x as int] != kk), ..s }),
        Op::SkipIfEqReg { x, y } => Ok(
            MachineState { pc: skip_if(s.pc, s.v[x as int] == s.v[y as int]), ..s },
        ),
        Op::SkipIfNeReg { x, y } => Ok(
            MachineState { pc: skip_if(s.pc, s.v[x as int] != s.v[y as int]), ..s },
        ),
        Op::LoadImm { x, kk } => Ok(set_reg(s, x, kk)),
        Op::AddImm { x, kk } => Ok(set_reg(s, x, ((s.v[x as int] + kk) % 256) as u8)),
        Op::Move { x, y } => Ok(set_reg(s, x, s.v[y as int])),
        Op::Or { x, y } => Ok(logic_result(s, x, s.v[x as int] | s.v[y as int])),
        Op::And { x, y } => Ok(logic_result(s, x, s.v[x as int] & s.v[y as int])),
        Op::Xor { x, y } => Ok(logic_result(s, x, s.v[x as int] ^ s.v[y as int])),
        Op::AddReg { x, y } => {
            let sum = s.v[x as int] + s.v[y as int];
            Ok(set_reg_flag(s, x, (sum % 256) as u8, if sum > 255 { 1 } else { 0 }))
        },
        Op::SubReg { x, y } => {
            let (a, b) = (s.v[x as int], s.v[y as int]);
            Ok(set_reg_flag(s, x, ((a - b + 256) % 256) as u8, if a >= b { 1 } else { 0 }))
        },
        Op::SubRev { x, y } => {
            let (a, b) = (s.v[x as int], s.v[y as int]);
            Ok(set_reg_flag(s, x, ((b - a + 256) % 256) as u8, if b >= a { 1 } else { 0 }))
        },
        Op::ShiftRight { x, y } => {
            let src = shift_source(s, x, y);
            Ok(set_reg_flag(s, x, src / 2, src % 2))
        },
        Op::ShiftLeft { x, y } => {
            let src = shift_source(s, x, y);
            Ok(set_reg_flag(s, x, ((src * 2) % 256) as u8, if src >= 128 { 1 } else { 0 }))
        },
        Op::LoadIndex { addr } => Ok(MachineState { i: addr, pc: pc2, ..s }),
        Op::JumpOffset { x, kk, addr } => Ok(
            MachineState {
                pc: if s.quirks.jump_to_nnn {
                    (addr + s.v[0]) as u16
                } else {
                    (kk + s.v[x as int]) as u16
                },
                ..s
            },
        ),
        Op::Random { x, kk } => Ok(set_reg(s, x, rnd & kk)),
        Op::Draw { x, y, n } => draw_result(s, x, y, n, now),
        Op::SkipIfKey { x } => key_check_result(s, x, true),
        Op::SkipIfNotKey { x } => key_check_result(s, x, false),
        Op::ReadDelay { x } => Ok(set_reg(s, x, s.timers[0].value_at(now) as u8)),
        Op::WaitKey { x } => match s.last_key {
            Some(k) => Ok(MachineState { last_key: None, ..set_reg(s, x, k) }),
            None => Ok(s),
        },
        Op::SetDelay { x } => Ok(
            MachineState {
                timers: s.timers.update(0, Timer { last_write: now, write_data: s.v[x as int] }),
                pc: pc2,
                ..s
            },
        ),
        Op::SetSound { x } => Ok(
            MachineState {
                timers: s.timers.update(1, Timer { last_write: now, write_data: s.v[x as int] }),
                pc: pc2,
                ..s
            },
        ),
        Op::AddIndex { x } => Ok(MachineState { i: ((s.i + s.v[x as int]) % 0x10000) as u16, pc: pc2, ..s }),
        Op::LoadGlyph { x } => Ok(MachineState { i: (s.v[x as int] * 5) as u16, pc: pc2, ..s }),
        Op::StoreBcd { x } => {
            let val = s.v[x as int];
            if s.i + 2 >= MEMORY_SIZE {
                Err(Fault::AddressOutOfRange { addr: (s.i + 2) as u32 })
            } else {
                Ok(
                    MachineState {
                        memory: s.memory.update(s.i as int, val / 100).update(
                            s.i + 1,
                            (val / 10) % 10,
                        ).update(s.i + 2, val % 10),
                        pc: pc2,
                        ..s
                    },
                )
            }
        },
        Op::StoreRegs { x } => {
            if s.i + x >= MEMORY_SIZE {
                Err(Fault::AddressOutOfRange { addr: (s.i + x) as u32 })
            } else {
                Ok(
                    MachineState {
                        memory: Seq::new(
                            MEMORY_SIZE as nat,
                            |a: int|
                                if s.i <= a <= s.i + x {
                                    s.v[a - s.i]
                                } else {
                                    s.memory[a]
                                },
                        ),
                        i: index_after_block(s, x),
                        pc: pc2,
                        ..s
                    },
                )
            }
        },
        Op::LoadRegs { x } => {
            if s.i + x >= MEMORY_SIZE {
                Err(Fault::AddressOutOfRange { addr: (s.i + x) as u32 })
            } else {
                Ok(
                    MachineState {
                        v: Seq::new(
                            16,
                            |r: int|
                                if r <= x {
                                    s.memory[s.i + r]
                                } else {
                                    s.v[r]
                                },
                        ),
                        i: index_after_block(s, x),
                        pc: pc2,
                        ..s
                    },
                )
            }
        },
    }
}

/// One fetch-decode-execute step at instant `now` with random byte `rnd`,
/// followed by the re-evaluation of the sound signal.
#[verifier::opaque]
pub open spec fn step_spec(s: MachineState, now: u64, rnd: u8) -> Result<MachineState, Fault> {
    match fetch(s) {
        Err(f) => Err(f),
        Ok(op) => match execute_spec(s, op, now, rnd) {
            Err(f) => Err(f),
            Ok(t) => Ok(
                MachineState { beeping: t.beep_enabled && t.timers[1].value_at(now) > 0, ..t },
            ),
        },
    }
}

/// `after` follows from `before` by `n` successful steps, each at some
/// instant and with some random byte.
pub open spec fn reaches(before: MachineState, after: MachineState, n: nat) -> bool
    decreases n,
{
    if n == 0 {
        after == before
    } else {
        exists|mid: MachineState, now: u64, rnd: u8|
            reaches(before, mid, (n - 1) as nat) && #[trigger] step_spec(mid, now, rnd) == Ok::<MachineState, Fault>(after)
    }
}

/// `after` and `r` are what a run with the expected outcome leaves: the
/// expected state on success, the unchanged state and the same fault on
/// failure.
pub open spec fn realizes(
    before: MachineState,
    after: MachineState,
    r: Result<(), Fault>,
    expected: Result<MachineState, Fault>,
) -> bool {
    match expected {
        Ok(t) => r is Ok && after == t,
        Err(f) => r == Err::<(), Fault>(f) && after == before,
    }
}

/// Register addition (`8xy4`) sets the flag to 1 exactly when the unsigned
/// sum exceeds 255, and stores the sum modulo 256 (unless the target is the
/// flag register itself, which the flag then overwrites).
pub proof fn lemma_add_carry(s: MachineState, x: u8, y: u8, now: u64, rnd: u8)
    requires
        s.wf(),
        x < 16,
        y < 16,
    ensures
        execute_spec(s, Op::AddReg { x, y }, now, rnd) matches Ok(t) && t.v[FLAG as int] == (if s.v[x as int]
            + s.v[y as int] > 255 {
            1u8
        } else {
            0u8
        }) && (x != FLAG ==> t.v[x as int] == (s.v[x as int] + s.v[y as int]) % 256),
{
}

/// Subtraction sets the flag to 1 exactly when no borrow occurs: for `8xy5`
/// (`Vx - Vy`) when `Vx >= Vy`, for `8xy7` (`Vy - Vx`) when `Vy >= Vx`; the
/// difference is stored modulo 256 (unless the target is the flag register).
pub proof fn lemma_sub_no_borrow(s: MachineState, x: u8, y: u8, now: u64, rnd: u8)
    requires
        s.wf(),
        x < 16,
        y < 16,
    ensures
        execute_spec(s, Op::SubReg { x, y }, now, rnd) matches Ok(t) && t.v[FLAG as int] == (if s.v[x as int]
            >= s.v[y as int] {
            1u8
        } else {
            0u8
        }) && (x != FLAG ==> t.v[x as int] == (s.v[x as int] - s.v[y as int] + 256) % 256),
        execute_spec(s, Op::SubRev { x, y }, now, rnd) matches Ok(t) && t.v[FLAG as int] == (if s.v[y as int]
            >= s.v[x as int] {
            1u8
        } else {
            0u8
        }) && (x != FLAG ==> t.v[x as int] == (s.v[y as int] - s.v[x as int] + 256) % 256),
{
}

/// The call stack is a ring of sixteen slots: a call stores the return
/// address in the slot the stack pointer designates and moves the pointer
/// forward (from 15 to 0); a return moves it back (from 0 to 15) and resumes
/// after the address held in the slot it then designates.
pub proof fn lemma_stack_ring(s: MachineState, addr: u16, now: u64, rnd: u8)
    requires
        s.wf(),
        s.sp < 16,
    ensures
        execute_spec(s, Op::Call { addr }, now, rnd) matches Ok(t) && t.sp == (s.sp + 1) % 16
            && t.stack[s.sp as int] == s.pc && t.pc == addr,
        s.sp == 15 ==> (execute_spec(s, Op::Call { addr }, now, rnd) matches Ok(t) && t.sp == 0),
        execute_spec(s, Op::Return, now, rnd) matches Ok(t) && t.sp == (s.sp + 15) % 16 && t.pc
            == next_pc(s.stack[(s.sp + 15) % 16]),
        s.sp == 0 ==> (execute_spec(s, Op::Return, now, rnd) matches Ok(t) && t.sp == 15 && t.pc
            == next_pc(s.stack[15])),
{
}

/// A step never changes the settings, nor whether a program is loaded or
/// the machine halted.
pub proof fn lemma_step_keeps_settings(s: MachineState, now: u64, rnd: u8)
    ensures
        step_spec(s, now, rnd) matches Ok(t) ==> t.rom_loaded == s.rom_loaded && t.halted
            == s.halted && t.beep_enabled == s.beep_enabled && t.draws_per_second
            == s.draws_per_second && t.ticks_per_frame == s.ticks_per_frame && t.quirks == s.quirks,
{
    reveal(step_spec);
    if let Ok(op) = fetch(s) {
        lemma_execute_keeps_settings(s, op, now, rnd);
    }
}

proof fn lemma_execute_keeps_settings(s: MachineState, op: Op, now: u64, rnd: u8)
    ensures
        execute_spec(s, op, now, rnd) matches Ok(t) ==> t.rom_loaded == s.rom_loaded && t.halted
            == s.halted && t.beep_enabled == s.beep_enabled && t.draws_per_second
            == s.draws_per_second && t.ticks_per_frame == s.ticks_per_frame && t.quirks == s.quirks,
{
    match op {
        Op::Draw { x, y, n } => {
            if draw_due(s.last_draw, s.draws_per_second, now) && !(n > 0 && s.i + n > MEMORY_SIZE) {
            }
        },
        _ => {},
    }
}

} // verus!
