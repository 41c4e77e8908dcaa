use vstd::prelude::*;

use crate::host::{clock_now, nanos_since, random_byte};
use crate::keypad::Keypad;
use crate::machine::{
    FLAG, Fault, MachineState, Quirks, draw_due, execute_spec, fetch, lemma_step_keeps_settings,
    reaches, realizes, reset_state, step_spec,
};
use crate::memory::{MEMORY_SIZE, Memory};
use crate::opcode::Op;
use crate::registers::{DELAY_TIMER, Registers, SOUND_TIMER, Timer};
use crate::screen::Screen;

verus! {

/// Conventional load address of programs.
pub const PROGRAM_BEGIN: u16 = 0x0200;

/// Default minimum pacing of draws, in draws per second.
pub const DEFAULT_DRAWS_PER_SECOND: u32 = 60;

/// Default number of instructions run by one `tick`.
pub const DEFAULT_TICKS_PER_FRAME: u32 = 10;

/// The default behaviour: every quirk enabled.
pub open spec fn default_quirks() -> Quirks {
    Quirks {
        shifts_against_vy: true,
        memory_load_save_increment_i: true,
        sprite_clipping: true,
        jump_to_nnn: true,
        logic_resets_vf: true,
        key_check_consumes_release: true,
    }
}

impl Quirks {
    /// The default quirks.
    pub fn new() -> (r: Quirks)
        ensures
            r == default_quirks(),
    {
        Quirks {
            shifts_against_vy: true,
            memory_load_save_increment_i: true,
            sprite_clipping: true,
            jump_to_nnn: true,
            logic_resets_vf: true,
            key_check_consumes_release: true,
        }
    }
}

/// The processor: it owns memory, registers, framebuffer and keypad, runs
/// instructions and derives the sound signal.
pub struct Cpu {
    pub registers: Registers,
    pub memory: Memory,
    pub screen: Screen,
    pub keypad: Keypad,
    /// A program has been loaded and not unloaded since.
    pub rom_loaded: bool,
    /// `tick` does nothing while halted.
    pub halted: bool,
    /// Sound output is allowed.
    pub beep_enabled: bool,
    /// The sound signal: sound is enabled and the sound timer is non-zero.
    pub beeping: bool,
    /// Instant of the last draw that was carried out, in nanoseconds.
    pub last_draw: Option<u64>,
    pub draws_per_second: u32,
    pub ticks_per_frame: u32,
    pub quirks: Quirks,
    /// Origin of the instants handed to timers and draws.
    pub clock: std::time::Instant,
}

impl View for Cpu {
    type V = MachineState;

    open spec fn view(&self) -> MachineState {
        MachineState {
            v: self.registers.v@,
            i: self.registers.i,
            pc: self.registers.pc,
            sp: self.registers.sp,
            stack: self.registers.stack@,
            timers: self.registers.timers@,
            memory: self.memory@,
            screen: self.screen.0@,
            keys: self.keypad.key_map@,
            last_key: self.keypad.last_key,
            last_draw: self.last_draw,
            beeping: self.beeping,
            rom_loaded: self.rom_loaded,
            halted: self.halted,
            beep_enabled: self.beep_enabled,
            draws_per_second: self.draws_per_second,
            ticks_per_frame: self.ticks_per_frame,
            quirks: self.quirks,
        }
    }
}

impl Cpu {
    /// A machine with no program loaded and the default settings.
    pub fn new() -> (r: Cpu)
        ensures
            r@ == reset_state(r@, Seq::empty(), PROGRAM_BEGIN, false),
            r.beep_enabled,
            r.draws_per_second == DEFAULT_DRAWS_PER_SECOND,
            r.ticks_per_frame == DEFAULT_TICKS_PER_FRAME,
            r.quirks == default_quirks(),
    {
        let cpu = Cpu {
            registers: Registers::new(PROGRAM_BEGIN),
            memory: Memory::new(Vec::new(), PROGRAM_BEGIN),
            screen: Screen::new(),
            keypad: Keypad::new(),
            rom_loaded: false,
            halted: false,
            beep_enabled: true,
            beeping: false,
            last_draw: None,
            draws_per_second: DEFAULT_DRAWS_PER_SECOND,
            ticks_per_frame: DEFAULT_TICKS_PER_FRAME,
            quirks: Quirks::new(),
            clock: clock_now(),
        };
        assert(cpu@ =~= reset_state(cpu@, Seq::empty(), PROGRAM_BEGIN, false));
        cpu
    }

    fn reset(&mut self, program: Vec<u8>, origin: u16, loaded: bool)
        requires
            origin + program.len() <= MEMORY_SIZE,
        ensures
            final(self)@ == reset_state(old(self)@, program@, origin, loaded),
    {
        self.registers = Registers::new(origin);
        self.memory = Memory::new(program, origin);
        self.screen = Screen::new();
        self.keypad = Keypad::new();
        self.last_draw = None;
        self.beeping = false;
        self.rom_loaded = loaded;
        self.halted = false;
        assert(self@ =~= reset_state(old(self)@, program@, origin, loaded));
    }

    /// Resets the machine and loads `program` at `program_begin`; a program
    /// that does not fit leaves the machine as it was.
    pub fn load_rom(&mut self, program: Vec<u8>, program_begin: u16) -> (r: Result<(), Fault>)
        ensures
            program_begin + program.len() <= MEMORY_SIZE ==> r is Ok && final(self)@ == reset_state(
                old(self)@,
                program@,
                program_begin,
                true,
            ),
            program_begin + program.len() > MEMORY_SIZE ==> r == Err::<(), Fault>(
                Fault::ProgramTooLarge { origin: program_begin, len: program.len() },
            ) && final(self)@ == old(self)@,
    {
        let origin = program_begin as usize;
        if origin > MEMORY_SIZE || program.len() > MEMORY_SIZE - origin {
            return Err(Fault::ProgramTooLarge { origin: program_begin, len: program.len() });
        }
        self.reset(program, program_begin, true);
        Ok(())
    }

    /// Unloads the program and resets the machine; settings are kept.
    pub fn clear(&mut self)
        ensures
            final(self)@ == reset_state(old(self)@, Seq::empty(), PROGRAM_BEGIN, false),
    {
        self.reset(Vec::new(), PROGRAM_BEGIN, false);
    }

    pub fn is_rom_loaded(&self) -> (r: bool)
        ensures
            r == self.rom_loaded,
    {
        self.rom_loaded
    }

    pub fn is_halted(&self) -> (r: bool)
        ensures
            r == self.halted,
    {
        self.halted
    }

    pub fn halt(&mut self)
        ensures
            final(self)@ == (MachineState { halted: true, ..old(self)@ }),
    {
        self.halted = true;
    }

    pub fn resume(&mut self)
        ensures
            final(self)@ == (MachineState { halted: false, ..old(self)@ }),
    {
        self.halted = false;
    }

    pub fn toggle_halt(&mut self)
        ensures
            final(self)@ == (MachineState { halted: !old(self).halted, ..old(self)@ }),
    {
        self.halted = !self.halted;
    }

    pub fn is_beep_enabled(&self) -> (r: bool)
        ensures
            r == self.beep_enabled,
    {
        self.beep_enabled
    }

    /// Re-evaluates the sound signal at instant `now`.
    pub fn update_beep(&mut self, now: u64)
        ensures
            final(self)@ == (MachineState {
                beeping: old(self).beep_enabled && old(self)@.timers[1].value_at(now) > 0,
                ..old(self)@
            }),
    {
        let sound = self.registers.timers[SOUND_TIMER].read(now);
        self.beeping = self.beep_enabled && sound > 0;
    }

    /// Re-evaluates the sound signal at the current instant.
    pub fn handle_beep(&mut self)
        ensures
            exists|now: u64|
                final(self)@ == (MachineState {
                    beeping: old(self).beep_enabled && #[trigger] old(self)@.timers[1].value_at(now)
                        > 0,
                    ..old(self)@
                }),
    {
        let now = nanos_since(&self.clock);
        self.update_beep(now);
        assert(old(self)@.timers[1].value_at(now) == self@.timers[1].value_at(now));
    }

    /// Allows sound output and re-evaluates the sound signal.
    pub fn enable_beep(&mut self)
        ensures
            final(self).beep_enabled,
            exists|now: u64|
                final(self)@ == (MachineState {
                    beep_enabled: true,
                    beeping: #[trigger] old(self)@.timers[1].value_at(now) > 0,
                    ..old(self)@
                }),
    {
        self.beep_enabled = true;
        let now = nanos_since(&self.clock);
        self.update_beep(now);
        assert(old(self)@.timers[1].value_at(now) == self@.timers[1].value_at(now));
    }

    /// Forbids sound output; the sound signal goes off.
    pub fn disable_beep(&mut self)
        ensures
            final(self)@ == (MachineState { beep_enabled: false, beeping: false, ..old(self)@ }),
    {
        self.beep_enabled = false;
        self.beeping = false;
    }

    /// Flips whether sound output is allowed, re-evaluating the sound signal.
    pub fn toggle_beep_enabled(&mut self)
        ensures
            final(self).beep_enabled == !old(self).beep_enabled,
            !final(self).beep_enabled ==> !final(self).beeping,
            exists|now: u64|
                final(self)@ == (MachineState {
                    beep_enabled: !old(self).beep_enabled,
                    beeping: !old(self).beep_enabled && #[trigger] old(self)@.timers[1].value_at(now)
                        > 0,
                    ..old(self)@
                }),
    {
        if self.beep_enabled {
            self.disable_beep();
            assert(old(self)@.timers[1].value_at(0) == self@.timers[1].value_at(0));
        } else {
            self.enable_beep();
        }
    }
}

impl Cpu {
    /// Runs one instruction at instant `now`, with `rnd` as the random byte
    /// for `Cxkk`, then re-evaluates the sound signal. On a fault nothing
    /// changes.
    pub fn step(&mut self, now: u64, rnd: u8) -> (r: Result<(), Fault>)
        ensures
            realizes(old(self)@, final(self)@, r, step_spec(old(self)@, now, rnd)),
    {
        reveal(step_spec);
        let pc = self.registers.pc;
        if pc >= 4095 {
            return Err(Fault::AddressOutOfRange { addr: pc as u32 });
        }
        let ins = self.memory.read_instruction(pc);
        let op = match ins.decode() {
            Some(op) => op,
            None => {
                let word = self.memory.read_u16(pc);
                return Err(Fault::UnknownInstruction { word, pc });
            },
        };
        assert(fetch(old(self)@) == Ok::<Op, Fault>(op));
        let r = self.execute(op, now, rnd);
        match r {
            Ok(()) => {
                self.update_beep(now);
                Ok(())
            },
            Err(f) => Err(f),
        }
    }

    fn execute(&mut self, op: Op, now: u64, rnd: u8) -> (r: Result<(), Fault>)
        requires
            op.wf(),
            old(self).registers.pc + 1 < MEMORY_SIZE,
        ensures
            realizes(old(self)@, final(self)@, r, execute_spec(old(self)@, op, now, rnd)),
    {
        match op {
            Op::ClearScreen | Op::Return | Op::Jump { .. } | Op::Call { .. } | Op::SkipIfEqImm {
                ..
            } | Op::SkipIfNeImm { .. } | Op::SkipIfEqReg { .. } | Op::SkipIfNeReg { .. }
            | Op::JumpOffset { .. } => self.exec_control(op, now, rnd),
            Op::LoadImm { .. } | Op::AddImm { .. } | Op::Move { .. } | Op::Or { .. } | Op::And {
                ..
            } | Op::Xor { .. } | Op::AddReg { .. } | Op::SubReg { .. } | Op::ShiftRight { .. }
            | Op::SubRev { .. } | Op::ShiftLeft { .. } | Op::Random { .. } => self.exec_alu(
                op,
                now,
                rnd,
            ),
            Op::Draw { x, y, n } => self.exec_draw(x, y, n, now),
            Op::SkipIfKey { x } => self.exec_key_check(x, true),
            Op::SkipIfNotKey { x } => self.exec_key_check(x, false),
            Op::ReadDelay { .. } | Op::WaitKey { .. } | Op::SetDelay { .. } | Op::SetSound {
                ..
            } => self.exec_timer_input(op, now, rnd),
            Op::LoadIndex { .. } | Op::AddIndex { .. } | Op::LoadGlyph { .. } | Op::StoreBcd {
                ..
            } | Op::StoreRegs { .. } | Op::LoadRegs { .. } => self.exec_index(op, now, rnd),
        }
    }

    /// Clear, jumps, calls, returns and skips.
    fn exec_control(&mut self, op: Op, now: u64, rnd: u8) -> (r: Result<(), Fault>)
        requires
            op.wf(),
            old(self).registers.pc + 1 < MEMORY_SIZE,
            op is ClearScreen || op is Return || op is Jump || op is Call || op is SkipIfEqImm
                || op is SkipIfNeImm || op is SkipIfEqReg || op is SkipIfNeReg || op is JumpOffset,
        ensures
            realizes(old(self)@, final(self)@, r, execute_spec(old(self)@, op, now, rnd)),
    {
        let pc = self.registers.pc;
        match op {
            Op::ClearScreen => {
                self.screen.clear();
                self.registers.pc = pc + 2;
            },
            Op::Return => {
                let ret = self.registers.pop();
                self.registers.pc = if ret >= 0xFFFE {
                    ret - 0xFFFE
                } else {
                    ret + 2
                };
            },
            Op::Jump { addr } => {
                self.registers.pc = addr;
            },
            Op::Call { addr } => {
                self.registers.push(pc);
                self.registers.pc = addr;
            },
            Op::SkipIfEqImm { x, kk } => {
                let vx = self.registers.v[x as usize];
                self.registers.pc = if vx == kk {
                    pc + 4
                } else {
                    pc + 2
                };
            },
            Op::SkipIfNeImm { x, kk } => {
                let vx = self.registers.v[x as usize];
                self.registers.pc = if vx != kk {
                    pc + 4
                } else {
                    pc + 2
                };
            },
            Op::SkipIfEqReg { x, y } => {
                let vx = self.registers.v[x as usize];
                let vy = self.registers.v[y as usize];
                self.registers.pc = if vx == vy {
                    pc + 4
                } else {
                    pc + 2
                };
            },
            Op::SkipIfNeReg { x, y } => {
                let vx = self.registers.v[x as usize];
                let vy = self.registers.v[y as usize];
                self.registers.pc = if vx != vy {
                    pc + 4
                } else {
                    pc + 2
                };
            },
            Op::JumpOffset { x, kk, addr } => {
                self.registers.pc = if self.quirks.jump_to_nnn {
                    addr + self.registers.v[0] as u16
                } else {
                    kk as u16 + self.registers.v[x as usize] as u16
                };
            },
            _ => {},
        }
        proof {
            if let Ok(t) = execute_spec(old(self)@, op, now, rnd) {
                assert(self@ =~= t);
            }
        }
        Ok(())
    }

    /// Register loads and arithmetic, logic, shifts and the random byte.
    fn exec_alu(&mut self, op: Op, now: u64, rnd: u8) -> (r: Result<(), Fault>)
        requires
            op.wf(),
            old(self).registers.pc + 1 < MEMORY_SIZE,
            op is LoadImm || op is AddImm || op is Move || op is Or || op is And || op is Xor
                || op is AddReg || op is SubReg || op is ShiftRight || op is SubRev
                || op is ShiftLeft || op is Random,
        ensures
            realizes(old(self)@, final(self)@, r, execute_spec(old(self)@, op, now, rnd)),
    {
        let pc = self.registers.pc;
        let resets = self.quirks.logic_resets_vf;
        let against_vy = self.quirks.shifts_against_vy;
        let (x, val, flag): (u8, u8, Option<u8>) = match op {
            Op::LoadImm { x, kk } => (x, kk, None),
            Op::AddImm { x, kk } => {
                let vx = self.registers.v[x as usize];
                (x, ((vx as u16 + kk as u16) % 256) as u8, None)
            },
            Op::Move { x, y } => (x, self.registers.v[y as usize], None),
            Op::Or { x, y } => {
                let val = self.registers.v[x as usize] | self.registers.v[y as usize];
                (x, val, if resets { Some(0u8) } else { None })
            },
            Op::And { x, y } => {
                let val = self.registers.v[x as usize] & self.registers.v[y as usize];
                (x, val, if resets { Some(0u8) } else { None })
            },
            Op::Xor { x, y } => {
                let val = self.registers.v[x as usize] ^ self.registers.v[y as usize];
                (x, val, if resets { Some(0u8) } else { None })
            },
            Op::AddReg { x, y } => {
                let sum = self.registers.v[x as usize] as u16 + self.registers.v[y as usize] as u16;
                (x, (sum % 256) as u8, Some(if sum > 255 { 1u8 } else { 0u8 }))
            },
            Op::SubReg { x, y } => {
                let a = self.registers.v[x as usize];
                let b = self.registers.v[y as usize];
                (x, ((a as u16 + 256 - b as u16) % 256) as u8, Some(if a >= b { 1u8 } else { 0u8 }))
            },
            Op::SubRev { x, y } => {
                let a = self.registers.v[x as usize];
                let b = self.registers.v[y as usize];
                (x, ((b as u16 + 256 - a as u16) % 256) as u8, Some(if b >= a { 1u8 } else { 0u8 }))
            },
            Op::ShiftRight { x, y } => {
                let src = if against_vy {
                    self.registers.v[y as usize]
                } else {
                    self.registers.v[x as usize]
                };
                (x, src / 2, Some(src % 2))
            },
            Op::ShiftLeft { x, y } => {
                let src = if against_vy {
                    self.registers.v[y as usize]
                } else {
                    self.registers.v[x as usize]
                };
                (x, ((src as u16 * 2) % 256) as u8, Some(if src >= 128 { 1u8 } else { 0u8 }))
            },
            Op::Random { x, kk } => (x, rnd & kk, None),
            _ => (0, 0, None),
        };
        self.registers.v[x as usize] = val;
        if let Some(f) = flag {
            self.registers.v[FLAG] = f;
        }
        self.registers.pc = pc + 2;
        proof {
            if let Ok(t) = execute_spec(old(self)@, op, now, rnd) {
                assert(self@.v =~= t.v);
                assert(self@ =~= t);
            }
        }
        Ok(())
    }

    /// `Dxyn`: draws unless the previous draw is less than a frame ago.
    fn exec_draw(&mut self, x: u8, y: u8, n: u8, now: u64) -> (r: Result<(), Fault>)
        requires
            x < 16,
            y < 16,
            n < 16,
            old(self).registers.pc + 1 < MEMORY_SIZE,
        ensures
            realizes(old(self)@, final(self)@, r, execute_spec(old(self)@, Op::Draw { x, y, n }, now, 0)),
    {
        let pc = self.registers.pc;
        let due = match self.last_draw {
            None => true,
            Some(t) => {
                let e = now.saturating_sub(t);
                let dps = self.draws_per_second;
                assert((e as u128) * (dps as u128) <= 0xFFFF_FFFF_FFFF_FFFFu128 * 0xFFFF_FFFFu128)
                    by (nonlinear_arith);
                (e as u128) * (dps as u128) >= 1_000_000_000u128
            },
        };
        if !due {
            self.registers.pc = pc + 2;
            assert(!draw_due(old(self).last_draw, old(self).draws_per_second, now));
            assert(self@ =~= execute_spec(old(self)@, Op::Draw { x, y, n }, now, 0)->Ok_0);
            return Ok(());
        }
        let base = self.registers.i;
        if n > 0 && base as usize + n as usize > MEMORY_SIZE {
            return Err(Fault::AddressOutOfRange { addr: base as u32 + n as u32 - 1 });
        }
        let rows = if n == 0 {
            Vec::new()
        } else {
            self.memory.read_block(base, n)
        };
        assert(rows@ =~= (if n == 0 {
            Seq::empty()
        } else {
            old(self)@.memory.subrange(base as int, base + n)
        }));
        let vx = self.registers.v[x as usize];
        let vy = self.registers.v[y as usize];
        let clip = self.quirks.sprite_clipping;
        let hit = self.screen.draw(vx, vy, rows.as_slice(), clip);
        self.registers.v[FLAG] = if hit {
            1
        } else {
            0
        };
        self.last_draw = Some(now);
        self.registers.pc = pc + 2;
        proof {
            let t = execute_spec(old(self)@, Op::Draw { x, y, n }, now, 0)->Ok_0;
            assert(self@.v =~= t.v);
            assert(self@ =~= t);
        }
        Ok(())
    }

    /// `Ex9E` / `ExA1`: skips when key `Vx` is down (`want_down`) or up.
    fn exec_key_check(&mut self, x: u8, want_down: bool) -> (r: Result<(), Fault>)
        requires
            x < 16,
            old(self).registers.pc + 1 < MEMORY_SIZE,
        ensures
            realizes(
                old(self)@,
                final(self)@,
                r,
                execute_spec(
                    old(self)@,
                    if want_down {
                        Op::SkipIfKey { x }
                    } else {
                        Op::SkipIfNotKey { x }
                    },
                    0,
                    0,
                ),
            ),
    {
        let pc = self.registers.pc;
        let key = self.registers.v[x as usize];
        if key >= 16 {
            return Err(Fault::KeyOutOfRange { key });
        }
        let down = if self.quirks.key_check_consumes_release {
            self.keypad.get_key_state(key)
        } else {
            self.keypad.is_key_down(key)
        };
        self.registers.pc = if down == want_down {
            pc + 4
        } else {
            pc + 2
        };
        Ok(())
    }

    /// Timer reads and writes, and the wait for a key release.
    fn exec_timer_input(&mut self, op: Op, now: u64, rnd: u8) -> (r: Result<(), Fault>)
        requires
            op.wf(),
            old(self).registers.pc + 1 < MEMORY_SIZE,
            op is ReadDelay || op is WaitKey || op is SetDelay || op is SetSound,
        ensures
            realizes(old(self)@, final(self)@, r, execute_spec(old(self)@, op, now, rnd)),
    {
        let pc = self.registers.pc;
        match op {
            Op::ReadDelay { x } => {
                let value = self.registers.timers[DELAY_TIMER].read(now);
                self.registers.v[x as usize] = value;
                self.registers.pc = pc + 2;
            },
            Op::WaitKey { x } => {
                match self.keypad.get_released_key() {
                    Some(key) => {
                        self.registers.v[x as usize] = key;
                        self.registers.pc = pc + 2;
                    },
                    None => {},
                }
            },
            Op::SetDelay { x } => {
                let mut timer: Timer = self.registers.timers[DELAY_TIMER];
                timer.write(self.registers.v[x as usize], now);
                self.registers.timers[DELAY_TIMER] = timer;
                self.registers.pc = pc + 2;
            },
            Op::SetSound { x } => {
                let mut timer: Timer = self.registers.timers[SOUND_TIMER];
                timer.write(self.registers.v[x as usize], now);
                self.registers.timers[SOUND_TIMER] = timer;
                self.registers.pc = pc + 2;
            },
            _ => {},
        }
        proof {
            if let Ok(t) = execute_spec(old(self)@, op, now, rnd) {
                assert(self@.v =~= t.v);
                assert(self@.timers =~= t.timers);
                assert(self@ =~= t);
            }
        }
        Ok(())
    }

    /// Index register loads and the transfers through it.
    fn exec_index(&mut self, op: Op, now: u64, rnd: u8) -> (r: Result<(), Fault>)
        requires
            op.wf(),
            old(self).registers.pc + 1 < MEMORY_SIZE,
            op is LoadIndex || op is AddIndex || op is LoadGlyph || op is StoreBcd
                || op is StoreRegs || op is LoadRegs,
        ensures
            realizes(old(self)@, final(self)@, r, execute_spec(old(self)@, op, now, rnd)),
    {
        let pc = self.registers.pc;
        let base = self.registers.i;
        let increment = self.quirks.memory_load_save_increment_i;
        match op {
            Op::LoadIndex { addr } => {
                self.registers.i = addr;
            },
            Op::AddIndex { x } => {
                let vx = self.registers.v[x as usize];
                self.registers.i = ((base as u32 + vx as u32) % 0x10000) as u16;
            },
            Op::LoadGlyph { x } => {
                let vx = self.registers.v[x as usize];
                self.registers.i = vx as u16 * 5;
            },
            Op::StoreBcd { x } => {
                if base as usize + 2 >= MEMORY_SIZE {
                    return Err(Fault::AddressOutOfRange { addr: base as u32 + 2 });
                }
                let vx = self.registers.v[x as usize];
                self.memory.write(base, vx / 100);
                self.memory.write(base + 1, (vx / 10) % 10);
                self.memory.write(base + 2, vx % 10);
            },
            Op::StoreRegs { x } => {
                if base as usize + x as usize >= MEMORY_SIZE {
                    return Err(Fault::AddressOutOfRange { addr: base as u32 + x as u32 });
                }
                self.memory.store_registers(base, &self.registers.v, x);
                if increment {
                    self.registers.i = base + x as u16 + 1;
                }
            },
            Op::LoadRegs { x } => {
                if base as usize + x as usize >= MEMORY_SIZE {
                    return Err(Fault::AddressOutOfRange { addr: base as u32 + x as u32 });
                }
                self.registers.v = self.memory.load_registers(base, x, self.registers.v);
                if increment {
                    self.registers.i = base + x as u16 + 1;
                }
            },
            _ => {},
        }
        self.registers.pc = pc + 2;
        proof {
            if let Ok(t) = execute_spec(old(self)@, op, now, rnd) {
                assert(self@.v =~= t.v);
                assert(self@.memory =~= t.memory);
                assert(self@ =~= t);
            }
        }
        Ok(())
    }

    /// Runs `ticks_per_frame` instructions, each at the current instant and
    /// with a fresh random byte, unless halted or no program is loaded;
    /// stops at the first fault, leaving the faulting instruction undone.
    pub fn tick(&mut self) -> (r: Result<(), Fault>)
        ensures
            !old(self).rom_loaded || old(self).halted ==> r is Ok && final(self)@ == old(self)@,
            old(self).rom_loaded && !old(self).halted ==> match r {
                Ok(_) => reaches(old(self)@, final(self)@, old(self).ticks_per_frame as nat),
                Err(f) => exists|k: nat, now: u64, rnd: u8|
                    #![trigger reaches(old(self)@, final(self)@, k), step_spec(final(self)@, now, rnd)]
                    k < old(self).ticks_per_frame && reaches(old(self)@, final(self)@, k)
                        && step_spec(final(self)@, now, rnd) == Err::<MachineState, Fault>(f),
            },
    {
        if self.halted || !self.rom_loaded {
            return Ok(());
        }
        let count = self.ticks_per_frame;
        let mut k: u32 = 0;
        while k < count
            invariant
                k <= count,
                count == old(self).ticks_per_frame,
                old(self).rom_loaded,
                !old(self).halted,
                self.rom_loaded == old(self).rom_loaded,
                self.halted == old(self).halted,
                reaches(old(self)@, self@, k as nat),
            decreases count - k,
        {
            let ghost before = self@;
            let now = nanos_since(&self.clock);
            let rnd = random_byte();
            let r = self.step(now, rnd);
            proof {
                lemma_step_keeps_settings(before, now, rnd);
            }
            match r {
                Ok(()) => {
                    assert(step_spec(before, now, rnd) == Ok::<MachineState, Fault>(self@));
                    assert(reaches(old(self)@, self@, (k + 1) as nat));
                },
                Err(f) => {
                    assert(step_spec(self@, now, rnd) == Err::<MachineState, Fault>(f));
                    return Err(f);
                },
            }
            k = k + 1;
        }
        Ok(())
    }
}

} // verus!
