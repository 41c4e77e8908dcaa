use vstd::prelude::*;

verus! {

/// Units a timer loses per second.
pub const TIMER_HZ: u64 = 60;

/// Nanoseconds in one second; instants are counted in nanoseconds.
pub const NANOS_PER_SECOND: u64 = 1_000_000_000;

/// Index of the delay timer in `Registers::timers`.
pub const DELAY_TIMER: usize = 0;

/// Index of the sound timer in `Registers::timers`.
pub const SOUND_TIMER: usize = 1;

/// Number of general-purpose registers and of call stack slots.
pub const REGISTER_COUNT: usize = 16;

/// Number of slots in the call stack ring.
pub const STACK_SIZE: usize = 16;

/// Nanoseconds from `since` to `now`; zero when `now` is earlier.
pub open spec fn elapsed(since: u64, now: u64) -> int {
    if now >= since {
        now - since
    } else {
        0
    }
}

/// What a timer written with `written` shows `elapsed_ns` nanoseconds later:
/// `written - 60 * seconds`, rounded to the nearest integer (halves away from
/// zero) and clamped to `0..=255`.
pub open spec fn timer_value(written: u8, elapsed_ns: int) -> int {
    let scaled = written * NANOS_PER_SECOND - TIMER_HZ * elapsed_ns;
    if scaled <= 0 {
        0
    } else {
        let rounded = (scaled + NANOS_PER_SECOND / 2) / (NANOS_PER_SECOND as int);
        if rounded > 255 {
            255
        } else {
            rounded
        }
    }
}

/// A countdown timer that decays with wall-clock time since its last write.
#[derive(Clone, Copy)]
pub struct Timer {
    /// Instant of the last write, in nanoseconds.
    pub last_write: u64,
    /// Value written at `last_write`.
    pub write_data: u8,
}

impl Timer {
    /// The value the timer shows at instant `now`.
    pub open spec fn value_at(self, now: u64) -> int {
        timer_value(self.write_data, elapsed(self.last_write, now))
    }

    pub fn new() -> (r: Timer)
        ensures
            r.write_data == 0,
            r.last_write == 0,
            forall|now: u64| #[trigger] r.value_at(now) == 0,
    {
        Timer { last_write: 0, write_data: 0 }
    }

    /// Stores `data` as written at instant `now`.
    pub fn write(&mut self, data: u8, now: u64)
        ensures
            *final(self) == (Timer { last_write: now, write_data: data }),
    {
        self.write_data = data;
        self.last_write = now;
    }

    /// The value at instant `now`.
    pub fn read(&self, now: u64) -> (r: u8)
        ensures
            r == self.value_at(now),
    {
        let e = now.saturating_sub(self.last_write);
        if e >= 4_250_000_000 {
            return 0;
        }
        let decay: u64 = 60 * e;
        let full: u64 = (self.write_data as u64) * 1_000_000_000;
        if full <= decay {
            0
        } else {
            let v = (full - decay + 500_000_000) / 1_000_000_000;
            if v > 255 {
                255
            } else {
                v as u8
            }
        }
    }
}

/// A timer shows what was written to it at the instant of the write, one
/// second later 60 units less (never below zero), and never more than what
/// was written nor less than zero.
pub proof fn lemma_timer_decay(data: u8, at: u64, later: u64)
    ensures
        (Timer { last_write: at, write_data: data }).value_at(at) == data,
        at + NANOS_PER_SECOND <= u64::MAX ==> (Timer { last_write: at, write_data: data }).value_at(
            (at + NANOS_PER_SECOND) as u64,
        ) == if data >= 60 {
            data - 60
        } else {
            0
        },
        0 <= (Timer { last_write: at, write_data: data }).value_at(later) <= data,
{
    let t = Timer { last_write: at, write_data: data };
    assert((data * 1_000_000_000 + 500_000_000) / 1_000_000_000int == data);
    if data >= 60 {
        assert(((data - 60) * 1_000_000_000 + 500_000_000) / 1_000_000_000int == data - 60);
    }
    let e = elapsed(at, later);
    let scaled = data * 1_000_000_000int - 60 * e;
    if scaled > 0 {
        assert(scaled <= data * 1_000_000_000int);
        assert((scaled + 500_000_000) / 1_000_000_000int <= (data * 1_000_000_000int
            + 500_000_000) / 1_000_000_000int) by (nonlinear_arith)
            requires
                scaled <= data * 1_000_000_000int,
                scaled > 0,
        ;
    }
}

/// The register file: sixteen 8-bit registers (`v[15]` doubles as the flag),
/// the index register, the two timers, the program counter and the call
/// stack, a ring of sixteen return addresses.
pub struct Registers {
    pub v: [u8; REGISTER_COUNT],
    pub i: u16,
    pub timers: [Timer; 2],
    pub pc: u16,
    pub sp: u8,
    pub stack: [u16; STACK_SIZE],
}

/// The ring slot that the stack pointer `sp` designates.
pub open spec fn ring_slot(sp: u8) -> int {
    (sp % 16) as int
}

impl Registers {
    /// Zeroed registers with the program counter at `pc_begin`.
    pub fn new(pc_begin: u16) -> (r: Registers)
        ensures
            r.v@ == Seq::new(16, |k: int| 0u8),
            r.i == 0,
            r.pc == pc_begin,
            r.sp == 0,
            r.stack@ == Seq::new(16, |k: int| 0u16),
            r.timers@ == seq![
                Timer { last_write: 0, write_data: 0 },
                Timer { last_write: 0, write_data: 0 },
            ],
            forall|k: int, now: u64| 0 <= k < 2 ==> #[trigger] r.timers@[k].value_at(now) == 0,
    {
        let r = Registers {
            v: [0u8; REGISTER_COUNT],
            i: 0,
            timers: [Timer::new(), Timer::new()],
            pc: pc_begin,
            sp: 0,
            stack: [0u16; STACK_SIZE],
        };
        assert(r.v@ =~= Seq::new(16, |k: int| 0u8));
        assert(r.stack@ =~= Seq::new(16, |k: int| 0u16));
        assert(r.timers@ =~= seq![
            Timer { last_write: 0, write_data: 0 },
            Timer { last_write: 0, write_data: 0 },
        ]);
        r
    }

    /// Pushes a return address: it goes to the slot the stack pointer
    /// designates, and the pointer moves forward, from 15 back to 0.
    pub fn push(&mut self, addr: u16)
        ensures
            final(self).stack@ == old(self).stack@.update(ring_slot(old(self).sp), addr),
            final(self).sp == (ring_slot(old(self).sp) + 1) % 16,
            final(self).v == old(self).v,
            final(self).i == old(self).i,
            final(self).timers == old(self).timers,
            final(self).pc == old(self).pc,
    {
        let slot = self.sp % 16;
        self.stack[slot as usize] = addr;
        self.sp = (slot + 1) % 16;
    }

    /// Pops a return address: the stack pointer moves back, from 0 to 15,
    /// and the slot it then designates is returned.
    pub fn pop(&mut self) -> (r: u16)
        ensures
            final(self).sp == (ring_slot(old(self).sp) + 15) % 16,
            r == old(self).stack@[(ring_slot(old(self).sp) + 15) % 16],
            final(self).stack == old(self).stack,
            final(self).v == old(self).v,
            final(self).i == old(self).i,
            final(self).timers == old(self).timers,
            final(self).pc == old(self).pc,
    {
        let slot = (self.sp % 16 + 15) % 16;
        self.sp = slot;
        self.stack[slot as usize]
    }
}

} // verus!
