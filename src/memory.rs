use vstd::prelude::*;

use crate::instruction::{Instruction, nibbles_of, word_of};

verus! {

/// Size of the address space in bytes (12-bit addresses).
pub const MEMORY_SIZE: usize = 4096;

/// Width of a built-in glyph in pixels.
pub const HEX_SPRITES_WIDTH: u8 = 8;

/// Height of a built-in glyph in rows (bytes).
pub const HEX_SPRITES_HEIGHT: u8 = 5;

/// Address of the first built-in glyph.
pub const HEX_SPRITES_START_MEM: u16 = 0x0000;

/// Number of bytes taken by the sixteen built-in glyphs.
pub const HEX_SPRITES_LEN: usize = 80;

/// The sixteen 5-row glyphs of the hexadecimal digits `0..=F`, one after
/// the other.
pub open spec fn glyph_data() -> Seq<u8> {
    seq![
        0xF0u8, 0x90, 0x90, 0x90, 0xF0, // 0
        0x20, 0x60, 0x20, 0x20, 0x70, // 1
        0xF0, 0x10, 0xF0, 0x80, 0xF0, // 2
        0xF0, 0x10, 0xF0, 0x10, 0xF0, // 3
        0x90, 0x90, 0xF0, 0x10, 0x10, // 4
        0xF0, 0x80, 0xF0, 0x10, 0xF0, // 5
        0xF0, 0x80, 0xF0, 0x90, 0xF0, // 6
        0xF0, 0x10, 0x20, 0x40, 0x40, // 7
        0xF0, 0x90, 0xF0, 0x90, 0xF0, // 8
        0xF0, 0x90, 0xF0, 0x10, 0xF0, // 9
        0xF0, 0x90, 0xF0, 0x90, 0x90, // A
        0xE0, 0x90, 0xE0, 0x90, 0xE0, // B
        0xF0, 0x80, 0x80, 0x80, 0xF0, // C
        0xE0, 0x90, 0x90, 0x90, 0xE0, // D
        0xF0, 0x80, 0xF0, 0x80, 0xF0, // E
        0xF0, 0x80, 0xF0, 0x80, 0x80, // F
    ]
}

/// The contents of memory right after loading `program` at `begin`: the
/// program bytes over the glyph table over zeroes.
pub open spec fn loaded_image(program: Seq<u8>, begin: int) -> Seq<u8> {
    Seq::new(
        MEMORY_SIZE as nat,
        |a: int|
            if begin <= a < begin + program.len() {
                program[a - begin]
            } else if a < HEX_SPRITES_LEN {
                glyph_data()[a]
            } else {
                0u8
            },
    )
}

/// The big-endian word stored at `addr` and `addr + 1`.
pub open spec fn word_at(mem: Seq<u8>, addr: int) -> int {
    mem[addr] * 256 + mem[addr + 1]
}

fn glyph_table() -> (r: [u8; HEX_SPRITES_LEN])
    ensures
        r@ == glyph_data(),
{
    let r: [u8; HEX_SPRITES_LEN] = [
        0xF0, 0x90, 0x90, 0x90, 0xF0, 0x20, 0x60, 0x20, 0x20, 0x70,
        0xF0, 0x10, 0xF0, 0x80, 0xF0, 0xF0, 0x10, 0xF0, 0x10, 0xF0,
        0x90, 0x90, 0xF0, 0x10, 0x10, 0xF0, 0x80, 0xF0, 0x10, 0xF0,
        0xF0, 0x80, 0xF0, 0x90, 0xF0, 0xF0, 0x10, 0x20, 0x40, 0x40,
        0xF0, 0x90, 0xF0, 0x90, 0xF0, 0xF0, 0x90, 0xF0, 0x10, 0xF0,
        0xF0, 0x90, 0xF0, 0x90, 0x90, 0xE0, 0x90, 0xE0, 0x90, 0xE0,
        0xF0, 0x80, 0x80, 0x80, 0xF0, 0xE0, 0x90, 0x90, 0x90, 0xE0,
        0xF0, 0x80, 0xF0, 0x80, 0xF0, 0xF0, 0x80, 0xF0, 0x80, 0x80,
    ];
    assert(r@ =~= glyph_data());
    r
}

/// The machine's byte-addressed memory.
pub struct Memory(pub [u8; MEMORY_SIZE]);

impl View for Memory {
    type V = Seq<u8>;

    open spec fn view(&self) -> Seq<u8> {
        self.0@
    }
}

impl Memory {
    /// Memory holding the glyph table and `program` loaded at `program_begin`.
    /// The program must fit below the end of the address space.
    pub fn new(program: Vec<u8>, program_begin: u16) -> (r: Memory)
        requires
            program_begin + program.len() <= MEMORY_SIZE,
        ensures
            r@ == loaded_image(program@, program_begin as int),
    {
        let mut mem = Memory([0u8; MEMORY_SIZE]);
        let glyphs = glyph_table();
        let mut addr: usize = 0;
        while addr < HEX_SPRITES_LEN
            invariant
                addr <= HEX_SPRITES_LEN,
                glyphs@ == glyph_data(),
                mem@.len() == MEMORY_SIZE,
                forall|a: int| 0 <= a < addr ==> mem@[a] == glyph_data()[a],
                forall|a: int| addr <= a < MEMORY_SIZE ==> mem@[a] == 0,
            decreases HEX_SPRITES_LEN - addr,
        {
            mem.0[addr] = glyphs[addr];
            addr = addr + 1;
        }
        let mut index: usize = 0;
        while index < program.len()
            invariant
                index <= program.len(),
                program_begin + program.len() <= MEMORY_SIZE,
                mem@.len() == MEMORY_SIZE,
                forall|a: int|
                    0 <= a < MEMORY_SIZE ==> mem@[a] == (if program_begin <= a < program_begin
                        + index {
                        program@[a - program_begin]
                    } else if a < HEX_SPRITES_LEN {
                        glyph_data()[a]
                    } else {
                        0u8
                    }),
            decreases program.len() - index,
        {
            let a = program_begin as usize + index;
            mem.0[a] = program[index];
            index = index + 1;
        }
        assert(mem@ =~= loaded_image(program@, program_begin as int));
        mem
    }

    pub fn write(&mut self, addr: u16, data: u8)
        requires
            addr < MEMORY_SIZE,
        ensures
            final(self)@ == old(self)@.update(addr as int, data),
    {
        self.0[addr as usize] = data;
    }

    pub fn read(&self, addr: u16) -> (r: u8)
        requires
            addr < MEMORY_SIZE,
        ensures
            r == self@[addr as int],
    {
        self.0[addr as usize]
    }

    /// The big-endian word at `addr`, `addr + 1`.
    pub fn read_u16(&self, addr: u16) -> (r: u16)
        requires
            addr + 1 < MEMORY_SIZE,
        ensures
            r == word_at(self@, addr as int),
    {
        let a = addr as usize;
        let msb = self.0[a] as u16;
        let lsb = self.0[a + 1] as u16;
        msb * 256 + lsb
    }

    /// The instruction at `addr`, split into nibbles.
    pub fn read_instruction(&self, addr: u16) -> (r: Instruction)
        requires
            addr + 1 < MEMORY_SIZE,
        ensures
            r.wf(),
            word_of(r.0) == word_at(self@, addr as int),
            r.0 == nibbles_of(word_at(self@, addr as int) as u16),
    {
        let data = self.read_u16(addr);
        Instruction::from_word(data)
    }

    /// The `len` bytes starting at `base`.
    pub fn read_block(&self, base: u16, len: u8) -> (r: Vec<u8>)
        requires
            base + len <= MEMORY_SIZE,
        ensures
            r@ == self@.subrange(base as int, base + len),
    {
        let mut r: Vec<u8> = Vec::new();
        let mut k: u8 = 0;
        while k < len
            invariant
                k <= len,
                base + len <= MEMORY_SIZE,
                r@ == self@.subrange(base as int, base + k),
            decreases len - k,
        {
            r.push(self.0[base as usize + k as usize]);
            k = k + 1;
            assert(r@ =~= self@.subrange(base as int, base + k));
        }
        r
    }

    /// Stores `regs[0..=last]` at `base..=base + last`.
    pub fn store_registers(&mut self, base: u16, regs: &[u8; 16], last: u8)
        requires
            last < 16,
            base + last < MEMORY_SIZE,
        ensures
            final(self)@ == Seq::new(
                MEMORY_SIZE as nat,
                |a: int|
                    if base <= a <= base + last {
                        regs@[a - base]
                    } else {
                        old(self)@[a]
                    },
            ),
    {
        let mut k: usize = 0;
        while k <= last as usize
            invariant
                k <= last + 1,
                last < 16,
                base + last < MEMORY_SIZE,
                self@.len() == MEMORY_SIZE,
                forall|a: int|
                    0 <= a < MEMORY_SIZE ==> self@[a] == if base <= a < base + k {
                        regs@[a - base]
                    } else {
                        old(self)@[a]
                    },
            decreases last + 1 - k,
        {
            self.0[base as usize + k] = regs[k];
            k = k + 1;
        }
        assert(self@ =~= Seq::new(
            MEMORY_SIZE as nat,
            |a: int|
                if base <= a <= base + last {
                    regs@[a - base]
                } else {
                    old(self)@[a]
                },
        ));
    }

    /// `regs` with `regs[0..=last]` replaced by the bytes at
    /// `base..=base + last`.
    pub fn load_registers(&self, base: u16, last: u8, regs: [u8; 16]) -> (r: [u8; 16])
        requires
            last < 16,
            base + last < MEMORY_SIZE,
        ensures
            r@ == Seq::new(16, |k: int| if k <= last { self@[base + k] } else { regs@[k] }),
    {
        let mut r = regs;
        let mut k: usize = 0;
        while k <= last as usize
            invariant
                k <= last + 1,
                last < 16,
                base + last < MEMORY_SIZE,
                forall|j: int|
                    0 <= j < 16 ==> r@[j] == if j < k {
                        self@[base + j]
                    } else {
                        regs@[j]
                    },
            decreases last + 1 - k,
        {
            r[k] = self.0[base as usize + k];
            k = k + 1;
        }
        assert(r@ =~= Seq::new(16, |k: int| if k <= last { self@[base + k] } else { regs@[k] }));
        r
    }
}

} // verus!
