use vstd::prelude::*;

verus! {

/// A fetched instruction word split into its four 4-bit fields, most
/// significant first.
pub struct Instruction(pub (u8, u8, u8, u8));

/// The value of the four nibbles `(a, b, c, d)` read as one big-endian word.
pub open spec fn word_of(p: (u8, u8, u8, u8)) -> int {
    p.0 * 4096 + p.1 * 256 + p.2 * 16 + p.3
}

/// The four nibbles of a 16-bit word, most significant first.
pub open spec fn nibbles_of(w: u16) -> (u8, u8, u8, u8) {
    ((w / 4096) as u8, ((w / 256) % 16) as u8, ((w / 16) % 16) as u8, (w % 16) as u8)
}

impl Instruction {
    /// Every field holds a nibble.
    pub open spec fn wf(&self) -> bool {
        self.0.0 < 16 && self.0.1 < 16 && self.0.2 < 16 && self.0.3 < 16
    }

    pub fn new(code: (u8, u8, u8, u8)) -> (r: Instruction)
        ensures
            r.0 == code,
    {
        Instruction(code)
    }

    /// Splits a 16-bit word into its nibbles.
    pub fn from_word(w: u16) -> (r: Instruction)
        ensures
            r.wf(),
            r.0 == nibbles_of(w),
            word_of(r.0) == w,
    {
        let a = (w / 4096) as u8;
        let b = ((w / 256) % 16) as u8;
        let c = ((w / 16) % 16) as u8;
        let d = (w % 16) as u8;
        Instruction((a, b, c, d))
    }

    pub fn parts(&self) -> (r: (u8, u8, u8, u8))
        ensures
            r == self.0,
    {
        self.0
    }

    /// The target register index (second nibble).
    pub fn x(&self) -> (r: u8)
        ensures
            r == self.0.1,
    {
        self.0.1
    }

    /// The source register index (third nibble).
    pub fn y(&self) -> (r: u8)
        ensures
            r == self.0.2,
    {
        self.0.2
    }

    /// The immediate nibble (last nibble).
    pub fn n(&self) -> (r: u8)
        ensures
            r == self.0.3,
    {
        self.0.3
    }

    /// The immediate byte formed from the last two nibbles.
    pub fn kk(&self) -> (r: u8)
        ensures
            r == ((self.0.2 << 4u8) | self.0.3),
            self.wf() ==> r == self.0.2 * 16 + self.0.3,
    {
        let hi = self.0.2;
        let lo = self.0.3;
        proof {
            if hi < 16 && lo < 16 {
                assert((hi << 4u8) | lo == hi * 16 + lo) by (bit_vector)
                    requires
                        hi < 16,
                        lo < 16,
                ;
            }
        }
        (hi << 4u8) | lo
    }

    /// The 12-bit address formed from the last three nibbles.
    pub fn nnn(&self) -> (r: u16)
        ensures
            r == (((self.0.1 as u16) << 8u16) | ((self.0.2 as u16) << 4u16) | (self.0.3 as u16)),
            self.wf() ==> r == self.0.1 * 256 + self.0.2 * 16 + self.0.3,
    {
        let a = self.0.1 as u16;
        let b = self.0.2 as u16;
        let c = self.0.3 as u16;
        proof {
            if a < 16 && b < 16 && c < 16 {
                assert((a << 8u16) | (b << 4u16) | c == a * 256 + b * 16 + c) by (bit_vector)
                    requires
                        a < 16,
                        b < 16,
                        c < 16,
                ;
            }
        }
        (a << 8u16) | (b << 4u16) | c
    }
}

} // verus!
