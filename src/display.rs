use vstd::prelude::*;

verus! {

/// A 64x32 monochrome frame, one 64-bit word per row.
pub struct Display(pub [u64; 32]);

impl Display {
    /// A blank frame.
    pub fn new() -> (r: Display)
        ensures
            r.0@ == Seq::new(32, |k: int| 0u64),
    {
        let r = Display([0u64; 32]);
        assert(r.0@ =~= Seq::new(32, |k: int| 0u64));
        r
    }
}

} // verus!
