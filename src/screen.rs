use vstd::prelude::*;

verus! {

/// Columns of the framebuffer.
pub const WIDTH: usize = 64;

/// Rows of the framebuffer.
pub const HEIGHT: usize = 32;

/// The framebuffer: one 64-bit word per row, bit 63 the leftmost pixel.
pub struct Screen(pub [u64; HEIGHT]);

/// Whether column `col` (0 = leftmost) of a row word is lit.
pub open spec fn pixel(row: u64, col: u64) -> bool {
    (row >> ((63 - col) as u64)) & 1 == 1
}

/// Whether column `k` (0 = leftmost, most significant bit) of a sprite row
/// is set.
pub open spec fn sprite_bit(byte: u8, k: u64) -> bool {
    (byte >> ((7 - k) as u8)) & 1 == 1
}

/// The row word that a sprite row `byte` contributes when its left edge is
/// at column `x`: the byte is placed in the top eight bits and shifted right
/// by `x`, dropping what passes column 63 (`clip`) or rotating it back in at
/// column 0.
pub open spec fn row_mask(byte: u8, x: u64, clip: bool) -> u64 {
    let data = (byte as u64) << 56u64;
    if clip {
        data >> x
    } else if x == 0 {
        data
    } else {
        (data >> x) | (data << ((64 - x) as u64))
    }
}

/// The row that sprite row `k` lands on when the sprite's top is at row `y`;
/// rows past the bottom wrap to the top unless clipping, where they fall
/// outside the framebuffer.
pub open spec fn target_row(y: int, k: int, clip: bool) -> int {
    if clip {
        y + k
    } else {
        (y + k) % (HEIGHT as int)
    }
}

/// The framebuffer after XOR-ing the sprite `rows` at `(x, y)` in, and
/// whether any lit pixel was hit. Rows are drawn top to bottom; a row that
/// falls outside the framebuffer is not drawn.
pub open spec fn blit(screen: Seq<u64>, x: u64, y: int, rows: Seq<u8>, clip: bool) -> (Seq<u64>, bool)
    decreases rows.len(),
{
    if rows.len() == 0 {
        (screen, false)
    } else {
        let (s, c) = blit(screen, x, y, rows.drop_last(), clip);
        let k = rows.len() - 1;
        let t = target_row(y, k, clip);
        if !(0 <= t < HEIGHT) {
            (s, c)
        } else {
            let m = row_mask(rows[k], x, clip);
            (s.update(t, s[t] ^ m), c || (s[t] & m) != 0)
        }
    }
}

fn row_mask_exec(byte: u8, x: u64, clip: bool) -> (r: u64)
    requires
        x < 64,
    ensures
        r == row_mask(byte, x, clip),
{
    let data = (byte as u64) << 56u64;
    if clip {
        data >> x
    } else if x == 0 {
        data
    } else {
        (data >> x) | (data << (64 - x))
    }
}

impl Screen {
    /// A blank framebuffer.
    pub fn new() -> (r: Screen)
        ensures
            r.0@ == Seq::new(HEIGHT as nat, |k: int| 0u64),
    {
        let r = Screen([0u64; HEIGHT]);
        assert(r.0@ =~= Seq::new(HEIGHT as nat, |k: int| 0u64));
        r
    }

    /// Turns every pixel off.
    pub fn clear(&mut self)
        ensures
            final(self).0@ == Seq::new(HEIGHT as nat, |k: int| 0u64),
    {
        let mut k: usize = 0;
        while k < HEIGHT
            invariant
                k <= HEIGHT,
                self.0@.len() == HEIGHT,
                forall|j: int| 0 <= j < k ==> self.0@[j] == 0,
            decreases HEIGHT - k,
        {
            self.0[k] = 0;
            k = k + 1;
        }
        assert(self.0@ =~= Seq::new(HEIGHT as nat, |k: int| 0u64));
    }

    /// The framebuffer as RGB bytes, row by row and left to right: three
    /// bytes per pixel, `on` for a lit pixel and `off` for a dark one.
    pub fn rgb_image(&self, on: [u8; 3], off: [u8; 3]) -> (r: Vec<u8>)
        ensures
            r@.len() == WIDTH * HEIGHT * 3,
            forall|p: int, c: int|
                0 <= p < WIDTH * HEIGHT && 0 <= c < 3 ==> #[trigger] r@[3 * p + c] == if pixel(
                    self.0@[p / 64],
                    (p % 64) as u64,
                ) {
                    on@[c]
                } else {
                    off@[c]
                },
    {
        let mut r: Vec<u8> = Vec::new();
        let mut p: usize = 0;
        while p < WIDTH * HEIGHT
            invariant
                p <= WIDTH * HEIGHT,
                r@.len() == 3 * p,
                forall|q: int, c: int|
                    0 <= q < p && 0 <= c < 3 ==> #[trigger] r@[3 * q + c] == if pixel(
                        self.0@[q / 64],
                        (q % 64) as u64,
                    ) {
                        on@[c]
                    } else {
                        off@[c]
                    },
            decreases WIDTH * HEIGHT - p,
        {
            let row = self.0[p / 64];
            let col = (p % 64) as u64;
            let lit = (row >> (63 - col)) & 1 == 1;
            let color = if lit {
                on
            } else {
                off
            };
            let ghost prev = r@;
            r.push(color[0]);
            r.push(color[1]);
            r.push(color[2]);
            proof {
                assert forall|q: int, c: int| 0 <= q < p + 1 && 0 <= c < 3 implies #[trigger] r@[3 * q
                    + c] == if pixel(self.0@[q / 64], (q % 64) as u64) {
                    on@[c]
                } else {
                    off@[c]
                } by {
                    if q < p {
                        assert(r@[3 * q + c] == prev[3 * q + c]);
                    } else {
                        assert(q == p);
                        assert(lit == pixel(self.0@[q / 64], (q % 64) as u64));
                    }
                }
            }
            p = p + 1;
        }
        r
    }

    /// XORs the sprite `rows` in with its top-left corner at
    /// `(origin_x mod 64, origin_y mod 32)`, clipping or wrapping at the
    /// edges; returns whether a lit pixel was hit.
    pub fn draw(&mut self, origin_x: u8, origin_y: u8, rows: &[u8], clip: bool) -> (r: bool)
        ensures
            (final(self).0@, r) == blit(
                old(self).0@,
                (origin_x % 64) as u64,
                (origin_y % 32) as int,
                rows@,
                clip,
            ),
    {
        let x = (origin_x % 64) as u64;
        let y = (origin_y % 32) as usize;
        let mut collision = false;
        let mut k: usize = 0;
        let mut row: usize = y;
        let mut inside = true;
        while k < rows.len()
            invariant
                k <= rows@.len(),
                x < 64,
                y < 32,
                self.0@.len() == HEIGHT,
                inside ==> row == target_row(y as int, k as int, clip),
                inside ==> row < HEIGHT,
                !inside ==> clip && y + k >= HEIGHT,
                (self.0@, collision) == blit(old(self).0@, x, y as int, rows@.subrange(0, k as int), clip),
            decreases rows@.len() - k,
        {
            let ghost before = self.0@;
            let ghost prefix = rows@.subrange(0, k as int);
            let ghost next = rows@.subrange(0, k + 1);
            assert(next.drop_last() =~= prefix);
            assert(next[k as int] == rows@[k as int]);
            if inside {
                let m = row_mask_exec(rows[k], x, clip);
                let cur = self.0[row];
                collision = collision || (cur & m) != 0;
                self.0[row] = cur ^ m;
                if clip {
                    if row + 1 < HEIGHT {
                        row = row + 1;
                    } else {
                        inside = false;
                    }
                } else {
                    row = (row + 1) % HEIGHT;
                }
            }
            k = k + 1;
        }
        assert(rows@.subrange(0, rows@.len() as int) =~= rows@);
        collision
    }
}

/// With clipping, the sprite's pixels land at columns `x..x+8` and those
/// that would pass column 63 are dropped: nothing reappears at the left.
pub proof fn lemma_clip_columns(byte: u8, x: u64, col: u64)
    by (bit_vector)
    requires
        x < 64,
        col < 64,
    ensures
        pixel(row_mask(byte, x, true), col) == (x <= col && col < x + 8 && sprite_bit(
            byte,
            (col - x) as u64,
        )),
{
}

/// Without clipping, the sprite's pixels that pass column 63 reappear from
/// column 0: column `col` shows sprite column `(col - x) mod 64`.
pub proof fn lemma_wrap_columns(byte: u8, x: u64, col: u64)
    by (bit_vector)
    requires
        x < 64,
        col < 64,
    ensures
        pixel(row_mask(byte, x, false), col) == (((col + 64 - x) % 64) < 8 && sprite_bit(
            byte,
            ((col + 64 - x) % 64) as u64,
        )),
{
}

/// Drawing keeps the framebuffer's height.
pub proof fn lemma_blit_len(screen: Seq<u64>, x: u64, y: int, rows: Seq<u8>, clip: bool)
    requires
        screen.len() == HEIGHT,
    ensures
        blit(screen, x, y, rows, clip).0.len() == screen.len(),
    decreases rows.len(),
{
    if rows.len() > 0 {
        lemma_blit_len(screen, x, y, rows.drop_last(), clip);
    }
}

/// With clipping, sprite row `k` is XOR-ed into row `y + k` while that row
/// exists; rows above `y` are untouched, so nothing wraps to the top.
pub proof fn lemma_clip_rows(screen: Seq<u64>, x: u64, y: int, rows: Seq<u8>)
    requires
        screen.len() == HEIGHT,
        0 <= y < HEIGHT,
    ensures
        forall|r: int|
            0 <= r < HEIGHT ==> #[trigger] blit(screen, x, y, rows, true).0[r] == if y <= r < y
                + rows.len() {
                screen[r] ^ row_mask(rows[r - y], x, true)
            } else {
                screen[r]
            },
    decreases rows.len(),
{
    if rows.len() > 0 {
        let prefix = rows.drop_last();
        lemma_clip_rows(screen, x, y, prefix);
        lemma_blit_len(screen, x, y, prefix, true);
    }
}

/// Without clipping (and for a sprite no taller than the framebuffer),
/// sprite row `k` is XOR-ed into row `(y + k) mod 32`: rows past the bottom
/// reappear at the top.
pub proof fn lemma_wrap_rows(screen: Seq<u64>, x: u64, y: int, rows: Seq<u8>)
    requires
        screen.len() == HEIGHT,
        0 <= y < HEIGHT,
        rows.len() <= HEIGHT,
    ensures
        forall|r: int|
            0 <= r < HEIGHT ==> #[trigger] blit(screen, x, y, rows, false).0[r] == if (r - y + 32)
                % 32 < rows.len() {
                screen[r] ^ row_mask(rows[(r - y + 32) % 32], x, false)
            } else {
                screen[r]
            },
    decreases rows.len(),
{
    if rows.len() > 0 {
        let prefix = rows.drop_last();
        let k = rows.len() - 1;
        lemma_wrap_rows(screen, x, y, prefix);
        lemma_blit_len(screen, x, y, prefix, false);
        let s = blit(screen, x, y, prefix, false).0;
        let t = target_row(y, k, false);
        assert(t == if y + k < 32 {
            y + k
        } else {
            y + k - 32
        });
        let m = row_mask(rows[k], x, false);
        assert(blit(screen, x, y, rows, false).0 == s.update(t, s[t] ^ m));
        assert forall|r: int| 0 <= r < HEIGHT implies #[trigger] blit(screen, x, y, rows, false).0[r]
            == if (r - y + 32) % 32 < rows.len() {
            screen[r] ^ row_mask(rows[(r - y + 32) % 32], x, false)
        } else {
            screen[r]
        } by {
            let d = (r - y + 32) % 32;
            assert(d == if r >= y {
                r - y
            } else {
                r - y + 32
            });
            if r == t {
                assert(d == k);
            } else {
                assert(d != k);
                if d < k {
                    assert(rows[d] == prefix[d]);
                }
            }
        }
    }
}

/// Whether drawing sprite row `k` (after rows `0..k`) turned a lit pixel of
/// its destination row off.
pub open spec fn step_clears_pixel(screen: Seq<u64>, x: u64, y: int, rows: Seq<u8>, clip: bool, k: int) -> bool {
    let before = blit(screen, x, y, rows.subrange(0, k), clip).0;
    let after = blit(screen, x, y, rows.subrange(0, k + 1), clip).0;
    let t = target_row(y, k, clip);
    0 <= t < HEIGHT && (before[t] & !after[t]) != 0
}

proof fn lemma_xor_clears(a: u64, m: u64)
    by (bit_vector)
    ensures
        (a & !(a ^ m)) == (a & m),
{
}

proof fn lemma_step_clears_prefix(screen: Seq<u64>, x: u64, y: int, rows: Seq<u8>, clip: bool, k: int)
    requires
        rows.len() > 0,
        0 <= k < rows.len() - 1,
    ensures
        step_clears_pixel(screen, x, y, rows, clip, k) == step_clears_pixel(
            screen,
            x,
            y,
            rows.drop_last(),
            clip,
            k,
        ),
{
    assert(rows.subrange(0, k) =~= rows.drop_last().subrange(0, k));
    assert(rows.subrange(0, k + 1) =~= rows.drop_last().subrange(0, k + 1));
}

/// A draw reports a collision exactly when one of its sprite rows turned a
/// lit pixel off.
pub proof fn lemma_collision_iff_pixel_cleared(
    screen: Seq<u64>,
    x: u64,
    y: int,
    rows: Seq<u8>,
    clip: bool,
)
    requires
        screen.len() == HEIGHT,
    ensures
        blit(screen, x, y, rows, clip).1 <==> exists|k: int|
            0 <= k < rows.len() && #[trigger] step_clears_pixel(screen, x, y, rows, clip, k),
    decreases rows.len(),
{
    if rows.len() > 0 {
        let prefix = rows.drop_last();
        let k = rows.len() - 1;
        lemma_collision_iff_pixel_cleared(screen, x, y, prefix, clip);
        lemma_blit_len(screen, x, y, prefix, clip);
        assert(rows.subrange(0, k) =~= prefix);
        assert(rows.subrange(0, k + 1) =~= rows);
        let s = blit(screen, x, y, prefix, clip).0;
        let t = target_row(y, k, clip);
        if 0 <= t < HEIGHT {
            lemma_xor_clears(s[t], row_mask(rows[k], x, clip));
        }
        assert forall|j: int| 0 <= j < k implies step_clears_pixel(screen, x, y, rows, clip, j)
            == step_clears_pixel(screen, x, y, prefix, clip, j) by {
            lemma_step_clears_prefix(screen, x, y, rows, clip, j);
        }
        if blit(screen, x, y, rows, clip).1 {
            if !blit(screen, x, y, prefix, clip).1 {
                let m = row_mask(rows[k], x, clip);
                assert(0 <= t < HEIGHT);
                assert((s[t] & m) != 0);
                assert(blit(screen, x, y, rows, clip).0[t] == s[t] ^ m);
                assert(step_clears_pixel(screen, x, y, rows, clip, k));
            }
        }
    }
}

/// Drawing onto rows that are all dark reports no collision (without
/// clipping, for a sprite no taller than the framebuffer, so that no row is
/// drawn twice).
pub proof fn lemma_no_collision_on_blank(
    screen: Seq<u64>,
    x: u64,
    y: int,
    rows: Seq<u8>,
    clip: bool,
)
    requires
        screen.len() == HEIGHT,
        0 <= y < HEIGHT,
        clip || rows.len() <= HEIGHT,
        forall|k: int|
            0 <= k < rows.len() && 0 <= #[trigger] target_row(y, k, clip) < HEIGHT ==> screen[target_row(
                y,
                k,
                clip,
            )] == 0,
    ensures
        !blit(screen, x, y, rows, clip).1,
    decreases rows.len(),
{
    if rows.len() > 0 {
        let prefix = rows.drop_last();
        let k = rows.len() - 1;
        assert forall|j: int|
            0 <= j < prefix.len() && 0 <= #[trigger] target_row(y, j, clip) < HEIGHT implies screen[target_row(
                y,
                j,
                clip,
            )] == 0 by {
            assert(0 <= j < rows.len());
        }
        lemma_no_collision_on_blank(screen, x, y, prefix, clip);
        let t = target_row(y, k, clip);
        if 0 <= t < HEIGHT {
            let s = blit(screen, x, y, prefix, clip).0;
            if clip {
                lemma_clip_rows(screen, x, y, prefix);
            } else {
                lemma_wrap_rows(screen, x, y, prefix);
            }
            assert(s[t] == screen[t]);
            assert(screen[t] == 0);
            let m = row_mask(rows[k], x, clip);
            assert((0u64 & m) == 0) by (bit_vector);
        }
    }
}

} // verus!
