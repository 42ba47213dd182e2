use vstd::prelude::*;

verus! {

/// A rectangular table of analog cell intensities, row-major, authored
/// top-down.  Each entry is an intensity in hundredths: 0 stands for a dead
/// cell, 100 for full intensity.  The table is read-only reference data,
/// used only at seeding time.
#[derive(Debug)]
pub struct Pattern {
    pub width: usize,
    pub height: usize,
    pub cells: Vec<u8>,
}

impl Pattern {
    /// The table is a non-empty rectangle of valid intensities, with each
    /// edge small enough to be placed on a `u32`-sized grid.
    pub open spec fn wf(self) -> bool {
        &&& 0 < self.width <= u32::MAX
        &&& 0 < self.height <= u32::MAX
        &&& self.cells@.len() == self.width * self.height
        &&& forall|i: int| 0 <= i < self.cells@.len() ==> self.cells@[i] <= 100
    }

    /// The intensity at table row `r`, column `c`, in hundredths.
    pub open spec fn at(self, r: int, c: int) -> int {
        self.cells@[r * self.width + c] as int
    }

    /// Assembles a pattern from an already valid table.
    pub fn new(width: usize, height: usize, cells: Vec<u8>) -> (p: Pattern)
        requires
            0 < width <= u32::MAX,
            0 < height <= u32::MAX,
            cells@.len() == width * height,
            forall|i: int| 0 <= i < cells@.len() ==> cells@[i] <= 100,
        ensures
            p.wf(),
            p.width == width,
            p.height == height,
            p.cells == cells,
    {
        Pattern { width, height, cells }
    }
}

/// The color channel byte that encodes an intensity given in hundredths:
/// the nearest byte to `intensity * 255`.
pub open spec fn intensity_byte(h: int) -> int {
    (h * 255 + 50) / 100
}

/// Every valid intensity encodes to a byte.
pub proof fn lemma_intensity_byte_in_range(h: int)
    requires
        0 <= h <= 100,
    ensures
        0 <= intensity_byte(h) <= 255,
{
    vstd::arithmetic::div_mod::lemma_div_is_ordered(0, h * 255 + 50, 100);
    vstd::arithmetic::div_mod::lemma_div_is_ordered(h * 255 + 50, 25550, 100);
}

/// Computes the channel byte of an intensity.
pub fn intensity_byte_exec(h: u8) -> (b: u8)
    requires
        h <= 100,
    ensures
        b == intensity_byte(h as int),
{
    proof {
        lemma_intensity_byte_in_range(h as int);
    }
    ((h as u32 * 255 + 50) / 100) as u8
}

/// The centered placement offset of a pattern edge within a grid edge;
/// negative when the pattern is wider than the grid.
pub open spec fn center_offset(grid: int, pat: int) -> int {
    grid / 2 - pat / 2
}

/// Whether grid cell (x, y) falls inside the pattern's centered bounding
/// box on a `w` x `h` grid.
pub open spec fn in_pattern_box(p: Pattern, w: int, h: int, x: int, y: int) -> bool {
    let cx = center_offset(w, p.width as int);
    let cy = center_offset(h, p.height as int);
    cx <= x < cx + p.width && cy <= y < cy + p.height
}

/// The channel intensity byte of grid cell (x, y) when `p` is stamped
/// centered into a `w` x `h` grid: cells outside the box are dead, and rows
/// are read with their order inverted, because the table is authored
/// top-down while the grid's y axis grows upward — the box's bottom edge
/// shows the table's last row.
pub open spec fn pattern_cell_byte(p: Pattern, w: int, h: int, x: int, y: int) -> int {
    if in_pattern_box(p, w, h, x, y) {
        let cx = center_offset(w, p.width as int);
        let cy = center_offset(h, p.height as int);
        intensity_byte(p.at(p.height - 1 - (y - cy), x - cx))
    } else {
        0
    }
}

/// The pattern byte of a cell inside the box reads a valid table entry, so
/// it is always a byte; outside the box it is 0.
pub proof fn lemma_pattern_cell_byte_in_range(p: Pattern, w: int, h: int, x: int, y: int)
    requires
        p.wf(),
    ensures
        0 <= pattern_cell_byte(p, w, h, x, y) <= 255,
{
    if in_pattern_box(p, w, h, x, y) {
        let cx = center_offset(w, p.width as int);
        let cy = center_offset(h, p.height as int);
        let r = p.height - 1 - (y - cy);
        let c = x - cx;
        assert(0 <= r * p.width + c < p.width * p.height) by (nonlinear_arith)
            requires
                0 <= r < p.height,
                0 <= c < p.width,
        ;
        assert(p.cells@[r * p.width + c] <= 100);
        lemma_intensity_byte_in_range(p.at(r, c));
    }
}

/// Flat byte offset of grid cell (x, y) in an RGBA pixel buffer of width
/// `w`: four bytes per cell, rows laid out bottom-up in grid order.
pub open spec fn cell_offset(w: int, x: int, y: int) -> int {
    4 * (y * w + x)
}

/// How a flat RGBA byte index decomposes into a cell and a channel.
pub proof fn lemma_seed_index(w: int, h: int, x: int, y: int)
    requires
        0 <= x < w,
        0 <= y < h,
    ensures
        0 <= y * w + x,
        y * w + x < w * h,
        (4 * (y * w + x)) / 4 == y * w + x,
        (4 * (y * w + x)) % 4 == 0,
        (4 * (y * w + x) + 1) / 4 == y * w + x,
        (4 * (y * w + x) + 1) % 4 == 1,
        (4 * (y * w + x) + 2) / 4 == y * w + x,
        (4 * (y * w + x) + 2) % 4 == 2,
        (4 * (y * w + x) + 3) / 4 == y * w + x,
        (4 * (y * w + x) + 3) % 4 == 3,
        (y * w + x) % w == x,
        (y * w + x) / w == y,
{
    assert(0 <= y * w + x && y * w + x < w * h) by (nonlinear_arith)
        requires
            0 <= x < w,
            0 <= y < h,
    ;
    let cell = y * w + x;
    vstd::arithmetic::div_mod::lemma_fundamental_div_mod_converse_div(4 * cell, 4, cell, 0);
    vstd::arithmetic::div_mod::lemma_fundamental_div_mod_converse_mod(4 * cell, 4, cell, 0);
    vstd::arithmetic::div_mod::lemma_fundamental_div_mod_converse_div(4 * cell + 1, 4, cell, 1);
    vstd::arithmetic::div_mod::lemma_fundamental_div_mod_converse_mod(4 * cell + 1, 4, cell, 1);
    vstd::arithmetic::div_mod::lemma_fundamental_div_mod_converse_div(4 * cell + 2, 4, cell, 2);
    vstd::arithmetic::div_mod::lemma_fundamental_div_mod_converse_mod(4 * cell + 2, 4, cell, 2);
    vstd::arithmetic::div_mod::lemma_fundamental_div_mod_converse_div(4 * cell + 3, 4, cell, 3);
    vstd::arithmetic::div_mod::lemma_fundamental_div_mod_converse_mod(4 * cell + 3, 4, cell, 3);
    vstd::arithmetic::div_mod::lemma_fundamental_div_mod_converse_div(cell, w, y, x);
    vstd::arithmetic::div_mod::lemma_fundamental_div_mod_converse_mod(cell, w, y, x);
}

/// The full initial RGBA contents for pattern seeding on a `w` x `h` grid:
/// every cell's three color channels hold its pattern byte, and every alpha
/// is 255 — intensity encodes automaton state, not transparency.
pub open spec fn pattern_seed_bytes(p: Pattern, w: nat, h: nat) -> Seq<u8> {
    Seq::new(
        w * h * 4,
        |i: int|
            {
                let cell = i / 4;
                if i % 4 == 3 {
                    255u8
                } else {
                    pattern_cell_byte(p, w as int, h as int, cell % (w as int), cell / (w as int)) as u8
                }
            },
    )
}

/// Pattern seeding is deterministic: the initial contents are a function of
/// the pattern and grid size alone, so seeding twice with the same pattern
/// and grid gives byte-identical buffers.
pub proof fn lemma_pattern_seed_deterministic(b1: Seq<u8>, b2: Seq<u8>, p: Pattern, w: nat, h: nat)
    requires
        b1 == pattern_seed_bytes(p, w, h),
        b2 == pattern_seed_bytes(p, w, h),
    ensures
        b1 == b2,
{
}

/// A cell outside the pattern's centered bounding box is fully dead:
/// its bytes are (0, 0, 0, 255).
pub proof fn lemma_outside_pattern_dead(p: Pattern, w: nat, h: nat, x: int, y: int)
    requires
        p.wf(),
        0 <= x < w,
        0 <= y < h,
        !in_pattern_box(p, w as int, h as int, x, y),
    ensures
        pattern_seed_bytes(p, w, h)[cell_offset(w as int, x, y)] == 0,
        pattern_seed_bytes(p, w, h)[cell_offset(w as int, x, y) + 1] == 0,
        pattern_seed_bytes(p, w, h)[cell_offset(w as int, x, y) + 2] == 0,
        pattern_seed_bytes(p, w, h)[cell_offset(w as int, x, y) + 3] == 255,
{
    lemma_seed_index(w as int, h as int, x, y);
}

/// The vertical flip invariant: the cell at the box's corner (cx, cy) —
/// pattern row 0, column 0 in grid coordinates — shows the table's *last*
/// row, first column.
pub proof fn lemma_pattern_row_flip(p: Pattern, w: nat, h: nat)
    requires
        p.wf(),
        p.width <= w,
        p.height <= h,
        w <= u32::MAX,
        h <= u32::MAX,
    ensures
        ({
            let cx = center_offset(w as int, p.width as int);
            let cy = center_offset(h as int, p.height as int);
            pattern_seed_bytes(p, w, h)[cell_offset(w as int, cx, cy)] == intensity_byte(
                p.at(p.height as int - 1, 0),
            )
        }),
{
    let cx = center_offset(w as int, p.width as int);
    let cy = center_offset(h as int, p.height as int);
    vstd::arithmetic::div_mod::lemma_div_is_ordered(p.width as int, w as int, 2);
    vstd::arithmetic::div_mod::lemma_div_is_ordered(p.height as int, h as int, 2);
    vstd::arithmetic::div_mod::lemma_fundamental_div_mod(w as int, 2);
    vstd::arithmetic::div_mod::lemma_mod_bound(w as int, 2);
    vstd::arithmetic::div_mod::lemma_fundamental_div_mod(h as int, 2);
    vstd::arithmetic::div_mod::lemma_mod_bound(h as int, 2);
    assert(0 <= cx < w);
    assert(0 <= cy < h);
    lemma_seed_index(w as int, h as int, cx, cy);
    assert(in_pattern_box(p, w as int, h as int, cx, cy));
    lemma_pattern_cell_byte_in_range(p, w as int, h as int, cx, cy);
}

/// Writes the initial pixel contents for pattern seeding: the pattern is
/// stamped centered, vertically flipped, and every other cell is dead.
pub fn seed_pattern(width: u32, height: u32, p: &Pattern) -> (buf: Vec<u8>)
    requires
        p.wf(),
        width * height * 4 <= usize::MAX,
    ensures
        buf@ == pattern_seed_bytes(*p, width as nat, height as nat),
{
    let ghost total = pattern_seed_bytes(*p, width as nat, height as nat);
    let mut buf: Vec<u8> = Vec::new();
    let table_len = p.cells.len();
    let pw = p.width as i64;
    let ph = p.height as i64;
    let cx = (width as i64) / 2 - pw / 2;
    let cy = (height as i64) / 2 - ph / 2;
    let mut y: u32 = 0;
    while y < height
        invariant
            p.wf(),
            y <= height,
            table_len == p.cells@.len(),
            pw == p.width,
            ph == p.height,
            cx == center_offset(width as int, p.width as int),
            cy == center_offset(height as int, p.height as int),
            buf@.len() == 4 * ((y as int) * (width as int)),
            total == pattern_seed_bytes(*p, width as nat, height as nat),
            forall|i: int| 0 <= i < buf@.len() ==> buf@[i] == total[i],
        decreases height - y,
    {
        let mut x: u32 = 0;
        while x < width
            invariant
                p.wf(),
                y < height,
                x <= width,
                table_len == p.cells@.len(),
                pw == p.width,
                ph == p.height,
                cx == center_offset(width as int, p.width as int),
                cy == center_offset(height as int, p.height as int),
                buf@.len() == 4 * ((y as int) * (width as int) + (x as int)),
                total == pattern_seed_bytes(*p, width as nat, height as nat),
                forall|i: int| 0 <= i < buf@.len() ==> buf@[i] == total[i],
            decreases width - x,
        {
            let xi = x as i64;
            let yi = y as i64;
            let v: u8 = if xi >= cx && yi >= cy && xi < cx + pw && yi < cy + ph {
                let row = (ph - 1 - (yi - cy)) as usize;
                let col = (xi - cx) as usize;
                proof {
                    assert(row * p.width + col < p.width * p.height) by (nonlinear_arith)
                        requires
                            0 <= row < p.height,
                            0 <= col < p.width,
                    ;
                }
                let idx = row * p.width + col;
                intensity_byte_exec(p.cells[idx])
            } else {
                0
            };
            proof {
                lemma_seed_index(width as int, height as int, x as int, y as int);
                lemma_pattern_cell_byte_in_range(
                    *p,
                    width as int,
                    height as int,
                    x as int,
                    y as int,
                );
                assert(v == pattern_cell_byte(
                    *p,
                    width as int,
                    height as int,
                    x as int,
                    y as int,
                ));
                assert(buf@.len() == cell_offset(width as int, x as int, y as int));
                assert(cell_offset(width as int, x as int, y as int) + 3 < total.len());
            }
            buf.push(v);
            buf.push(v);
            buf.push(v);
            buf.push(255);
            x = x + 1;
        }
        y = y + 1;
        proof {
            assert(((y - 1) as int) * (width as int) + (width as int) == (y as int) * (width as int))
                by (nonlinear_arith);
        }
    }
    proof {
        assert(buf@.len() == total.len()) by (nonlinear_arith)
            requires
                buf@.len() == 4 * ((height as int) * (width as int)),
                total.len() == (width as nat) * (height as nat) * 4,
        ;
        assert(buf@ =~= total);
    }
    buf
}

/// Half of the `u32` sample space: a uniform sample falls below this
/// threshold with probability one half.
pub const ALIVE_THRESHOLD: u32 = 0x8000_0000;

/// The channel byte of one stochastically seeded cell: alive (255) exactly
/// when its sample fell below the threshold, dead (0) otherwise.
pub open spec fn stochastic_cell_byte(sample: u32) -> u8 {
    if sample < ALIVE_THRESHOLD {
        255u8
    } else {
        0u8
    }
}

/// The full initial RGBA contents for stochastic seeding: cell `i` is
/// decided by `samples[i]` alone; its color channels hold its cell byte and
/// its alpha is 255.
pub open spec fn stochastic_seed_bytes(samples: Seq<u32>) -> Seq<u8> {
    Seq::new(
        samples.len() * 4,
        |i: int|
            if i % 4 == 3 {
                255u8
            } else {
                stochastic_cell_byte(samples[i / 4])
            },
    )
}

/// Stochastic seeding is independent per cell: the four bytes of cell `i`
/// are a function of sample `i` alone, whatever the other samples hold.
pub proof fn lemma_stochastic_cell_independent(s1: Seq<u32>, s2: Seq<u32>, i: int)
    requires
        s1.len() == s2.len(),
        0 <= i < s1.len(),
        s1[i] == s2[i],
    ensures
        forall|ch: int|
            0 <= ch < 4 ==> #[trigger] stochastic_seed_bytes(s1)[4 * i + ch]
                == stochastic_seed_bytes(s2)[4 * i + ch],
{
    assert forall|ch: int| 0 <= ch < 4 implies #[trigger] stochastic_seed_bytes(s1)[4 * i + ch]
        == stochastic_seed_bytes(s2)[4 * i + ch] by {
        vstd::arithmetic::div_mod::lemma_fundamental_div_mod_converse_div(4 * i + ch, 4, i, ch);
        vstd::arithmetic::div_mod::lemma_fundamental_div_mod_converse_mod(4 * i + ch, 4, i, ch);
        assert(4 * i + ch < s1.len() * 4) by (nonlinear_arith)
            requires
                0 <= i < s1.len(),
                0 <= ch < 4,
        ;
    }
}

/// Writes the initial pixel contents for stochastic seeding from one
/// uniform sample per cell; the samples are drawn by the caller, and the
/// result is fixed by them alone.
pub fn seed_stochastic(samples: &Vec<u32>) -> (buf: Vec<u8>)
    requires
        samples@.len() * 4 <= usize::MAX,
    ensures
        buf@ == stochastic_seed_bytes(samples@),
{
    let ghost total = stochastic_seed_bytes(samples@);
    let mut buf: Vec<u8> = Vec::new();
    let n = samples.len();
    let mut i: usize = 0;
    while i < n
        invariant
            n == samples@.len(),
            i <= n,
            buf@.len() == 4 * (i as int),
            total == stochastic_seed_bytes(samples@),
            forall|k: int| 0 <= k < buf@.len() ==> buf@[k] == total[k],
        decreases n - i,
    {
        let v: u8 = if samples[i] < ALIVE_THRESHOLD {
            255
        } else {
            0
        };
        proof {
            let ii = i as int;
            vstd::arithmetic::div_mod::lemma_fundamental_div_mod_converse_div(4 * ii, 4, ii, 0);
            vstd::arithmetic::div_mod::lemma_fundamental_div_mod_converse_mod(4 * ii, 4, ii, 0);
            vstd::arithmetic::div_mod::lemma_fundamental_div_mod_converse_div(4 * ii + 1, 4, ii, 1);
            vstd::arithmetic::div_mod::lemma_fundamental_div_mod_converse_mod(4 * ii + 1, 4, ii, 1);
            vstd::arithmetic::div_mod::lemma_fundamental_div_mod_converse_div(4 * ii + 2, 4, ii, 2);
            vstd::arithmetic::div_mod::lemma_fundamental_div_mod_converse_mod(4 * ii + 2, 4, ii, 2);
            vstd::arithmetic::div_mod::lemma_fundamental_div_mod_converse_div(4 * ii + 3, 4, ii, 3);
            vstd::arithmetic::div_mod::lemma_fundamental_div_mod_converse_mod(4 * ii + 3, 4, ii, 3);
            assert(4 * (i as int) + 3 < total.len()) by (nonlinear_arith)
                requires
                    0 <= i < n,
                    n == samples@.len(),
                    total.len() == samples@.len() * 4,
            ;
        }
        buf.push(v);
        buf.push(v);
        buf.push(v);
        buf.push(255);
        i = i + 1;
    }
    proof {
        assert(buf@ =~= total);
    }
    buf
}

} // verus!
