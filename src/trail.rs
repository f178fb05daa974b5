use vstd::prelude::*;
use vstd::arithmetic::div_mod::lemma_fundamental_div_mod_converse;
use crate::units::{DIFFUSION_SCALE, MAX_CELL_WEIGHT, MAX_FIELD_SIDE};

verus! {

/// Largest magnitude of the centre of a sensor window, so that every cell
/// of a window of any `u32` half-width has an `i64` coordinate.
pub const COORD_LIMIT: i64 = 0x4000_0000_0000_0000;

/// One cell of the trail field: an intensity per colour channel.
#[derive(Clone, Copy, Debug, PartialEq, Eq, Structural)]
pub struct Trail {
    pub r: u8,
    pub g: u8,
    pub b: u8,
}

impl Trail {
    pub fn new(r: u8, g: u8, b: u8) -> (t: Trail)
        ensures
            t == (Trail { r, g, b }),
    {
        Trail { r, g, b }
    }

    /// Channel `c` (0 red, 1 green, 2 blue).
    pub open spec fn channel(self, c: int) -> int {
        if c == 0 {
            self.r as int
        } else if c == 1 {
            self.g as int
        } else {
            self.b as int
        }
    }

    /// What a sensor reads from the cell: the sum of its channels.
    pub open spec fn weight(self) -> int {
        self.r + self.g + self.b
    }
}

/// Clamps a coordinate into `[0, n - 1]`.
pub open spec fn clamp_index(v: int, n: int) -> int {
    if v < 0 {
        0
    } else if v >= n {
        n - 1
    } else {
        v
    }
}

/// The trail field as a mathematical grid, row-major.
pub struct FieldView {
    pub width: int,
    pub height: int,
    pub cells: Seq<Trail>,
}

impl FieldView {
    pub open spec fn wf(self) -> bool {
        &&& 1 <= self.width
        &&& 1 <= self.height
        &&& self.cells.len() == self.width * self.height
    }

    pub open spec fn at(self, x: int, y: int) -> Trail {
        self.cells[y * self.width + x]
    }

    /// The cell nearest to `(x, y)`: each coordinate is clamped into the grid.
    pub open spec fn at_clamped(self, x: int, y: int) -> Trail {
        self.at(clamp_index(x, self.width), clamp_index(y, self.height))
    }

    /// The field after `t` overwrites the cell `(x, y)`.
    pub open spec fn with_deposit(self, x: int, y: int, t: Trail) -> FieldView {
        FieldView { width: self.width, height: self.height, cells: self.cells.update(y * self.width + x, t) }
    }

    /// A field of the same size whose cells are all zero.
    pub open spec fn cleared(self) -> FieldView {
        FieldView {
            width: self.width,
            height: self.height,
            cells: Seq::new(self.cells.len(), |i: int| Trail { r: 0, g: 0, b: 0 }),
        }
    }
}

/// Sum of channel `c` over the 3x3 neighbourhood of `(x, y)`, clamped at the edges.
pub open spec fn neighbourhood_sum(f: FieldView, x: int, y: int, c: int) -> int {
    f.at_clamped(x - 1, y - 1).channel(c) + f.at_clamped(x, y - 1).channel(c)
        + f.at_clamped(x + 1, y - 1).channel(c) + f.at_clamped(x - 1, y).channel(c)
        + f.at_clamped(x, y).channel(c) + f.at_clamped(x + 1, y).channel(c)
        + f.at_clamped(x - 1, y + 1).channel(c) + f.at_clamped(x, y + 1).channel(c)
        + f.at_clamped(x + 1, y + 1).channel(c)
}

/// Blends a channel value with its neighbourhood mean, then evaporates a
/// fixed amount, floored at zero.
pub open spec fn mixed_channel(own: int, sum: int, strength: int, rate: int) -> int {
    let mixed = (own * (DIFFUSION_SCALE - strength) + (sum / 9) * strength) / (DIFFUSION_SCALE as int);
    if mixed > rate {
        mixed - rate
    } else {
        0
    }
}

/// Channel `c` of cell `(x, y)` after one evolution pass.
pub open spec fn evolved_channel(f: FieldView, x: int, y: int, c: int, strength: int, rate: int) -> int {
    mixed_channel(f.at(x, y).channel(c), neighbourhood_sum(f, x, y, c), strength, rate)
}

pub open spec fn evolved_cell(f: FieldView, x: int, y: int, strength: int, rate: int) -> Trail {
    Trail {
        r: evolved_channel(f, x, y, 0, strength, rate) as u8,
        g: evolved_channel(f, x, y, 1, strength, rate) as u8,
        b: evolved_channel(f, x, y, 2, strength, rate) as u8,
    }
}

/// The whole field after one diffusion and evaporation pass.
pub open spec fn evolve_view(f: FieldView, strength: int, rate: int) -> FieldView {
    FieldView {
        width: f.width,
        height: f.height,
        cells: Seq::new(f.cells.len(), |i: int| evolved_cell(f, i % f.width, i / f.width, strength, rate)),
    }
}

/// Weight of the cells `(cx + dx, y)` for `dx` in `[-size, -size + k)`,
/// each coordinate clamped into the grid.
pub open spec fn row_weight(f: FieldView, cx: int, y: int, size: int, k: int) -> int
    decreases k,
{
    if k <= 0 {
        0
    } else {
        row_weight(f, cx, y, size, k - 1) + f.at_clamped(cx - size + k - 1, y).weight()
    }
}

/// Weight of the rows `cy + dy` for `dy` in `[-size, -size + k)` of the
/// square of half-width `size` around `(cx, cy)`.
pub open spec fn rows_weight(f: FieldView, cx: int, cy: int, size: int, k: int) -> int
    decreases k,
{
    if k <= 0 {
        0
    } else {
        rows_weight(f, cx, cy, size, k - 1) + row_weight(f, cx, cy - size + k - 1, size, 2 * size + 1)
    }
}

/// Total weight a sensor reads: every cell of the square of half-width
/// `size` around `(cx, cy)`, each coordinate clamped into the grid on its own.
pub open spec fn square_weight(f: FieldView, cx: int, cy: int, size: int) -> int {
    rows_weight(f, cx, cy, size, 2 * size + 1)
}

/// Row-major index arithmetic of a `w` by `h` grid.
pub proof fn lemma_cell_index(x: int, y: int, w: int, h: int)
    requires
        0 <= x < w,
        0 <= y < h,
    ensures
        0 <= y * w + x < w * h,
        (y * w + x) % w == x,
        (y * w + x) / w == y,
{
    assert(0 <= y * w + x < w * h) by (nonlinear_arith)
        requires
            0 <= x < w,
            0 <= y < h,
    ;
    lemma_fundamental_div_mod_converse(y * w + x, w, y, x);
}

proof fn lemma_row_weight_bounds(f: FieldView, cx: int, y: int, size: int, k: int)
    requires
        0 <= k,
    ensures
        0 <= row_weight(f, cx, y, size, k) <= MAX_CELL_WEIGHT * k,
    decreases k,
{
    if k > 0 {
        lemma_row_weight_bounds(f, cx, y, size, k - 1);
    }
}

proof fn lemma_rows_weight_bounds(f: FieldView, cx: int, cy: int, size: int, k: int)
    requires
        0 <= k,
        0 <= size,
    ensures
        0 <= rows_weight(f, cx, cy, size, k) <= MAX_CELL_WEIGHT * (2 * size + 1) * k,
    decreases k,
{
    if k > 0 {
        lemma_rows_weight_bounds(f, cx, cy, size, k - 1);
        lemma_row_weight_bounds(f, cx, cy - size + k - 1, size, 2 * size + 1);
        let n = 2 * size + 1;
        assert(MAX_CELL_WEIGHT * n * (k - 1) + MAX_CELL_WEIGHT * n == MAX_CELL_WEIGHT * n * k) by (nonlinear_arith);
    }
}

/// The field after `n` evolution passes.
pub open spec fn evolve_times(f: FieldView, strength: int, rate: int, n: nat) -> FieldView
    decreases n,
{
    if n == 0 {
        f
    } else {
        evolve_view(evolve_times(f, strength, rate, (n - 1) as nat), strength, rate)
    }
}

/// Evolution keeps every channel in range: no evolved channel is negative,
/// and none exceeds a bound that every channel of the source field keeps.
pub proof fn lemma_evolve_stays_in_range(f: FieldView, strength: int, rate: int, bound: int, x: int, y: int, c: int)
    requires
        f.wf(),
        0 <= strength <= DIFFUSION_SCALE,
        0 <= rate,
        0 <= x < f.width,
        0 <= y < f.height,
        forall|i: int| 0 <= i < f.cells.len() ==> (#[trigger] f.cells[i]).channel(c) <= bound,
    ensures
        0 <= evolved_channel(f, x, y, c, strength, rate) <= bound,
{
    assert forall|px: int, py: int| #![trigger f.at_clamped(px, py)] 0 <= f.at_clamped(px, py).channel(c) <= bound by {
        lemma_cell_index(clamp_index(px, f.width), clamp_index(py, f.height), f.width, f.height);
    }
    lemma_cell_index(x, y, f.width, f.height);
    let own = f.at(x, y).channel(c);
    assert(own == f.at_clamped(x, y).channel(c));
    let sum = neighbourhood_sum(f, x, y, c);
    assert(0 <= sum <= 9 * bound);
    let mean = sum / 9;
    assert(0 <= mean <= bound);
    let s = strength;
    assert(0 <= own * (DIFFUSION_SCALE - s) + mean * s <= bound * DIFFUSION_SCALE) by (nonlinear_arith)
        requires
            0 <= own <= bound,
            0 <= mean <= bound,
            0 <= s <= DIFFUSION_SCALE,
    ;
}

/// With diffusion off, a channel decays linearly: after `n` passes at
/// evaporation rate `rate` it holds its starting value less `n * rate`,
/// floored at zero.
pub proof fn lemma_evaporation_linear(f: FieldView, rate: int, n: nat, x: int, y: int, c: int)
    requires
        f.wf(),
        0 <= rate,
        0 <= x < f.width,
        0 <= y < f.height,
        0 <= c < 3,
    ensures
        evolve_times(f, 0, rate, n).wf(),
        evolve_times(f, 0, rate, n).width == f.width,
        evolve_times(f, 0, rate, n).height == f.height,
        evolve_times(f, 0, rate, n).at(x, y).channel(c) == if f.at(x, y).channel(c) - n * rate > 0 {
            f.at(x, y).channel(c) - n * rate
        } else {
            0
        },
    decreases n,
{
    lemma_cell_index(x, y, f.width, f.height);
    if n > 0 {
        let m = (n - 1) as nat;
        lemma_evaporation_linear(f, rate, m, x, y, c);
        let g = evolve_times(f, 0, rate, m);
        let v = g.at(x, y).channel(c);
        assert(evolve_times(f, 0, rate, n) == evolve_view(g, 0, rate));
        assert(evolve_view(g, 0, rate).at(x, y) == evolved_cell(g, x, y, 0, rate));
        assert(0 <= v <= 255);
        assert(evolved_channel(g, x, y, c, 0, rate) == if v > rate { v - rate } else { 0 });
        assert(n * rate == m * rate + rate) by (nonlinear_arith)
            requires
                n == m + 1,
        ;
        assert(0 <= m * rate) by (nonlinear_arith)
            requires
                0 <= rate,
        ;
    } else {
        assert(0 * rate == 0);
    }
}

/// The trail field: a dense grid of cells, row-major.
pub struct TrailMap {
    pub width: usize,
    pub height: usize,
    pub cells: Vec<Trail>,
}

impl View for TrailMap {
    type V = FieldView;

    open spec fn view(&self) -> FieldView {
        FieldView { width: self.width as int, height: self.height as int, cells: self.cells@ }
    }
}

impl TrailMap {
    pub open spec fn wf(&self) -> bool {
        &&& self@.wf()
        &&& self.width <= MAX_FIELD_SIDE
        &&& self.height <= MAX_FIELD_SIDE
    }

    /// A field of `width` by `height` cells, all zero.
    pub fn new(width: usize, height: usize) -> (m: TrailMap)
        requires
            1 <= width <= MAX_FIELD_SIDE,
            1 <= height <= MAX_FIELD_SIDE,
            width * height <= usize::MAX,
        ensures
            m.wf(),
            m.width == width,
            m.height == height,
            forall|i: int| 0 <= i < m.cells@.len() ==> #[trigger] m.cells@[i] == (Trail { r: 0, g: 0, b: 0 }),
    {
        let n: usize = width * height;
        let mut cells: Vec<Trail> = Vec::with_capacity(n);
        let mut i: usize = 0;
        while i < n
            invariant
                i <= n,
                cells@.len() == i,
                forall|j: int| 0 <= j < i ==> #[trigger] cells@[j] == (Trail { r: 0, g: 0, b: 0 }),
            decreases n - i,
        {
            cells.push(Trail { r: 0, g: 0, b: 0 });
            i = i + 1;
        }
        TrailMap { width, height, cells }
    }

    /// The cell at `(x, y)`, each coordinate clamped into the grid first.
    pub fn get(&self, x: i64, y: i64) -> (t: Trail)
        requires
            self.wf(),
        ensures
            t == self@.at_clamped(x as int, y as int),
    {
        let cx: usize = if x < 0 {
            0
        } else if x >= self.width as i64 {
            self.width - 1
        } else {
            x as usize
        };
        let cy: usize = if y < 0 {
            0
        } else if y >= self.height as i64 {
            self.height - 1
        } else {
            y as usize
        };
        let len = self.cells.len();
        proof {
            lemma_cell_index(cx as int, cy as int, self.width as int, self.height as int);
            assert(cy * self.width + cx < len);
        }
        self.cells[cy * self.width + cx]
    }

    /// Overwrites the cell `(x, y)` with `color`.
    pub fn deposit(&mut self, x: usize, y: usize, color: Trail)
        requires
            old(self).wf(),
            x < old(self).width,
            y < old(self).height,
        ensures
            final(self).wf(),
            final(self)@ == old(self)@.with_deposit(x as int, y as int, color),
    {
        let len = self.cells.len();
        proof {
            lemma_cell_index(x as int, y as int, self.width as int, self.height as int);
            assert(y * self.width + x < len);
        }
        let i = y * self.width + x;
        self.cells.set(i, color);
    }

    /// Sets every cell to zero.
    pub fn clear(&mut self)
        requires
            old(self).wf(),
        ensures
            final(self).wf(),
            final(self)@ == old(self)@.cleared(),
    {
        let n = self.cells.len();
        let mut i: usize = 0;
        while i < n
            invariant
                i <= n,
                self.cells@.len() == n,
                self.width == old(self).width,
                self.height == old(self).height,
                forall|j: int| 0 <= j < i ==> #[trigger] self.cells@[j] == (Trail { r: 0, g: 0, b: 0 }),
            decreases n - i,
        {
            self.cells.set(i, Trail { r: 0, g: 0, b: 0 });
            i = i + 1;
        }
        assert(self@.cells =~= old(self)@.cleared().cells);
    }

    /// Makes this field a copy of `other`.
    pub fn copy_from(&mut self, other: &TrailMap)
        requires
            other.wf(),
        ensures
            final(self).wf(),
            final(self)@ == other@,
    {
        let n = other.cells.len();
        let mut cells: Vec<Trail> = Vec::with_capacity(n);
        let mut i: usize = 0;
        while i < n
            invariant
                i <= n,
                n == other.cells@.len(),
                cells@ == other.cells@.subrange(0, i as int),
            decreases n - i,
        {
            cells.push(other.cells[i]);
            i = i + 1;
            assert(cells@ =~= other.cells@.subrange(0, i as int));
        }
        assert(cells@ =~= other.cells@);
        self.width = other.width;
        self.height = other.height;
        self.cells = cells;
    }

    /// Total weight of the cells `(cx + dx, y)` for `dx` in `[-size, size]`.
    fn row_weight(&self, cx: i64, y: i64, size: u32) -> (w: u128)
        requires
            self.wf(),
            -COORD_LIMIT <= cx <= COORD_LIMIT,
        ensures
            w == row_weight(self@, cx as int, y as int, size as int, 2 * size + 1),
            w <= MAX_CELL_WEIGHT * (2 * size + 1),
    {
        let s = size as i64;
        let n: i64 = 2 * s + 1;
        let mut sum: u128 = 0;
        let mut k: i64 = 0;
        while k < n
            invariant
                self.wf(),
                -COORD_LIMIT <= cx <= COORD_LIMIT,
                s == size,
                n == 2 * s + 1,
                0 <= k <= n,
                sum == row_weight(self@, cx as int, y as int, size as int, k as int),
                sum <= MAX_CELL_WEIGHT * k,
            decreases n - k,
        {
            let t = self.get(cx - s + k, y);
            sum = sum + t.r as u128 + t.g as u128 + t.b as u128;
            k = k + 1;
        }
        sum
    }

    /// Total weight a sensor reads: every cell of the square of half-width
    /// `size` around `(cx, cy)`, each coordinate clamped into the grid.
    pub fn square_weight(&self, cx: i64, cy: i64, size: u32) -> (w: u128)
        requires
            self.wf(),
            -COORD_LIMIT <= cx <= COORD_LIMIT,
            -COORD_LIMIT <= cy <= COORD_LIMIT,
        ensures
            w == square_weight(self@, cx as int, cy as int, size as int),
    {
        let s = size as i64;
        let n: i64 = 2 * s + 1;
        let mut total: u128 = 0;
        let mut k: i64 = 0;
        while k < n
            invariant
                self.wf(),
                -COORD_LIMIT <= cx <= COORD_LIMIT,
                -COORD_LIMIT <= cy <= COORD_LIMIT,
                s == size,
                n == 2 * s + 1,
                0 <= k <= n,
                total == rows_weight(self@, cx as int, cy as int, size as int, k as int),
                total <= MAX_CELL_WEIGHT * n * k,
            decreases n - k,
        {
            let row = self.row_weight(cx, cy - s + k, size);
            proof {
                assert(MAX_CELL_WEIGHT * n * k + MAX_CELL_WEIGHT * n == MAX_CELL_WEIGHT * n * (k + 1))
                    by (nonlinear_arith);
                assert(MAX_CELL_WEIGHT * n * (k + 1) <= MAX_CELL_WEIGHT * 0x2_0000_0001 * 0x2_0000_0001)
                    by (nonlinear_arith)
                    requires
                        0 <= k < n,
                        n <= 0x2_0000_0001,
                ;
            }
            total = total + row;
            k = k + 1;
        }
        total
    }

    /// One evolution pass over every cell: the channel value is blended with
    /// its 3x3 neighbourhood mean by `diffusion_strength / DIFFUSION_SCALE`,
    /// then lowered by `evaporation_rate`, floored at zero.
    pub fn evolve(&mut self, diffusion_strength: u32, evaporation_rate: u8)
        requires
            old(self).wf(),
            diffusion_strength <= DIFFUSION_SCALE,
        ensures
            final(self).wf(),
            final(self)@ == evolve_view(old(self)@, diffusion_strength as int, evaporation_rate as int),
    {
        let w = self.width;
        let h = self.height;
        let ghost f = self@;
        let mut cells: Vec<Trail> = Vec::with_capacity(self.cells.len());
        let mut y: usize = 0;
        while y < h
            invariant
                self.wf(),
                self@ == f,
                w == self.width,
                h == self.height,
                y <= h,
                diffusion_strength <= DIFFUSION_SCALE,
                cells@.len() == y * w,
                forall|j: int|
                    0 <= j < cells@.len() ==> #[trigger] cells@[j] == evolved_cell(
                        f,
                        j % (w as int),
                        j / (w as int),
                        diffusion_strength as int,
                        evaporation_rate as int,
                    ),
            decreases h - y,
        {
            let mut x: usize = 0;
            while x < w
                invariant
                    self.wf(),
                    self@ == f,
                    w == self.width,
                    h == self.height,
                    y < h,
                    x <= w,
                    diffusion_strength <= DIFFUSION_SCALE,
                    cells@.len() == y * w + x,
                    forall|j: int|
                        0 <= j < cells@.len() ==> #[trigger] cells@[j] == evolved_cell(
                            f,
                            j % (w as int),
                            j / (w as int),
                            diffusion_strength as int,
                            evaporation_rate as int,
                        ),
                decreases w - x,
            {
                let t = self.evolved_cell_at(x, y, diffusion_strength, evaporation_rate);
                proof {
                    lemma_cell_index(x as int, y as int, w as int, h as int);
                }
                cells.push(t);
                x = x + 1;
            }
            assert((y + 1) * w == y * w + w) by (nonlinear_arith);
            y = y + 1;
        }
        assert(cells@.len() == f.cells.len()) by {
            assert(h * w == w * h) by (nonlinear_arith);
        }
        self.cells = cells;
        assert(self@.cells =~= evolve_view(f, diffusion_strength as int, evaporation_rate as int).cells);
    }

    fn evolved_cell_at(&self, x: usize, y: usize, diffusion_strength: u32, evaporation_rate: u8) -> (t: Trail)
        requires
            self.wf(),
            x < self.width,
            y < self.height,
            diffusion_strength <= DIFFUSION_SCALE,
        ensures
            t == evolved_cell(self@, x as int, y as int, diffusion_strength as int, evaporation_rate as int),
    {
        let xi = x as i64;
        let yi = y as i64;
        let n0 = self.get(xi - 1, yi - 1);
        let n1 = self.get(xi, yi - 1);
        let n2 = self.get(xi + 1, yi - 1);
        let n3 = self.get(xi - 1, yi);
        let n4 = self.get(xi, yi);
        let n5 = self.get(xi + 1, yi);
        let n6 = self.get(xi - 1, yi + 1);
        let n7 = self.get(xi, yi + 1);
        let n8 = self.get(xi + 1, yi + 1);
        let own = n4;
        proof {
            lemma_cell_index(x as int, y as int, self.width as int, self.height as int);
            assert(own == self@.at(x as int, y as int));
        }
        let sr = n0.r as u32 + n1.r as u32 + n2.r as u32 + n3.r as u32 + n4.r as u32 + n5.r as u32
            + n6.r as u32 + n7.r as u32 + n8.r as u32;
        let sg = n0.g as u32 + n1.g as u32 + n2.g as u32 + n3.g as u32 + n4.g as u32 + n5.g as u32
            + n6.g as u32 + n7.g as u32 + n8.g as u32;
        let sb = n0.b as u32 + n1.b as u32 + n2.b as u32 + n3.b as u32 + n4.b as u32 + n5.b as u32
            + n6.b as u32 + n7.b as u32 + n8.b as u32;
        let r = mix_channel(own.r, sr, diffusion_strength, evaporation_rate);
        let g = mix_channel(own.g, sg, diffusion_strength, evaporation_rate);
        let b = mix_channel(own.b, sb, diffusion_strength, evaporation_rate);
        Trail { r, g, b }
    }

    /// The field as bytes for a renderer: four per cell (red, green, blue,
    /// and an opaque alpha), the cell `(x, y)` starting at `(y * width + x) * 4`.
    pub fn pixels(&self) -> (bytes: Vec<u8>)
        requires
            self.wf(),
        ensures
            bytes@.len() == 4 * self.cells@.len(),
            forall|p: int| 0 <= p < bytes@.len() ==> #[trigger] bytes@[p] == pixel_byte(self.cells@[p / 4], p % 4),
    {
        let n = self.cells.len();
        let mut bytes: Vec<u8> = Vec::new();
        let mut i: usize = 0;
        while i < n
            invariant
                i <= n,
                n == self.cells@.len(),
                n <= usize::MAX,
                bytes@.len() == 4 * i,
                forall|p: int| 0 <= p < bytes@.len() ==> #[trigger] bytes@[p] == pixel_byte(self.cells@[p / 4], p % 4),
            decreases n - i,
        {
            let t = self.cells[i];
            proof {
                lemma_fundamental_div_mod_converse(4 * i, 4, i as int, 0);
                lemma_fundamental_div_mod_converse(4 * i + 1, 4, i as int, 1);
                lemma_fundamental_div_mod_converse(4 * i + 2, 4, i as int, 2);
                lemma_fundamental_div_mod_converse(4 * i + 3, 4, i as int, 3);
            }
            bytes.push(t.r);
            bytes.push(t.g);
            bytes.push(t.b);
            bytes.push(255u8);
            i = i + 1;
        }
        bytes
    }
}

/// Byte `k` of the four that render one cell.
pub open spec fn pixel_byte(t: Trail, k: int) -> u8 {
    if k == 0 {
        t.r
    } else if k == 1 {
        t.g
    } else if k == 2 {
        t.b
    } else {
        255u8
    }
}

fn mix_channel(own: u8, sum: u32, strength: u32, rate: u8) -> (v: u8)
    requires
        sum <= 9 * 255,
        strength <= DIFFUSION_SCALE,
    ensures
        v == mixed_channel(own as int, sum as int, strength as int, rate as int),
{
    let mean: u32 = sum / 9;
    assert(mean <= 255);
    assert(own as u32 * (DIFFUSION_SCALE - strength) + mean * strength <= 255 * DIFFUSION_SCALE) by (nonlinear_arith)
        requires
            own <= 255,
            mean <= 255,
            strength <= DIFFUSION_SCALE,
    ;
    let mixed: u32 = (own as u32 * (DIFFUSION_SCALE - strength) + mean * strength) / DIFFUSION_SCALE;
    if mixed > rate as u32 {
        (mixed - rate as u32) as u8
    } else {
        0
    }
}

} // verus!
