use vstd::prelude::*;

verus! {

/// Pixels per row.
pub const WIDTH: usize = 64;

/// Rows.
pub const HEIGHT: usize = 32;

/// Pixels in the grid.
pub const GRID_SIZE: usize = 2048;

/// Pixel `b` (0 to 7, most significant bit first) of a sprite row.
pub open spec fn row_bit(row: u8, b: int) -> bool {
    (row >> ((7 - b) as u8)) & 1u8 == 1u8
}

/// Whether the sprite `rows`, drawn with its top-left corner at `(x, y)`,
/// sets pixel `(px, py)`: the pixel lies in the sprite's eight columns and
/// its rows, and the sprite's bit for it is one.
pub open spec fn sprite_pixel(x: int, y: int, rows: Seq<u8>, px: int, py: int) -> bool {
    &&& x <= px < x + 8
    &&& y <= py < y + rows.len()
    &&& row_bit(rows[py - y], px - x)
}

/// Column of the pixel stored at index `i` of the row-major grid.
pub open spec fn column(i: int) -> int {
    i % WIDTH as int
}

/// Row of the pixel stored at index `i` of the row-major grid.
pub open spec fn line(i: int) -> int {
    i / WIDTH as int
}

/// A grid with every pixel unset.
pub open spec fn blank_grid() -> Seq<bool> {
    Seq::new(GRID_SIZE as nat, |i: int| false)
}

/// The grid after XOR-ing a sprite onto it. Sprite pixels that fall outside
/// the grid are dropped: nothing wraps around to the opposite edge.
pub open spec fn drawn(grid: Seq<bool>, x: int, y: int, rows: Seq<u8>) -> Seq<bool> {
    Seq::new(grid.len(), |i: int| grid[i] != sprite_pixel(x, y, rows, column(i), line(i)))
}

/// Whether drawing the sprite turns some set pixel off.
pub open spec fn collides(grid: Seq<bool>, x: int, y: int, rows: Seq<u8>) -> bool {
    exists|i: int|
        0 <= i < grid.len() && #[trigger] grid[i] && sprite_pixel(x, y, rows, column(i), line(i))
}

/// Like `sprite_pixel`, for the first `k` sprite pixels in drawing order
/// (row by row, each row from its leftmost pixel).
#[verifier::opaque]
spec fn drawn_before(x: int, y: int, rows: Seq<u8>, i: int, k: int) -> bool {
    sprite_pixel(x, y, rows, column(i), line(i)) && (line(i) - y) * 8 + (column(i) - x) < k
}

proof fn lemma_grid_index(px: int, py: int)
    requires
        0 <= px < WIDTH,
        0 <= py < HEIGHT,
    ensures
        0 <= py * 64 + px < GRID_SIZE,
        column(py * 64 + px) == px,
        line(py * 64 + px) == py,
{
    assert(0 <= py * 64 + px < GRID_SIZE) by (nonlinear_arith)
        requires
            0 <= px < 64,
            0 <= py < 32,
    ;
    vstd::arithmetic::div_mod::lemma_fundamental_div_mod_converse(py * 64 + px, 64, py, px);
}

/// Whether some pixel of the sprite falls on the grid and is set.
pub open spec fn shows(x: int, y: int, rows: Seq<u8>) -> bool {
    exists|i: int| 0 <= i < GRID_SIZE && #[trigger] sprite_pixel(x, y, rows, column(i), line(i))
}

/// Drawing a sprite twice at the same place: onto a region where none of its
/// pixels is set, the first drawing reports no collision; the second reports
/// one exactly when the sprite shows on the grid; and the grid is back to
/// what it was, since XOR cancels itself.
pub proof fn lemma_draw_twice(grid: Seq<bool>, x: int, y: int, rows: Seq<u8>)
    requires
        grid.len() == GRID_SIZE,
        forall|i: int|
            0 <= i < GRID_SIZE && #[trigger] sprite_pixel(x, y, rows, column(i), line(i))
                ==> !grid[i],
    ensures
        !collides(grid, x, y, rows),
        collides(drawn(grid, x, y, rows), x, y, rows) == shows(x, y, rows),
        drawn(drawn(grid, x, y, rows), x, y, rows) == grid,
{
    let once = drawn(grid, x, y, rows);
    if shows(x, y, rows) {
        let w = choose|w: int|
            0 <= w < GRID_SIZE && #[trigger] sprite_pixel(x, y, rows, column(w), line(w));
        assert(once[w]);
    }
    assert(drawn(once, x, y, rows) =~= grid);
}

/// Drawing changes no pixel outside the sprite's eight columns and its rows:
/// a sprite that runs off the right edge is cut there and does not reappear
/// at the left edge, nor one that runs off the bottom at the top.
pub proof fn lemma_draw_clips(grid: Seq<bool>, x: int, y: int, rows: Seq<u8>, i: int)
    requires
        grid.len() == GRID_SIZE,
        0 <= i < GRID_SIZE,
        column(i) < x || column(i) >= x + 8 || line(i) < y || line(i) >= y + rows.len(),
    ensures
        drawn(grid, x, y, rows)[i] == grid[i],
{
}

/// The grid pixel under sprite pixel `(b, j)`, when it is on the grid, is
/// untouched by the sprite pixels drawn before it.
proof fn lemma_draw_target(x: int, y: int, rows: Seq<u8>, j: int, b: int)
    requires
        0 <= x,
        0 <= y,
        0 <= j < rows.len(),
        0 <= b < 8,
        x + b < WIDTH,
        y + j < HEIGHT,
    ensures
        0 <= (y + j) * 64 + (x + b) < GRID_SIZE,
        !drawn_before(x, y, rows, (y + j) * 64 + (x + b), j * 8 + b),
{
    reveal(drawn_before);
    lemma_grid_index(x + b, y + j);
}

/// Drawing sprite pixel `(b, j)` changes at most the one grid pixel under
/// it.
proof fn lemma_draw_step(x: int, y: int, rows: Seq<u8>, j: int, b: int, i: int)
    requires
        0 <= x,
        0 <= y,
        0 <= j < rows.len(),
        0 <= b < 8,
        0 <= i < GRID_SIZE,
    ensures
        ({
            let (px, py, k) = (x + b, y + j, j * 8 + b);
            drawn_before(x, y, rows, i, k + 1) == (drawn_before(x, y, rows, i, k) || (px < WIDTH
                && py < HEIGHT && i == py * 64 + px && row_bit(rows[j], b)))
        }),
{
    reveal(drawn_before);
    let (px, py, k) = (x + b, y + j, j * 8 + b);
    let (c, l) = (column(i), line(i));
    vstd::arithmetic::div_mod::lemma_fundamental_div_mod(i, 64);
    assert(0 <= c < 64 && 0 <= l < 32);
    if sprite_pixel(x, y, rows, c, l) && (l - y) * 8 + (c - x) == k {
        assert(l - y == j && c - x == b);
        assert(i == l * 64 + c);
    }
    if px < WIDTH && py < HEIGHT && i == py * 64 + px {
        lemma_grid_index(px, py);
    }
}

/// Once every row is drawn, the partial drawing is the whole sprite.
proof fn lemma_draw_done(x: int, y: int, rows: Seq<u8>, i: int)
    ensures
        drawn_before(x, y, rows, i, rows.len() * 8int) == sprite_pixel(
            x,
            y,
            rows,
            column(i),
            line(i),
        ),
{
    reveal(drawn_before);
}

/// Before anything is drawn, nothing is.
proof fn lemma_draw_start(x: int, y: int, rows: Seq<u8>, i: int)
    ensures
        !drawn_before(x, y, rows, i, 0),
{
    reveal(drawn_before);
}

/// The monochrome 64 x 32 framebuffer, row-major, with a flag that records
/// whether it changed since it was last shown.
pub struct Display {
    grid: Vec<bool>,
    changed: bool,
}

impl View for Display {
    type V = Seq<bool>;

    closed spec fn view(&self) -> Seq<bool> {
        self.grid@
    }
}

impl Display {
    /// Every pixel present.
    pub open spec fn wf(&self) -> bool {
        self@.len() == GRID_SIZE
    }

    /// Whether a `clear` or `draw` came since the flag was last taken.
    pub closed spec fn spec_changed(&self) -> bool {
        self.changed
    }

    /// A cleared framebuffer, marked as changed so that it is shown.
    pub fn new() -> (r: Display)
        ensures
            r.wf(),
            r@ == blank_grid(),
            r.spec_changed(),
    {
        let r = Display { grid: vec![false; GRID_SIZE], changed: true };
        assert(r@ =~= blank_grid());
        r
    }

    /// Unsets every pixel.
    pub fn clear(&mut self)
        requires
            old(self).wf(),
        ensures
            final(self).wf(),
            final(self)@ == blank_grid(),
            final(self).spec_changed(),
    {
        let mut k: usize = 0;
        while k < self.grid.len()
            invariant
                self.grid@.len() == GRID_SIZE,
                k <= GRID_SIZE,
                forall|i: int| 0 <= i < k ==> !#[trigger] self.grid@[i],
            decreases GRID_SIZE - k,
        {
            self.grid.set(k, false);
            k = k + 1;
        }
        self.changed = true;
        assert(self@ =~= blank_grid());
    }

    /// Whether pixel `(x, y)` is set.
    pub fn pixel(&self, x: usize, y: usize) -> (r: bool)
        requires
            self.wf(),
            x < WIDTH,
            y < HEIGHT,
        ensures
            r == self@[y * WIDTH + x],
    {
        self.grid[y * WIDTH + x]
    }

    /// The pixels, row-major.
    pub fn grid(&self) -> (r: &[bool])
        ensures
            r@ == self@,
    {
        self.grid.as_slice()
    }

    /// Reports whether the framebuffer changed since the last call, and
    /// resets the flag.
    pub fn take_changed(&mut self) -> (r: bool)
        ensures
            r == old(self).spec_changed(),
            !final(self).spec_changed(),
            final(self)@ == old(self)@,
    {
        let r = self.changed;
        self.changed = false;
        r
    }

    /// XORs the sprite `rows` onto the grid with its top-left corner at
    /// `(x, y)`: each byte is a row of eight pixels, most significant bit
    /// leftmost. Pixels that fall off the right or bottom edge are dropped.
    /// Returns whether any pixel went from set to unset.
    pub fn draw(&mut self, x: u16, y: u16, rows: &[u8]) -> (collided: bool)
        requires
            old(self).wf(),
        ensures
            final(self).wf(),
            final(self)@ == drawn(old(self)@, x as int, y as int, rows@),
            collided == collides(old(self)@, x as int, y as int, rows@),
            final(self).spec_changed(),
    {
        let ghost g0 = self.grid@;
        let mut unset_flag = false;
        let mut y_offset: usize = 0;
        assert forall|i: int| 0 <= i < GRID_SIZE implies !#[trigger] drawn_before(
            x as int,
            y as int,
            rows@,
            i,
            0,
        ) by {
            lemma_draw_start(x as int, y as int, rows@, i);
        }
        while y_offset < rows.len()
            invariant
                y_offset <= rows@.len(),
                g0.len() == GRID_SIZE,
                self.grid@.len() == GRID_SIZE,
                forall|i: int|
                    0 <= i < GRID_SIZE ==> #[trigger] self.grid@[i] == (g0[i] != drawn_before(
                        x as int,
                        y as int,
                        rows@,
                        i,
                        y_offset * 8,
                    )),
                unset_flag == exists|i: int|
                    0 <= i < GRID_SIZE && #[trigger] g0[i] && drawn_before(
                        x as int,
                        y as int,
                        rows@,
                        i,
                        y_offset * 8,
                    ),
            decreases rows@.len() - y_offset,
        {
            let word = rows[y_offset];
            let mut x_offset: u8 = 0;
            while x_offset < 8
                invariant
                    y_offset < rows@.len(),
                    word == rows@[y_offset as int],
                    x_offset <= 8,
                    g0.len() == GRID_SIZE,
                    self.grid@.len() == GRID_SIZE,
                    forall|i: int|
                        0 <= i < GRID_SIZE ==> #[trigger] self.grid@[i] == (g0[i] != drawn_before(
                            x as int,
                            y as int,
                            rows@,
                            i,
                            y_offset * 8 + x_offset,
                        )),
                    unset_flag == exists|i: int|
                        0 <= i < GRID_SIZE && #[trigger] g0[i] && drawn_before(
                            x as int,
                            y as int,
                            rows@,
                            i,
                            y_offset * 8 + x_offset,
                        ),
                decreases 8 - x_offset,
            {
                let pixel = (word >> (7 - x_offset)) & 1;
                let ghost (gx, gy, j, b) = (x as int, y as int, y_offset as int, x_offset as int);
                let ghost k = j * 8 + b;
                let ghost inside = gx + b < WIDTH && gy + j < HEIGHT;
                let ghost idx = (gy + j) * 64 + (gx + b);
                let ghost g_prev = self.grid@;
                let ghost flag_prev = unset_flag;
                // ignore pixels that run off the edge of the grid
                if (x as usize) < WIDTH && (x_offset as usize) < WIDTH - x as usize && (y as usize)
                    < HEIGHT && y_offset < HEIGHT - y as usize {
                    let px = x as usize + x_offset as usize;
                    let py = y as usize + y_offset;
                    let i = py * WIDTH + px;
                    proof {
                        lemma_draw_target(gx, gy, rows@, j, b);
                    }
                    let old_pixel = self.grid[i];
                    if old_pixel && pixel == 1 {
                        unset_flag = true;
                    }
                    self.grid.set(i, old_pixel != (pixel == 1));
                }
                proof {
                    assert forall|i: int| 0 <= i < GRID_SIZE implies #[trigger] self.grid@[i] == (
                    g0[i] != drawn_before(gx, gy, rows@, i, k + 1)) by {
                        lemma_draw_step(gx, gy, rows@, j, b, i);
                    }
                    if unset_flag && flag_prev {
                        let w = choose|w: int|
                            0 <= w < GRID_SIZE && #[trigger] g0[w] && drawn_before(
                                gx,
                                gy,
                                rows@,
                                w,
                                k,
                            );
                        lemma_draw_step(gx, gy, rows@, j, b, w);
                    } else if unset_flag {
                        lemma_draw_step(gx, gy, rows@, j, b, idx);
                        assert(g0[idx] && drawn_before(gx, gy, rows@, idx, k + 1));
                    } else {
                        assert forall|i: int| 0 <= i < GRID_SIZE && #[trigger] g0[i] implies !drawn_before(
                            gx,
                            gy,
                            rows@,
                            i,
                            k + 1,
                        ) by {
                            lemma_draw_step(gx, gy, rows@, j, b, i);
                        }
                    }
                }
                x_offset = x_offset + 1;
            }
            y_offset = y_offset + 1;
        }
        self.changed = true;
        assert(self.grid@ =~= drawn(g0, x as int, y as int, rows@)) by {
            assert forall|i: int| 0 <= i < GRID_SIZE implies #[trigger] self.grid@[i] == drawn(
                g0,
                x as int,
                y as int,
                rows@,
            )[i] by {
                lemma_draw_done(x as int, y as int, rows@, i);
            }
        }
        assert(unset_flag == collides(g0, x as int, y as int, rows@)) by {
            assert forall|i: int| 0 <= i < GRID_SIZE implies #[trigger] drawn_before(
                x as int,
                y as int,
                rows@,
                i,
                rows@.len() * 8int,
            ) == sprite_pixel(x as int, y as int, rows@, column(i), line(i)) by {
                lemma_draw_done(x as int, y as int, rows@, i);
            }
        }
        unset_flag
    }
}

} // verus!
