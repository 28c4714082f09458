//! The automaton engine: grid state, the Life transition rule, and the
//! cursor-driven editing operations.

use vstd::prelude::*;

verus! {

/// The state of one grid cell.
#[derive(Copy, Clone, Debug, PartialEq, Eq, Structural)]
pub enum CellState {
    Alive,
    Dead,
}

/// A cursor position inside the grid.
#[derive(Copy, Clone, Debug, PartialEq, Eq, Structural)]
pub struct Point {
    pub x: usize,
    pub y: usize,
}

/// Mathematical model of an automaton state: dimensions, the cells in
/// row-major order (index `x + y * width`), the cursor and the generation.
pub ghost struct GameView {
    pub width: int,
    pub height: int,
    pub cells: Seq<CellState>,
    pub cursor_x: int,
    pub cursor_y: int,
    pub generation: int,
}

/// 1 if the condition holds, else 0; used to sum alive neighbors.
pub open spec fn count_b(b: bool) -> int {
    if b {
        1
    } else {
        0
    }
}

/// The opposite cell state.
pub open spec fn flip(c: CellState) -> CellState {
    match c {
        CellState::Alive => CellState::Dead,
        CellState::Dead => CellState::Alive,
    }
}

/// The classic Life rule: a live cell survives on 2 or 3 alive neighbors,
/// a dead cell is born on exactly 3.
pub open spec fn next_cell(c: CellState, alive_count: int) -> CellState {
    match c {
        CellState::Alive => if alive_count == 2 || alive_count == 3 {
            CellState::Alive
        } else {
            CellState::Dead
        },
        CellState::Dead => if alive_count == 3 {
            CellState::Alive
        } else {
            CellState::Dead
        },
    }
}

/// `v` clamped to `[0, limit - 1]`.
pub open spec fn clamped(v: int, limit: int) -> int {
    if v < 0 {
        0
    } else if v > limit - 1 {
        limit - 1
    } else {
        v
    }
}

impl GameView {
    /// Well-formedness: positive dimensions, a fully populated grid, and a
    /// cursor inside the grid.
    pub open spec fn wf(self) -> bool {
        &&& 0 < self.width
        &&& 0 < self.height
        &&& self.cells.len() == self.width * self.height
        &&& 0 <= self.cursor_x < self.width
        &&& 0 <= self.cursor_y < self.height
        &&& 0 <= self.generation
    }

    /// Whether `(x, y)` is a coordinate inside the grid.
    pub open spec fn in_bounds(self, x: int, y: int) -> bool {
        &&& 0 <= x < self.width
        &&& 0 <= y < self.height
    }

    /// The cell at `(x, y)`.
    pub open spec fn cell(self, x: int, y: int) -> CellState
        recommends
            self.in_bounds(x, y),
    {
        self.cells[x + y * self.width]
    }

    /// Whether `(x, y)` is inside the grid and alive. An out-of-bounds
    /// coordinate is never alive: the grid does not wrap around.
    pub open spec fn alive(self, x: int, y: int) -> bool {
        self.in_bounds(x, y) && self.cell(x, y) == CellState::Alive
    }

    /// The number of alive cells among the up to 8 grid-adjacent neighbors
    /// of `(x, y)`. Neighbors outside the grid are simply absent.
    pub open spec fn neighbor_count(self, x: int, y: int) -> int {
        count_b(self.alive(x - 1, y - 1)) + count_b(self.alive(x, y - 1)) + count_b(
            self.alive(x + 1, y - 1),
        ) + count_b(self.alive(x - 1, y)) + count_b(self.alive(x + 1, y)) + count_b(
            self.alive(x - 1, y + 1),
        ) + count_b(self.alive(x, y + 1)) + count_b(self.alive(x + 1, y + 1))
    }
}

/// The dimensions are unchanged between two states.
pub open spec fn same_dims(pre: GameView, post: GameView) -> bool {
    &&& post.width == pre.width
    &&& post.height == pre.height
    &&& post.cells.len() == pre.cells.len()
}

/// The cells are unchanged between two states.
pub open spec fn same_cells(pre: GameView, post: GameView) -> bool {
    &&& post.cells.len() == pre.cells.len()
    &&& forall|x: int, y: int| pre.in_bounds(x, y) ==> post.cell(x, y) == pre.cell(x, y)
}

/// The cursor is unchanged between two states.
pub open spec fn same_cursor(pre: GameView, post: GameView) -> bool {
    &&& post.cursor_x == pre.cursor_x
    &&& post.cursor_y == pre.cursor_y
}

/// What one simulation step does: every cell of the new grid is the Life
/// rule applied to the old cell and its old neighbor count (the whole new
/// grid is derived from the old grid alone), and the generation grows by
/// exactly 1. Cursor and dimensions are untouched.
pub open spec fn step_post(pre: GameView, post: GameView) -> bool {
    &&& same_dims(pre, post)
    &&& same_cursor(pre, post)
    &&& post.generation == pre.generation + 1
    &&& forall|x: int, y: int|
        pre.in_bounds(x, y) ==> post.cell(x, y) == next_cell(
            pre.cell(x, y),
            pre.neighbor_count(x, y),
        )
}

/// What toggling the cell under the cursor does: that one cell is flipped,
/// every other cell, the cursor, the dimensions and the generation are
/// untouched.
pub open spec fn toggle_post(pre: GameView, post: GameView) -> bool {
    &&& same_dims(pre, post)
    &&& same_cursor(pre, post)
    &&& post.generation == pre.generation
    &&& post.cell(pre.cursor_x, pre.cursor_y) == flip(pre.cell(pre.cursor_x, pre.cursor_y))
    &&& forall|x: int, y: int|
        pre.in_bounds(x, y) && !(x == pre.cursor_x && y == pre.cursor_y) ==> post.cell(x, y)
            == pre.cell(x, y)
}

/// What a cursor move by `(dx, dy)` does: each cursor axis is clamped to the
/// grid independently; cells, dimensions and generation are untouched.
pub open spec fn move_post(pre: GameView, post: GameView, dx: int, dy: int) -> bool {
    &&& same_dims(pre, post)
    &&& same_cells(pre, post)
    &&& post.generation == pre.generation
    &&& post.cursor_x == clamped(pre.cursor_x + dx, pre.width)
    &&& post.cursor_y == clamped(pre.cursor_y + dy, pre.height)
}

/// What randomizing does, over and above the cell values themselves (which
/// are drawn from a pseudo-random source): the generation is reset to 0 and
/// dimensions and cursor are untouched. Every cell still holds a defined
/// `CellState`, which the type itself guarantees.
pub open spec fn randomize_post(pre: GameView, post: GameView) -> bool {
    &&& same_dims(pre, post)
    &&& same_cursor(pre, post)
    &&& post.generation == 0
}

/// What clearing does: every cell is dead, the generation is reset to 0,
/// dimensions and cursor are untouched.
pub open spec fn clear_post(pre: GameView, post: GameView) -> bool {
    &&& same_dims(pre, post)
    &&& same_cursor(pre, post)
    &&& post.generation == 0
    &&& forall|x: int, y: int| post.in_bounds(x, y) ==> post.cell(x, y) == CellState::Dead
}

/// The automaton: one fixed-size grid of cells, one generation counter and
/// one cursor. All mutation goes through its methods.
pub struct Game {
    generation: u32,
    width: usize,
    height: usize,
    cells: Vec<CellState>,
    user: Point,
}

impl View for Game {
    type V = GameView;

    closed spec fn view(&self) -> GameView {
        GameView {
            width: self.width as int,
            height: self.height as int,
            cells: self.cells@,
            cursor_x: self.user.x as int,
            cursor_y: self.user.y as int,
            generation: self.generation as int,
        }
    }
}

/// A buffer of `len` dead cells.
fn dead_cells(len: usize) -> (v: Vec<CellState>)
    ensures
        v@.len() == len,
        forall|k: int| 0 <= k < len ==> v@[k] == CellState::Dead,
{
    let mut v: Vec<CellState> = Vec::new();
    let mut i: usize = 0;
    while i < len
        invariant
            i <= len,
            v@.len() == i,
            forall|k: int| 0 <= k < i ==> v@[k] == CellState::Dead,
        decreases len - i,
    {
        v.push(CellState::Dead);
        i = i + 1;
    }
    v
}

impl Game {
    /// A fresh automaton: every cell dead, generation 0, cursor at the
    /// origin. Dimensions must be positive and the grid must fit in memory.
    pub fn new(width: usize, height: usize) -> (g: Game)
        requires
            0 < width,
            0 < height,
            width * height <= usize::MAX,
        ensures
            g@.wf(),
            g@.width == width,
            g@.height == height,
            g@.generation == 0,
            g@.cursor_x == 0,
            g@.cursor_y == 0,
            forall|x: int, y: int| g@.in_bounds(x, y) ==> g@.cell(x, y) == CellState::Dead,
    {
        let cells = dead_cells(width * height);
        let g = Game { generation: 0, width, height, cells, user: Point { x: 0, y: 0 } };
        proof {
            assert forall|x: int, y: int| g@.in_bounds(x, y) implies g@.cell(x, y)
                == CellState::Dead by {
                lemma_index_in_range(g@.width, g@.height, x, y);
            }
        }
        g
    }

    /// The current generation count.
    pub fn generation(&self) -> (g: u32)
        ensures
            g as int == self@.generation,
    {
        self.generation
    }

    /// The grid width.
    pub fn width(&self) -> (w: usize)
        ensures
            w as int == self@.width,
    {
        self.width
    }

    /// The grid height.
    pub fn height(&self) -> (h: usize)
        ensures
            h as int == self@.height,
    {
        self.height
    }

    /// The current cursor position.
    pub fn cursor(&self) -> (p: Point)
        ensures
            p.x as int == self@.cursor_x,
            p.y as int == self@.cursor_y,
    {
        self.user
    }

    /// The state of the cell at `(x, y)`. Out-of-range coordinates are a
    /// caller error and are excluded up front.
    pub fn cell_at(&self, x: usize, y: usize) -> (c: CellState)
        requires
            self@.wf(),
            self@.in_bounds(x as int, y as int),
        ensures
            c == self@.cell(x as int, y as int),
    {
        let n = self.cells.len();
        proof {
            lemma_index_in_range(self@.width, self@.height, x as int, y as int);
            assert(x as int + y as int * self@.width < n);
        }
        self.cells[x + y * self.width]
    }

    /// Counts the alive cells among the up to 8 neighbors of `(x, y)`,
    /// skipping coordinates that fall outside the grid.
    fn count_alive_neighbors(&self, x: usize, y: usize) -> (n: u32)
        requires
            self@.wf(),
            self@.in_bounds(x as int, y as int),
        ensures
            n as int == self@.neighbor_count(x as int, y as int),
    {
        let mut n: u32 = 0;
        if x > 0 && y > 0 && self.cell_at(x - 1, y - 1) == CellState::Alive {
            n = n + 1;
        }
        if y > 0 && self.cell_at(x, y - 1) == CellState::Alive {
            n = n + 1;
        }
        if x + 1 < self.width && y > 0 && self.cell_at(x + 1, y - 1) == CellState::Alive {
            n = n + 1;
        }
        if x > 0 && self.cell_at(x - 1, y) == CellState::Alive {
            n = n + 1;
        }
        if x + 1 < self.width && self.cell_at(x + 1, y) == CellState::Alive {
            n = n + 1;
        }
        if x > 0 && y + 1 < self.height && self.cell_at(x - 1, y + 1) == CellState::Alive {
            n = n + 1;
        }
        if y + 1 < self.height && self.cell_at(x, y + 1) == CellState::Alive {
            n = n + 1;
        }
        if x + 1 < self.width && y + 1 < self.height && self.cell_at(x + 1, y + 1)
            == CellState::Alive {
            n = n + 1;
        }
        n
    }

    /// The next grid, row by row: each new cell is the Life rule applied to
    /// the old cell and its old neighbor count. The old grid is not touched,
    /// so every lookup sees the frozen current generation.
    fn compute_next(&self) -> (next: Vec<CellState>)
        requires
            self@.wf(),
        ensures
            next@.len() == self@.cells.len(),
            forall|x: int, y: int|
                self@.in_bounds(x, y) ==> next@[x + y * self@.width] == next_cell(
                    self@.cell(x, y),
                    self@.neighbor_count(x, y),
                ),
    {
        let w = self.width;
        let h = self.height;
        let total = self.cells.len();
        let mut next: Vec<CellState> = Vec::new();
        let mut y: usize = 0;
        while y < h
            invariant
                self@.wf(),
                w as int == self@.width,
                h as int == self@.height,
                total == self@.cells.len(),
                y <= h,
                next@.len() == y as int * w as int,
                forall|i: int|
                    0 <= i < next@.len() ==> #[trigger] next@[i] == next_cell(
                        self@.cell(i % w as int, i / w as int),
                        self@.neighbor_count(i % w as int, i / w as int),
                    ),
            decreases h - y,
        {
            let mut x: usize = 0;
            while x < w
                invariant
                    self@.wf(),
                    w as int == self@.width,
                    h as int == self@.height,
                    total == self@.cells.len(),
                    y < h,
                    x <= w,
                    next@.len() == y as int * w as int + x as int,
                    forall|i: int|
                        0 <= i < next@.len() ==> #[trigger] next@[i] == next_cell(
                            self@.cell(i % w as int, i / w as int),
                            self@.neighbor_count(i % w as int, i / w as int),
                        ),
                decreases w - x,
            {
                proof {
                    lemma_index_in_range(w as int, h as int, x as int, y as int);
                    vstd::arithmetic::div_mod::lemma_fundamental_div_mod_converse(
                        x as int + y as int * w as int,
                        w as int,
                        y as int,
                        x as int,
                    );
                }
                let count = self.count_alive_neighbors(x, y);
                let old_cell = self.cell_at(x, y);
                let new_cell = match (old_cell, count) {
                    (CellState::Alive, 2) | (CellState::Alive, 3) => CellState::Alive,
                    (CellState::Alive, _) => CellState::Dead,
                    (CellState::Dead, 3) => CellState::Alive,
                    (CellState::Dead, _) => CellState::Dead,
                };
                next.push(new_cell);
                x = x + 1;
            }
            proof {
                assert((y as int + 1) * w as int == y as int * w as int + w as int)
                    by (nonlinear_arith);
            }
            y = y + 1;
        }
        proof {
            assert(h as int * w as int == self@.width * self@.height) by (nonlinear_arith)
                requires
                    w as int == self@.width,
                    h as int == self@.height,
            ;
            assert forall|x: int, y: int| self@.in_bounds(x, y) implies next@[x + y
                * self@.width] == next_cell(self@.cell(x, y), self@.neighbor_count(x, y)) by {
                lemma_index_in_range(self@.width, self@.height, x, y);
                vstd::arithmetic::div_mod::lemma_fundamental_div_mod_converse(
                    x + y * self@.width,
                    self@.width,
                    y,
                    x,
                );
            }
        }
        next
    }

    /// One simulation step: the whole grid is replaced atomically by the
    /// next generation, and the generation counter grows by exactly 1.
    pub fn update(&mut self)
        requires
            old(self)@.wf(),
            old(self)@.generation < u32::MAX,
        ensures
            final(self)@.wf(),
            step_post(old(self)@, final(self)@),
    {
        let next = self.compute_next();
        self.cells = next;
        self.generation = self.generation + 1;
    }

    /// Sets every cell to dead and resets the generation to 0.
    pub fn clear_cells(&mut self)
        requires
            old(self)@.wf(),
        ensures
            final(self)@.wf(),
            clear_post(old(self)@, final(self)@),
    {
        let len = self.cells.len();
        self.cells = dead_cells(len);
        self.generation = 0;
        proof {
            assert forall|x: int, y: int| self@.in_bounds(x, y) implies self@.cell(x, y)
                == CellState::Dead by {
                lemma_index_in_range(self@.width, self@.height, x, y);
            }
        }
    }

    /// Sets every cell independently to a pseudo-random state (alive with
    /// probability 2 in 5) and resets the generation to 0. Dimensions and
    /// cursor are untouched, and every cell ends up in a defined state.
    pub fn randomize_cells(&mut self)
        requires
            old(self)@.wf(),
        ensures
            final(self)@.wf(),
            randomize_post(old(self)@, final(self)@),
    {
        let len = self.cells.len();
        self.cells = random_cells(len);
        self.generation = 0;
    }

    /// Moves the cursor by `(dx, dy)`, clamping each axis to the grid
    /// independently; out-of-range deltas are silently clamped, never
    /// rejected.
    pub fn move_user(&mut self, dx: i32, dy: i32)
        requires
            old(self)@.wf(),
        ensures
            final(self)@.wf(),
            move_post(old(self)@, final(self)@, dx as int, dy as int),
    {
        self.user.x = clamp_move(self.user.x, dx, self.width);
        self.user.y = clamp_move(self.user.y, dy, self.height);
    }

    /// Flips the cell under the cursor: alive becomes dead and dead becomes
    /// alive. Generation and cursor are untouched.
    pub fn reverse_by_user(&mut self)
        requires
            old(self)@.wf(),
        ensures
            final(self)@.wf(),
            toggle_post(old(self)@, final(self)@),
    {
        let n = self.cells.len();
        proof {
            lemma_index_in_range(self@.width, self@.height, self@.cursor_x, self@.cursor_y);
            assert(self@.cursor_x + self@.cursor_y * self@.width < n);
        }
        let idx = self.user.x + self.user.y * self.width;
        let flipped = match self.cells[idx] {
            CellState::Alive => CellState::Dead,
            CellState::Dead => CellState::Alive,
        };
        self.cells.set(idx, flipped);
        proof {
            assert forall|x: int, y: int|
                old(self)@.in_bounds(x, y) && !(x == old(self)@.cursor_x && y
                    == old(self)@.cursor_y) implies self@.cell(x, y) == old(self)@.cell(
                x,
                y,
            ) by {
                lemma_index_in_range(old(self)@.width, old(self)@.height, x, y);
                if x + y * old(self)@.width == idx {
                    lemma_index_injective(
                        old(self)@.width,
                        x,
                        y,
                        old(self)@.cursor_x,
                        old(self)@.cursor_y,
                    );
                }
            }
        }
    }
}

/// `pos + delta` clamped to `[0, limit - 1]`, with the arithmetic carried
/// out exactly (no wrapping) whatever the magnitude of `delta`.
fn clamp_move(pos: usize, delta: i32, limit: usize) -> (r: usize)
    requires
        0 < limit,
        pos < limit,
    ensures
        r as int == clamped(pos as int + delta as int, limit as int),
{
    if delta >= 0 {
        let d = delta as usize;
        if d < limit - pos {
            pos + d
        } else {
            limit - 1
        }
    } else {
        // The magnitude of a negative delta; i32::MIN has none of its own.
        let m: usize = if delta == i32::MIN {
            2147483648
        } else {
            (-delta) as usize
        };
        if m <= pos {
            pos - m
        } else {
            0
        }
    }
}

/// A buffer of `len` cells drawn independently from the pseudo-random
/// source, each alive with probability 2 in 5.
fn random_cells(len: usize) -> (v: Vec<CellState>)
    ensures
        v@.len() == len,
{
    let mut v: Vec<CellState> = Vec::new();
    let mut i: usize = 0;
    while i < len
        invariant
            i <= len,
            v@.len() == i,
        decreases len - i,
    {
        let draw = gen_range_u32(0, 5);
        v.push(cell_from_draw(draw));
        i = i + 1;
    }
    v
}

/// The cell state a random draw in `[0, 5)` stands for: the two lowest
/// values of the five make the cell alive, so alive comes with probability
/// 2 in 5.
pub fn cell_from_draw(draw: u32) -> (c: CellState)
    ensures
        c == (if draw <= 1 {
            CellState::Alive
        } else {
            CellState::Dead
        }),
{
    if draw <= 1 {
        CellState::Alive
    } else {
        CellState::Dead
    }
}

/// Relies on macroquad::rand::gen_range (quad_rand): for integer bounds it
/// returns `low + (high - low) * r` truncated, with `r` a pseudo-random
/// fraction in `[0, 1)`, so the result lies in `[low, high)`. The bound on
/// `high` keeps the float rounding inside that computation from ever
/// reaching `high`; the call cannot panic.
#[verifier::external_body]
fn gen_range_u32(low: u32, high: u32) -> (r: u32)
    requires
        low < high,
        high <= 65536,
    ensures
        low <= r < high,
{
    macroquad::rand::gen_range(low, high)
}

/// Row-major indexing stays inside the grid buffer.
pub proof fn lemma_index_in_range(w: int, h: int, x: int, y: int)
    requires
        0 < w,
        0 <= x < w,
        0 <= y < h,
    ensures
        0 <= y * w,
        x + y * w < w * h,
{
    assert(0 <= y * w && x + y * w < w * h) by (nonlinear_arith)
        requires
            0 < w,
            0 <= x < w,
            0 <= y < h,
    ;
}

/// Row-major indexing is injective on in-bounds coordinates.
pub proof fn lemma_index_injective(w: int, x1: int, y1: int, x2: int, y2: int)
    requires
        0 < w,
        0 <= x1 < w,
        0 <= x2 < w,
        x1 + y1 * w == x2 + y2 * w,
    ensures
        x1 == x2 && y1 == y2,
{
    assert(x1 == x2 && y1 == y2) by (nonlinear_arith)
        requires
            0 < w,
            0 <= x1 < w,
            0 <= x2 < w,
            x1 + y1 * w == x2 + y2 * w,
    ;
}

} // verus!
