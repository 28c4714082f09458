//! Proved laws of the automaton, stated over the mathematical model.
//!
//! Each exec operation of [`crate::engine::Game`] ensures one of the
//! relations `step_post`, `toggle_post`, `move_post`, `randomize_post` or
//! `clear_post`; the lemmas here state what follows for any states related
//! by them, and so hold of every reachable automaton.

use vstd::prelude::*;
use crate::engine::CellState;
use crate::engine::GameView;
use crate::engine::clear_post;
use crate::engine::move_post;
use crate::engine::randomize_post;
use crate::engine::step_post;
use crate::engine::toggle_post;

verus! {

/// One simulation step keeps the state well formed: the grid keeps its
/// dimensions and stays fully populated, and the cursor stays inside it.
pub proof fn lemma_step_preserves_wf(pre: GameView, post: GameView)
    requires
        pre.wf(),
        step_post(pre, post),
    ensures
        post.wf(),
{
}

/// Toggling the cursor cell keeps the state well formed.
pub proof fn lemma_toggle_preserves_wf(pre: GameView, post: GameView)
    requires
        pre.wf(),
        toggle_post(pre, post),
    ensures
        post.wf(),
{
}

/// Clearing keeps the state well formed.
pub proof fn lemma_clear_preserves_wf(pre: GameView, post: GameView)
    requires
        pre.wf(),
        clear_post(pre, post),
    ensures
        post.wf(),
{
}

/// Randomizing keeps the state well formed.
pub proof fn lemma_randomize_preserves_wf(pre: GameView, post: GameView)
    requires
        pre.wf(),
        randomize_post(pre, post),
    ensures
        post.wf(),
{
}

/// A cursor move keeps the state well formed, and in particular the cursor
/// inside the grid, whatever the magnitude of the deltas. Chained over any
/// sequence of moves this keeps the cursor in bounds forever.
pub proof fn lemma_move_preserves_wf(pre: GameView, post: GameView, dx: int, dy: int)
    requires
        pre.wf(),
        move_post(pre, post, dx, dy),
    ensures
        post.wf(),
        0 <= post.cursor_x < post.width,
        0 <= post.cursor_y < post.height,
{
}

/// Toggling the cursor cell twice, with no other operation in between,
/// restores the original state: same cells, cursor, dimensions and
/// generation.
pub proof fn lemma_toggle_twice_restores(g0: GameView, g1: GameView, g2: GameView)
    requires
        g0.wf(),
        toggle_post(g0, g1),
        toggle_post(g1, g2),
    ensures
        g2.width == g0.width,
        g2.height == g0.height,
        g2.cursor_x == g0.cursor_x,
        g2.cursor_y == g0.cursor_y,
        g2.generation == g0.generation,
        forall|x: int, y: int| g0.in_bounds(x, y) ==> g2.cell(x, y) == g0.cell(x, y),
{
    assert forall|x: int, y: int| g0.in_bounds(x, y) implies g2.cell(x, y) == g0.cell(x, y) by {
        if x == g0.cursor_x && y == g0.cursor_y {
            assert(g1.cell(x, y) == crate::engine::flip(g0.cell(x, y)));
            assert(g2.cell(x, y) == crate::engine::flip(g1.cell(x, y)));
        } else {
            assert(g1.cell(x, y) == g0.cell(x, y));
            assert(g2.cell(x, y) == g1.cell(x, y));
        }
    }
}

/// A lone alive cell in the corner of the grid sees no alive neighbor: the
/// three coordinates outside the grid are not counted (no wraparound, no
/// virtual cells), and its in-grid neighbors are dead. After one step the
/// whole grid is dead: the corner cell starves and nothing is born.
pub proof fn lemma_lone_corner_dies(pre: GameView, post: GameView)
    requires
        pre.wf(),
        step_post(pre, post),
        pre.cell(0, 0) == CellState::Alive,
        forall|x: int, y: int|
            pre.in_bounds(x, y) && !(x == 0 && y == 0) ==> pre.cell(x, y) == CellState::Dead,
    ensures
        pre.neighbor_count(0, 0) == 0,
        forall|x: int, y: int| post.in_bounds(x, y) ==> post.cell(x, y) == CellState::Dead,
{
    assert forall|x: int, y: int| post.in_bounds(x, y) implies post.cell(x, y)
        == CellState::Dead by {
        assert(post.cell(x, y) == crate::engine::next_cell(
            pre.cell(x, y),
            pre.neighbor_count(x, y),
        ));
        assert(pre.neighbor_count(x, y) <= 1);
    }
}

/// Still-life stability of the 2x2 block: four alive cells in a square,
/// with the twelve cells around them dead, each see exactly 3 alive
/// neighbors and survive one step unchanged.
pub proof fn lemma_block_still_life(pre: GameView, post: GameView, bx: int, by: int)
    requires
        pre.wf(),
        step_post(pre, post),
        1 <= bx,
        bx + 3 <= pre.width,
        1 <= by,
        by + 3 <= pre.height,
        pre.cell(bx, by) == CellState::Alive,
        pre.cell(bx + 1, by) == CellState::Alive,
        pre.cell(bx, by + 1) == CellState::Alive,
        pre.cell(bx + 1, by + 1) == CellState::Alive,
        forall|x: int, y: int|
            bx - 1 <= x <= bx + 2 && by - 1 <= y <= by + 2 && !(bx <= x <= bx + 1 && by <= y <= by
                + 1) ==> pre.cell(x, y) == CellState::Dead,
    ensures
        pre.neighbor_count(bx, by) == 3,
        pre.neighbor_count(bx + 1, by) == 3,
        pre.neighbor_count(bx, by + 1) == 3,
        pre.neighbor_count(bx + 1, by + 1) == 3,
        post.cell(bx, by) == CellState::Alive,
        post.cell(bx + 1, by) == CellState::Alive,
        post.cell(bx, by + 1) == CellState::Alive,
        post.cell(bx + 1, by + 1) == CellState::Alive,
{
}

/// Half of the blinker oscillation: on a grid that is all dead except for
/// three alive cells in a horizontal row centered at `(cx, cy)`, one step
/// leaves exactly three alive cells in a vertical row centered there.
pub proof fn lemma_blinker_horizontal_to_vertical(
    pre: GameView,
    post: GameView,
    cx: int,
    cy: int,
)
    requires
        pre.wf(),
        step_post(pre, post),
        1 <= cx,
        cx + 2 <= pre.width,
        1 <= cy,
        cy + 2 <= pre.height,
        forall|x: int, y: int|
            pre.in_bounds(x, y) ==> (pre.cell(x, y) == CellState::Alive <==> (y == cy && cx - 1
                <= x <= cx + 1)),
    ensures
        forall|x: int, y: int|
            post.in_bounds(x, y) ==> (post.cell(x, y) == CellState::Alive <==> (x == cx && cy - 1
                <= y <= cy + 1)),
{
    assert forall|x: int, y: int| post.in_bounds(x, y) implies (post.cell(x, y)
        == CellState::Alive <==> (x == cx && cy - 1 <= y <= cy + 1)) by {
        assert(post.cell(x, y) == crate::engine::next_cell(
            pre.cell(x, y),
            pre.neighbor_count(x, y),
        ));
    }
}

/// The other half of the blinker oscillation: a vertical row of three alive
/// cells centered at `(cx, cy)` on an otherwise dead grid becomes, after
/// one step, exactly the horizontal row of three centered there.
pub proof fn lemma_blinker_vertical_to_horizontal(
    pre: GameView,
    post: GameView,
    cx: int,
    cy: int,
)
    requires
        pre.wf(),
        step_post(pre, post),
        1 <= cx,
        cx + 2 <= pre.width,
        1 <= cy,
        cy + 2 <= pre.height,
        forall|x: int, y: int|
            pre.in_bounds(x, y) ==> (pre.cell(x, y) == CellState::Alive <==> (x == cx && cy - 1
                <= y <= cy + 1)),
    ensures
        forall|x: int, y: int|
            post.in_bounds(x, y) ==> (post.cell(x, y) == CellState::Alive <==> (y == cy && cx - 1
                <= x <= cx + 1)),
{
    assert forall|x: int, y: int| post.in_bounds(x, y) implies (post.cell(x, y)
        == CellState::Alive <==> (y == cy && cx - 1 <= x <= cx + 1)) by {
        assert(post.cell(x, y) == crate::engine::next_cell(
            pre.cell(x, y),
            pre.neighbor_count(x, y),
        ));
    }
}

/// The blinker is a period-2 oscillator: starting from the horizontal row
/// of three on an otherwise dead grid, one step gives the vertical row and
/// a second step restores the horizontal row, at the same coordinates.
pub proof fn lemma_blinker_period_two(
    g0: GameView,
    g1: GameView,
    g2: GameView,
    cx: int,
    cy: int,
)
    requires
        g0.wf(),
        step_post(g0, g1),
        step_post(g1, g2),
        1 <= cx,
        cx + 2 <= g0.width,
        1 <= cy,
        cy + 2 <= g0.height,
        forall|x: int, y: int|
            g0.in_bounds(x, y) ==> (g0.cell(x, y) == CellState::Alive <==> (y == cy && cx - 1 <= x
                <= cx + 1)),
    ensures
        forall|x: int, y: int|
            g1.in_bounds(x, y) ==> (g1.cell(x, y) == CellState::Alive <==> (x == cx && cy - 1 <= y
                <= cy + 1)),
        forall|x: int, y: int|
            g2.in_bounds(x, y) ==> (g2.cell(x, y) == CellState::Alive <==> (y == cy && cx - 1 <= x
                <= cx + 1)),
{
    lemma_step_preserves_wf(g0, g1);
    lemma_blinker_horizontal_to_vertical(g0, g1, cx, cy);
    lemma_blinker_vertical_to_horizontal(g1, g2, cx, cy);
}

} // verus!

