use vstd::prelude::*;

use crate::error::Error;
use crate::terminal::Terminal;

verus! {

/// Setting the cursor and then querying it returns exactly the position
/// that was set, for every non-negative target a terminal accepts, on any
/// terminal that reports its cursor faithfully.
pub proof fn lemma_set_then_get(pre: Terminal, mid: Terminal, x: i32, y: i32)
    requires
        pre.wf(),
        0 <= x,
        0 <= y,
        pre.set_result(x, y) is Ok,
        pre.set_step(mid, x, y),
        mid.reports_cursor(),
    ensures
        mid.get_result() == Ok::<(i32, i32), Error>((x, y)),
{
}

/// Clearing the screen and then querying the cursor returns the origin, on
/// any terminal that reports its cursor faithfully.
pub proof fn lemma_clear_then_get(pre: Terminal, mid: Terminal)
    requires
        pre.wf(),
        pre.clear_result() is Ok,
        pre.clear_step(mid),
        mid.reports_cursor(),
    ensures
        mid.get_result() == Ok::<(i32, i32), Error>((0, 0)),
{
}

/// A relative move by (`dx`, `dy`) from a faithfully reporting terminal
/// whose cursor is at (x, y) leaves the cursor at (x + dx, y + dy),
/// whenever the move succeeds and the target is a position the terminal
/// can hold.
pub proof fn lemma_relative_moves(pre: Terminal, post: Terminal, dx: int, dy: int)
    requires
        pre.wf(),
        pre.reports_cursor(),
        0 <= pre.cursor_x() + dx <= i32::MAX,
        0 <= pre.cursor_y() + dy <= i32::MAX,
        pre.rel_result(dx, dy) is Ok,
        pre.rel_step(post, dx, dy),
    ensures
        post.cursor_x() == pre.cursor_x() + dx,
        post.cursor_y() == pre.cursor_y() + dy,
{
    let p = pre.get_result()->Ok_0;
    let tx = (p.0 + dx) as i32;
    let ty = (p.1 + dy) as i32;
    let mid = choose|mid: Terminal| #[trigger] pre.get_step(mid) && mid.set_step(post, tx, ty);
    assert(pre.get_step(mid) && mid.set_step(post, tx, ty));
}

/// Rendering `Left(n)` is the same operation as rendering
/// `Relative(-n, 0)`: same outcome, same terminal end state.
pub proof fn lemma_left_is_relative(pre: Terminal, post: Terminal, n: int)
    ensures
        pre.left_result(n) == pre.rel_result(-n, 0),
        pre.left_step(post, n) <==> pre.rel_step(post, -n, 0),
{
}

/// Rendering `Right(n)` is the same operation as rendering
/// `Relative(n, 0)`: same outcome, same terminal end state.
pub proof fn lemma_right_is_relative(pre: Terminal, post: Terminal, n: int)
    ensures
        pre.right_result(n) == pre.rel_result(n, 0),
        pre.right_step(post, n) <==> pre.rel_step(post, n, 0),
{
}

/// Rendering `Up(n)` is the same operation as rendering
/// `Relative(0, -n)`: same outcome, same terminal end state.
pub proof fn lemma_up_is_relative(pre: Terminal, post: Terminal, n: int)
    ensures
        pre.up_result(n) == pre.rel_result(0, -n),
        pre.up_step(post, n) <==> pre.rel_step(post, 0, -n),
{
}

/// Rendering `Down(n)` is the same operation as rendering
/// `Relative(0, n)`: same outcome, same terminal end state.
pub proof fn lemma_down_is_relative(pre: Terminal, post: Terminal, n: int)
    ensures
        pre.down_result(n) == pre.rel_result(0, n),
        pre.down_step(post, n) <==> pre.rel_step(post, 0, n),
{
}

} // verus!
